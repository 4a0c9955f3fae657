use ai_coder::extract::{extract_blocks, extract_commands};
use ai_coder::text::char_is_space;

#[test]
fn test_extract_commands_bash() {
    let response = "Here is a command:\n```bash\necho hello\n```";
    let commands = extract_commands(response);
    assert_eq!(commands.len(), 1);
    assert_eq!(commands[0], "echo hello\n");
}

#[test]
fn test_extract_commands_sh() {
    let response = "Here is a command:\n```sh\necho hello\n```";
    let commands = extract_commands(response);
    assert_eq!(commands.len(), 1);
    assert_eq!(commands[0], "echo hello\n");
}

#[test]
fn test_extract_commands_no_lang() {
    let response = "Here is a command:\n```\necho hello\n```";
    let commands = extract_commands(response);
    assert_eq!(commands.len(), 1);
    assert_eq!(commands[0], "echo hello\n");
}

#[test]
fn test_extract_commands_other_lang() {
    let response = "Here is some rust code:\n```rust\nfn main() {}\n```";
    let commands = extract_commands(response);
    assert_eq!(commands.len(), 0);
}

#[test]
fn test_extract_multiple_commands() {
    let response = "First:\n```bash\necho one\n```\nSecond:\n```sh\necho two\n```";
    let commands = extract_commands(response);
    assert_eq!(commands.len(), 2);
    assert_eq!(commands[0], "echo one\n");
    assert_eq!(commands[1], "echo two\n");
}

#[test]
fn test_extract_commands_mixed_langs() {
    let response = "Rust:\n```rust\nprintln!(\"hi\");\n```\nBash:\n```bash\necho hi\n```";
    let commands = extract_commands(response);
    assert_eq!(commands.len(), 1);
    assert_eq!(commands[0], "echo hi\n");
}

#[test]
fn test_extract_commands_empty_block() {
    let response = "Empty:\n```bash\n```";
    let commands = extract_commands(response);
    assert_eq!(commands.len(), 1);
    assert_eq!(commands[0], "");
}

#[test]
fn test_extract_commands_with_extra_spaces() {
    let response = "  ```bash  \necho spaced\n  ```  ";
    let commands = extract_commands(response);
    assert_eq!(commands.len(), 1);
    assert_eq!(commands[0], "echo spaced\n");
}

#[test]
fn test_extract_commands_unclosed_block() {
    let response = "Run this:\n```bash\necho no-close";
    let commands = extract_commands(response);
    assert_eq!(commands.len(), 1);
    assert_eq!(commands[0], "echo no-close\n");
}

#[test]
fn test_extract_commands_precise_language_match() {
    let response = "```fish\necho should-not-run\n```";
    let commands = extract_commands(response);
    assert_eq!(commands.len(), 0);
}

#[test]
fn content_fidelity_of_a_single_block() {
    let commands = extract_commands("```bash\necho hello\n```");
    assert_eq!(commands, vec!["echo hello\n".to_string()]);
}

#[test]
fn fish_and_rust_blocks_are_dropped() {
    assert!(extract_commands("```fish\necho x\n```").is_empty());
    assert!(extract_commands("```rust\nfn main() {}\n```").is_empty());
}

#[test]
fn two_adjacent_blocks_keep_their_order() {
    let commands = extract_commands("```bash\necho one\n```\n```sh\necho two\n```");
    assert_eq!(commands, vec!["echo one\n".to_string(), "echo two\n".to_string()]);
}

#[test]
fn unterminated_fence_is_closed_at_the_end() {
    let commands = extract_commands("```bash\necho no-close");
    assert_eq!(commands, vec!["echo no-close\n".to_string()]);
}

#[test]
fn blocks_carry_order_and_tag() {
    let text = "a\n```bash -x\none\n```\n```python\nskip\n```\n```\nthree\nfour\n```\n";
    let blocks = extract_blocks(text);
    assert_eq!(blocks.len(), 2);
    assert_eq!(blocks[0].order, 0);
    assert_eq!(blocks[0].language_tag, "bash -x");
    assert_eq!(blocks[0].content, "one\n");
    assert_eq!(blocks[1].order, 1);
    assert_eq!(blocks[1].language_tag, "");
    assert_eq!(blocks[1].content, "three\nfour\n");
}

#[test]
fn count_is_the_number_of_shell_tagged_blocks() {
    let tags = ["bash", "rust", "", "sh", "fish", "shell", "bash", "Bash", "sh -e"];
    let mut text = String::new();
    for (i, tag) in tags.iter().enumerate() {
        text.push_str(&format!("intro {}\n```{}\nbody {}\n```\n", i, tag, i));
    }
    let commands = extract_commands(&text);
    assert_eq!(
        commands,
        vec![
            "body 0\n".to_string(),
            "body 2\n".to_string(),
            "body 3\n".to_string(),
            "body 6\n".to_string(),
            "body 8\n".to_string(),
        ]
    );
}

#[test]
fn tag_must_match_exactly() {
    assert!(extract_commands("```bashful\necho x\n```").is_empty());
    assert!(extract_commands("```BASH\necho x\n```").is_empty());
    assert!(extract_commands("```shh\necho x\n```").is_empty());
    assert_eq!(extract_commands("```   sh   \necho x\n```").len(), 1);
}

#[test]
fn fence_inside_a_block_closes_it_whatever_follows_the_backticks() {
    let commands = extract_commands("```bash\necho a\n```python\necho b\n```\n");
    assert_eq!(commands, vec!["echo a\n".to_string(), String::new()]);
    let commands = extract_commands("```rust\nlet a = 1;\n```bash\necho b\n```\necho c\n");
    assert_eq!(commands, vec!["echo c\n".to_string()]);
}

#[test]
fn carriage_returns_before_line_feeds_are_line_ends() {
    let commands = extract_commands("```bash\r\necho one\r\necho two\r\n```\r\n");
    assert_eq!(commands, vec!["echo one\necho two\n".to_string()]);
    let commands = extract_commands("```bash\necho tail\r");
    assert_eq!(commands, vec!["echo tail\r\n".to_string()]);
}

#[test]
fn inner_lines_are_not_trimmed() {
    let commands = extract_commands("```sh\n  indented  \n\n\tlast\n```");
    assert_eq!(commands, vec!["  indented  \n\n\tlast\n".to_string()]);
}

#[test]
fn text_without_fences_has_no_blocks() {
    assert!(extract_commands("").is_empty());
    assert!(extract_commands("just text\nand more\n").is_empty());
    assert!(extract_commands("`` not a fence\n").is_empty());
}

#[test]
fn unicode_white_space_around_a_fence_is_trimmed() {
    let commands = extract_commands("\u{2003}```\u{a0}bash\u{3000}\necho caf\u{e9}\n\u{2028}```");
    assert_eq!(commands, vec!["echo caf\u{e9}\n".to_string()]);
}

#[test]
fn white_space_is_what_the_standard_library_calls_white_space() {
    let mut code: u32 = 0;
    while code <= 0x10FFFF {
        if let Some(c) = char::from_u32(code) {
            assert_eq!(char_is_space(c), c.is_whitespace(), "U+{:04X}", code);
        }
        code += 1;
    }
}

#[test]
fn extraction_agrees_with_a_scan_by_the_standard_library() {
    let samples = [
        "x\n```bash\na\n```\ny\n```\nb\n",
        "```sh extra\n\n```\n\n```\n```\n``` \n",
        " \t```bash\t\n  ```x\n```zsh\nq\n```",
        "```\r\n``` sh\r\nls\r\n",
        "no newline at end ```bash",
        "```bash```\necho\n```",
    ];
    for text in samples {
        let mut expected: Vec<String> = Vec::new();
        let mut inside = false;
        let mut tag = String::new();
        let mut content = String::new();
        for line in text.lines() {
            if line.trim().starts_with("```") {
                if inside {
                    let token = tag.split_whitespace().next().unwrap_or("");
                    if token.is_empty() || token == "bash" || token == "sh" {
                        expected.push(content.clone());
                    }
                    content.clear();
                    tag.clear();
                    inside = false;
                } else {
                    inside = true;
                    tag = line.trim()[3..].to_string();
                }
            } else if inside {
                content.push_str(line);
                content.push('\n');
            }
        }
        if inside {
            let token = tag.split_whitespace().next().unwrap_or("");
            if token.is_empty() || token == "bash" || token == "sh" {
                expected.push(content);
            }
        }
        assert_eq!(extract_commands(text), expected, "{:?}", text);
    }
}
