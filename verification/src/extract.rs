//! The block extractor: a single pass over a finished response that yields
//! the fenced code blocks whose language tag marks them as shell scripts.
//!
//! The scanner has two states, outside and inside a block. A line whose
//! trimmed form begins with three backticks is a fence marker and flips the
//! state; whatever else the line holds, it is never block content. Every other
//! line is dropped outside a block and appended, with a line feed, inside one.
//! A block still open at the end of the text is closed there.

use vstd::prelude::*;
use crate::text::{
    append_range, find_line_end, first_token, first_token_range, line_len, lines, push_char,
    starts_with, string_from_range, strip_cr, to_chars, trim, trim_range,
};

verus! {

/// A fenced block as it stands in the text, whatever its language.
pub struct FencedBlock {
    /// The trimmed text behind the backticks of the opening fence.
    pub tag: Seq<char>,
    /// The lines between the fences, each followed by a line feed.
    pub content: Seq<char>,
}

/// A shell block taken out of a response.
pub struct CodeBlock {
    /// Position among the extracted blocks, counted from zero.
    pub order: usize,
    /// The trimmed text behind the backticks of the opening fence.
    pub language_tag: String,
    /// The lines between the fences, each followed by a line feed.
    pub content: String,
}

/// The mathematical value of a [`CodeBlock`].
pub struct CodeBlockView {
    pub order: nat,
    pub language_tag: Seq<char>,
    pub content: Seq<char>,
}

impl View for CodeBlock {
    type V = CodeBlockView;

    open spec fn view(&self) -> CodeBlockView {
        CodeBlockView {
            order: self.order as nat,
            language_tag: self.language_tag@,
            content: self.content@,
        }
    }
}

/// Three backticks.
pub open spec fn fence_marker() -> Seq<char> {
    seq!['`', '`', '`']
}

/// Whether a line opens or closes a block.
pub open spec fn is_fence(line: Seq<char>) -> bool {
    starts_with(trim(line), fence_marker())
}

/// The language tag that a fence marker line carries.
pub open spec fn fence_tag(line: Seq<char>) -> Seq<char> {
    trim(trim(line).skip(3))
}

/// Whether a language tag marks a shell script: it is empty, or its first
/// token is exactly `bash` or `sh`.
pub open spec fn is_shell_tag(tag: Seq<char>) -> bool {
    let token = first_token(tag);
    token.len() == 0 || token == seq!['b', 'a', 's', 'h'] || token == seq!['s', 'h']
}

/// The fenced blocks of a text given by its lines, read from a point outside
/// any block.
pub open spec fn fenced_blocks(ls: Seq<Seq<char>>) -> Seq<FencedBlock>
    decreases ls.len(), 0nat,
{
    if ls.len() == 0 {
        Seq::<FencedBlock>::empty()
    } else if is_fence(ls[0]) {
        open_block(ls.skip(1), fence_tag(ls[0]), Seq::<char>::empty())
    } else {
        fenced_blocks(ls.skip(1))
    }
}

/// The fenced blocks read from a point inside a block with tag `tag` whose
/// lines so far make up `content`.
pub open spec fn open_block(ls: Seq<Seq<char>>, tag: Seq<char>, content: Seq<char>) -> Seq<
    FencedBlock,
>
    decreases ls.len(), 1nat,
{
    if ls.len() == 0 {
        seq![FencedBlock { tag, content }]
    } else if is_fence(ls[0]) {
        seq![FencedBlock { tag, content }] + fenced_blocks(ls.skip(1))
    } else {
        open_block(ls.skip(1), tag, content + ls[0] + seq!['\n'])
    }
}

/// The blocks of `all` that are shell scripts, in the order of `all`.
pub open spec fn shell_blocks(all: Seq<FencedBlock>) -> Seq<FencedBlock> {
    all.filter(|b: FencedBlock| is_shell_tag(b.tag))
}

/// The shell blocks of a response, in document order.
pub open spec fn extracted(text: Seq<char>) -> Seq<FencedBlock> {
    shell_blocks(fenced_blocks(lines(text)))
}

/// Whether `blocks` are exactly `shell`, numbered from zero.
pub open spec fn blocks_match(blocks: Seq<CodeBlock>, shell: Seq<FencedBlock>) -> bool {
    &&& blocks.len() == shell.len()
    &&& forall|i: int|
        0 <= i < blocks.len() ==> (#[trigger] blocks[i])@ == (CodeBlockView {
            order: i as nat,
            language_tag: shell[i].tag,
            content: shell[i].content,
        })
}

/// Whether `commands` are exactly the contents of `shell`.
pub open spec fn commands_match(commands: Seq<String>, shell: Seq<FencedBlock>) -> bool {
    &&& commands.len() == shell.len()
    &&& forall|i: int| 0 <= i < commands.len() ==> (#[trigger] commands[i])@ == shell[i].content
}

proof fn lemma_shell_blocks_push(all: Seq<FencedBlock>, b: FencedBlock)
    ensures
        shell_blocks(all.push(b)) == if is_shell_tag(b.tag) {
            shell_blocks(all).push(b)
        } else {
            shell_blocks(all)
        },
{
    reveal(Seq::filter);
    assert(all.push(b).drop_last() =~= all);
}

proof fn lemma_lines_step(s: Seq<char>, pos: int, end: int)
    requires
        0 <= pos < s.len(),
        pos <= end <= s.len(),
        end == pos + line_len(s.skip(pos)),
    ensures
        end < s.len() ==> lines(s.skip(pos)) == seq![strip_cr(s.subrange(pos, end))] + lines(
            s.skip(end + 1),
        ),
        end == s.len() ==> lines(s.skip(pos)) == seq![s.skip(pos)] + lines(s.skip(end)),
{
    let t = s.skip(pos);
    if end < s.len() {
        assert(t.take(end - pos) =~= s.subrange(pos, end));
        assert(t.skip(end - pos + 1) =~= s.skip(end + 1));
    } else {
        assert(s.skip(end).len() == 0);
        assert(seq![t] + Seq::<Seq<char>>::empty() =~= seq![t]);
    }
}

/// Whether `v[lo..hi]`, a trimmed line, begins with three backticks.
fn range_is_fence(v: &Vec<char>, lo: usize, hi: usize) -> (b: bool)
    requires
        lo <= hi <= v.len(),
    ensures
        b == starts_with(v@.subrange(lo as int, hi as int), fence_marker()),
{
    let b = hi - lo >= 3 && v[lo] == '`' && v[lo + 1] == '`' && v[lo + 2] == '`';
    proof {
        let s = v@.subrange(lo as int, hi as int);
        if hi - lo >= 3 {
            assert(s[0] == v@[lo as int]);
            assert(s[1] == v@[lo + 1]);
            assert(s[2] == v@[lo + 2]);
            if b {
                assert(s.subrange(0, 3) =~= fence_marker());
            } else {
                assert(s.subrange(0, 3)[0] == s[0]);
                assert(s.subrange(0, 3)[1] == s[1]);
                assert(s.subrange(0, 3)[2] == s[2]);
            }
        }
    }
    b
}

/// Whether the tag `v[lo..hi]` marks a shell script.
fn range_is_shell(v: &Vec<char>, lo: usize, hi: usize) -> (b: bool)
    requires
        lo <= hi <= v.len(),
    ensures
        b == is_shell_tag(v@.subrange(lo as int, hi as int)),
{
    let (a, e) = first_token_range(v, lo, hi);
    let ghost token = v@.subrange(a as int, e as int);
    let ghost bash = seq!['b', 'a', 's', 'h'];
    let ghost sh = seq!['s', 'h'];
    proof {
        assert(token.len() == e - a);
        assert(bash.len() == 4 && bash[0] == 'b' && bash[1] == 'a' && bash[2] == 's' && bash[3]
            == 'h');
        assert(sh.len() == 2 && sh[0] == 's' && sh[1] == 'h');
    }
    if e == a {
        true
    } else if e - a == 4 {
        let b = v[a] == 'b' && v[a + 1] == 'a' && v[a + 2] == 's' && v[a + 3] == 'h';
        proof {
            assert(token[0] == v@[a as int]);
            assert(token[1] == v@[a + 1]);
            assert(token[2] == v@[a + 2]);
            assert(token[3] == v@[a + 3]);
            if b {
                assert(token =~= bash);
            }
        }
        b
    } else if e - a == 2 {
        let b = v[a] == 's' && v[a + 1] == 'h';
        proof {
            assert(token[0] == v@[a as int]);
            assert(token[1] == v@[a + 1]);
            if b {
                assert(token =~= sh);
            }
        }
        b
    } else {
        false
    }
}

/// Extracts the shell blocks of a response, in document order.
///
/// The result holds one block for every fenced block of the text whose
/// language tag is empty or has `bash` or `sh` as its first token; a block
/// left open at the end of the text counts as closed there.
pub fn extract_blocks(response: &str) -> (blocks: Vec<CodeBlock>)
    ensures
        blocks_match(blocks@, extracted(response@)),
{
    let chars = to_chars(response);
    let n = chars.len();
    let mut blocks: Vec<CodeBlock> = Vec::new();
    let mut pos: usize = 0;
    let mut inside = false;
    let mut shell = false;
    let mut language = String::new();
    let mut content = String::new();
    let ghost total = fenced_blocks(lines(chars@));
    let ghost mut seen = Seq::<FencedBlock>::empty();
    proof {
        assert(chars@.skip(0) =~= chars@);
        assert(seen + fenced_blocks(lines(chars@)) =~= total);
        reveal(Seq::filter);
    }
    while pos < n
        invariant
            n == chars.len(),
            pos <= n,
            inside ==> shell == is_shell_tag(language@),
            total == seen + (if inside {
                open_block(lines(chars@.skip(pos as int)), language@, content@)
            } else {
                fenced_blocks(lines(chars@.skip(pos as int)))
            }),
            blocks_match(blocks@, shell_blocks(seen)),
        decreases n - pos,
    {
        let end = find_line_end(&chars, pos);
        let (line_hi, next) = if end < n {
            if end > pos && chars[end - 1] == '\r' {
                (end - 1, end + 1)
            } else {
                (end, end + 1)
            }
        } else {
            (n, n)
        };
        let ghost line = chars@.subrange(pos as int, line_hi as int);
        let ghost rest = lines(chars@.skip(next as int));
        proof {
            lemma_lines_step(chars@, pos as int, end as int);
            if end < n {
                let raw = chars@.subrange(pos as int, end as int);
                if end > pos {
                    assert(raw.last() == chars@[end - 1]);
                }
                assert(strip_cr(raw) =~= line);
            } else {
                assert(chars@.skip(pos as int) =~= line);
            }
            assert(lines(chars@.skip(pos as int)) == seq![line] + rest);
            assert((seq![line] + rest)[0] == line);
            assert((seq![line] + rest).skip(1) =~= rest);
        }
        let (a, b) = trim_range(&chars, pos, line_hi);
        if range_is_fence(&chars, a, b) {
            if inside {
                let ghost closed = FencedBlock { tag: language@, content: content@ };
                proof {
                    lemma_shell_blocks_push(seen, closed);
                    assert(seen + (seq![closed] + fenced_blocks(rest)) =~= seen.push(closed)
                        + fenced_blocks(rest));
                }
                if shell {
                    let block = CodeBlock { order: blocks.len(), language_tag: language, content };
                    blocks.push(block);
                }
                proof {
                    seen = seen.push(closed);
                }
                inside = false;
                language = String::new();
                content = String::new();
            } else {
                let (t_lo, t_hi) = trim_range(&chars, a + 3, b);
                proof {
                    assert(chars@.subrange(a as int, b as int).skip(3) =~= chars@.subrange(
                        a + 3,
                        b as int,
                    ));
                }
                shell = range_is_shell(&chars, t_lo, t_hi);
                language = string_from_range(&chars, t_lo, t_hi);
                content = String::new();
                inside = true;
            }
        } else if inside {
            let ghost before = content@;
            append_range(&mut content, &chars, pos, line_hi);
            push_char(&mut content, '\n');
            assert(content@ =~= before + line + seq!['\n']);
        }
        pos = next;
    }
    proof {
        assert(lines(chars@.skip(pos as int)) =~= Seq::<Seq<char>>::empty());
    }
    if inside {
        let ghost closed = FencedBlock { tag: language@, content: content@ };
        proof {
            lemma_shell_blocks_push(seen, closed);
            assert(seen + seq![closed] =~= seen.push(closed));
        }
        if shell {
            let block = CodeBlock { order: blocks.len(), language_tag: language, content };
            blocks.push(block);
        }
    } else {
        proof {
            assert(seen + Seq::<FencedBlock>::empty() =~= seen);
        }
    }
    blocks
}

/// Extracts the contents of the shell blocks of a response, in document
/// order.
pub fn extract_commands(response: &str) -> (commands: Vec<String>)
    ensures
        commands_match(commands@, extracted(response@)),
{
    let blocks = extract_blocks(response);
    let mut commands: Vec<String> = Vec::new();
    let mut i: usize = 0;
    while i < blocks.len()
        invariant
            i <= blocks.len(),
            blocks_match(blocks@, extracted(response@)),
            commands.len() == i,
            forall|k: int| 0 <= k < i ==> (#[trigger] commands@[k])@ == extracted(response@)[k].content,
        decreases blocks.len() - i,
    {
        assert(blocks@[i as int]@.content == extracted(response@)[i as int].content);
        commands.push(blocks[i].content.clone());
        i += 1;
    }
    commands
}

/// The positions in `all` of the blocks that are shell scripts, ascending.
pub open spec fn shell_positions(all: Seq<FencedBlock>) -> Seq<int>
    decreases all.len(),
{
    if all.len() == 0 {
        Seq::<int>::empty()
    } else if is_shell_tag(all.last().tag) {
        shell_positions(all.drop_last()).push(all.len() - 1)
    } else {
        shell_positions(all.drop_last())
    }
}

/// What `shell_positions` says of the blocks that are kept.
proof fn lemma_shell_positions(all: Seq<FencedBlock>)
    ensures
        shell_blocks(all).len() == shell_positions(all).len(),
        forall|i: int|
            0 <= i < shell_positions(all).len() ==> 0 <= #[trigger] shell_positions(all)[i]
                < all.len() && shell_blocks(all)[i] == all[shell_positions(all)[i]],
        forall|i: int, j: int|
            0 <= i < j < shell_positions(all).len() ==> shell_positions(all)[i] < shell_positions(
                all,
            )[j],
        forall|k: int|
            0 <= k < all.len() ==> (is_shell_tag(#[trigger] all[k].tag) <==> shell_positions(
                all,
            ).contains(k)),
    decreases all.len(),
{
    reveal(Seq::filter);
    if all.len() > 0 {
        let front = all.drop_last();
        let last = all.last();
        lemma_shell_positions(front);
        assert(front.push(last) =~= all);
        lemma_shell_blocks_push(front, last);
        let ps = shell_positions(all);
        let pf = shell_positions(front);
        assert forall|k: int| 0 <= k < all.len() implies (is_shell_tag(#[trigger] all[k].tag)
            <==> ps.contains(k)) by {
            if k < front.len() {
                assert(all[k] == front[k]);
                if is_shell_tag(front[k].tag) {
                    let i = choose|i: int| 0 <= i < pf.len() && pf[i] == k;
                    assert(ps[i] == k);
                }
                if ps.contains(k) {
                    let i = choose|i: int| 0 <= i < ps.len() && ps[i] == k;
                    assert(pf[i] == k);
                }
            } else {
                if is_shell_tag(last.tag) {
                    assert(ps[ps.len() - 1] == k);
                }
                if ps.contains(k) {
                    let i = choose|i: int| 0 <= i < ps.len() && ps[i] == k;
                    if !is_shell_tag(last.tag) {
                        assert(pf[i] < front.len());
                    }
                }
            }
        }
    }
}

/// The extractor keeps the shell blocks and nothing else, in document order.
/// Of the fenced blocks of a text it returns those whose tag is a shell tag:
/// as many as there are of them, each once, and a block that stands earlier
/// in the text stands earlier in the result.
pub proof fn extraction_count(text: Seq<char>)
    ensures
        ({
            let all = fenced_blocks(lines(text));
            let kept = extracted(text);
            let at = shell_positions(all);
            &&& kept.len() == at.len()
            &&& forall|i: int|
                0 <= i < at.len() ==> 0 <= #[trigger] at[i] < all.len() && kept[i] == all[at[i]]
            &&& forall|i: int, j: int| 0 <= i < j < at.len() ==> at[i] < at[j]
            &&& forall|k: int|
                0 <= k < all.len() ==> (is_shell_tag(#[trigger] all[k].tag) <==> at.contains(k))
        }),
{
    lemma_shell_positions(fenced_blocks(lines(text)));
}

} // verus!
