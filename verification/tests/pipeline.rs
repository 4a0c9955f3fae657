use ai_coder::accumulator::{Echo, Phase, ResponseAccumulator};
use ai_coder::agent::{
    decide, warns_unconfirmed, AgentAction, AgentEvent, AgentRun, ExecutionDecision,
    ExecutionResult, Stage,
};
use ai_coder::decoder::FrameDecoder;
use ai_coder::extract::extract_blocks;
use ai_coder::json::{find_member, JsonMember, JsonText, JsonValue};
use ai_coder::ollama::{generate_request_body, generate_url, Frame, OllamaResponse};
use ai_coder::pipeline::PipelineError;

fn texts(frames: &[Frame]) -> String {
    let mut out = String::new();
    for frame in frames {
        if let Frame::Text(s) = frame {
            out.push_str(s);
        }
    }
    out
}

fn shape(frames: &[Frame]) -> Vec<String> {
    frames
        .iter()
        .map(|f| match f {
            Frame::Text(s) => format!("T:{}", s),
            Frame::Completion => "C".to_string(),
            Frame::Error(s) => format!("E:{}", s),
        })
        .collect()
}

fn run(chunks: &[&[u8]]) -> (Vec<String>, Result<(), Vec<u8>>) {
    let mut decoder = FrameDecoder::new();
    let mut all: Vec<Frame> = Vec::new();
    for chunk in chunks {
        all.extend(decoder.feed(chunk));
    }
    let end = match decoder.finish() {
        Ok(last) => {
            all.extend(last);
            Ok(())
        }
        Err(e) => Err(e.bytes),
    };
    (shape(&all), end)
}

const BODY: &[u8] = b"{\"response\":\"Hel\"}\n{\"response\":\"lo, \",\"done\":false}\n{\"response\":\"world\"}\n{\"response\":\"!\",\"done\":true}\n";

#[test]
fn whole_body_in_one_chunk() {
    let (frames, end) = run(&[BODY]);
    assert_eq!(frames, vec!["T:Hel", "T:lo, ", "T:world", "T:!", "C"]);
    assert_eq!(end, Ok(()));
}

#[test]
fn every_split_in_two_gives_the_same_frames() {
    let whole = run(&[BODY]);
    for cut in 0..=BODY.len() {
        let split = run(&[&BODY[..cut], &BODY[cut..]]);
        assert_eq!(split, whole, "cut at {}", cut);
    }
}

#[test]
fn byte_by_byte_gives_the_same_text() {
    let mut decoder = FrameDecoder::new();
    let mut all: Vec<Frame> = Vec::new();
    for byte in BODY {
        all.extend(decoder.feed(&[*byte]));
    }
    all.extend(decoder.finish().ok().unwrap());
    assert_eq!(texts(&all), "Hello, world!");
}

#[test]
fn empty_chunk_is_a_no_op() {
    let mut decoder = FrameDecoder::new();
    assert!(decoder.feed(b"").is_empty());
    assert!(decoder.feed(b"{\"response\":\"a").is_empty());
    assert_eq!(decoder.pending_len(), 14);
    assert!(decoder.feed(b"").is_empty());
    assert_eq!(decoder.pending_len(), 14);
    assert_eq!(shape(&decoder.feed(b"b\"}\n")), vec!["T:ab"]);
    assert_eq!(decoder.pending_len(), 0);
    assert!(!decoder.has_ended());
}

#[test]
fn final_line_without_a_line_feed_is_decoded_at_the_end() {
    let (frames, end) = run(&[b"{\"response\":\"a\"}\n{\"response\":\"b\"}"]);
    assert_eq!(frames, vec!["T:a", "T:b"]);
    assert_eq!(end, Ok(()));
}

#[test]
fn garbage_at_the_end_is_a_decode_error() {
    let (frames, end) = run(&[b"{\"response\":\"a\"}\n{\"respo"]);
    assert_eq!(frames, vec!["T:a"]);
    assert_eq!(end, Err(b"{\"respo".to_vec()));
    let (frames, end) = run(&[b"not json\n"]);
    assert!(frames.is_empty());
    assert_eq!(end, Err(b"not json\n".to_vec()));
}

#[test]
fn record_that_spans_lines_is_kept_until_it_is_complete() {
    let (frames, end) = run(&[b"{\"response\":\n", b"\"two lines\"}\n", b"{\"response\":\"x\"}\n"]);
    assert_eq!(frames, vec!["T:two lines", "T:x"]);
    assert_eq!(end, Ok(()));
}

#[test]
fn error_record_ends_the_stream() {
    let (frames, end) =
        run(&[b"{\"response\":\"a\"}\n{\"error\":\"model not found\"}\n{\"response\":\"b\"}\n"]);
    assert_eq!(frames, vec!["T:a", "E:model not found"]);
    assert_eq!(end, Ok(()));
}

#[test]
fn done_record_ends_the_stream() {
    let mut decoder = FrameDecoder::new();
    let frames = decoder.feed(b"{\"done\":true}\n{\"response\":\"late\"}\n");
    assert_eq!(shape(&frames), vec!["T:", "C"]);
    assert!(decoder.has_ended());
    assert_eq!(decoder.pending_len(), 0);
    assert!(decoder.feed(b"{\"response\":\"later\"}\n").is_empty());
    assert!(decoder.finish().ok().unwrap().is_empty());
}

#[test]
fn empty_error_is_no_error() {
    let (frames, _) = run(&[b"{\"response\":\"a\",\"error\":\"\"}\n{\"error\":null}\n"]);
    assert_eq!(frames, vec!["T:a", "T:"]);
}

#[test]
fn record_members_take_their_defaults() {
    let record = OllamaResponse::decode(b"{}").unwrap();
    assert_eq!(record.response, "");
    assert!(!record.done);
    assert!(record.error.is_none());
    assert!(!record.is_terminal());
    let record = OllamaResponse::decode(b" {\"done\":true,\"extra\":[1,2],\"response\":\"\\u00e9\\n\"} ").unwrap();
    assert_eq!(record.response, "\u{e9}\n");
    assert!(record.done);
    assert!(record.is_terminal());
    let record = OllamaResponse::decode(b"{\"error\":\"x\"}").unwrap();
    assert_eq!(record.error.as_deref(), Some("x"));
    assert!(record.has_error());
}

#[test]
fn members_of_the_wrong_kind_do_not_decode() {
    assert!(OllamaResponse::decode(b"{\"response\":1}").is_none());
    assert!(OllamaResponse::decode(b"{\"response\":null}").is_none());
    assert!(OllamaResponse::decode(b"{\"done\":\"yes\"}").is_none());
    assert!(OllamaResponse::decode(b"{\"done\":null}").is_none());
    assert!(OllamaResponse::decode(b"{\"error\":false}").is_none());
    assert!(OllamaResponse::decode(b"{\"error\":{}}").is_none());
    assert!(OllamaResponse::decode(b"[]").is_none());
    assert!(OllamaResponse::decode(b"\"text\"").is_none());
    assert!(OllamaResponse::decode(b"null").is_none());
    assert!(OllamaResponse::decode(b"").is_none());
    assert!(OllamaResponse::decode(b"{\"response\":\"a\"} x").is_none());
}

#[test]
fn record_is_read_off_an_outline() {
    let doc = JsonText::Object(vec![
        JsonMember { key: "done".to_string(), value: JsonValue::Bool(true) },
        JsonMember { key: "response".to_string(), value: JsonValue::Text("hi".to_string()) },
        JsonMember { key: "other".to_string(), value: JsonValue::Number },
    ]);
    let record = OllamaResponse::from_json(&doc).unwrap();
    assert_eq!(record.response, "hi");
    assert!(record.done);
    assert!(record.error.is_none());
    assert!(OllamaResponse::from_json(&JsonText::Invalid).is_none());
    assert!(OllamaResponse::from_json(&JsonText::NotObject).is_none());
    let doc = JsonText::Object(vec![JsonMember {
        key: "response".to_string(),
        value: JsonValue::Array,
    }]);
    assert!(OllamaResponse::from_json(&doc).is_none());
}

#[test]
fn first_member_with_the_key_is_found() {
    let members = vec![
        JsonMember { key: "a".to_string(), value: JsonValue::Null },
        JsonMember { key: "b".to_string(), value: JsonValue::Bool(true) },
        JsonMember { key: "b".to_string(), value: JsonValue::Bool(false) },
    ];
    assert!(matches!(find_member(&members, "a"), Some(JsonValue::Null)));
    assert!(matches!(find_member(&members, "b"), Some(JsonValue::Bool(true))));
    assert!(find_member(&members, "c").is_none());
}

#[test]
fn request_body_is_json_with_escapes() {
    assert_eq!(
        generate_request_body("qwen2.5-coder", "say \"hi\"\n"),
        "{\"model\":\"qwen2.5-coder\",\"prompt\":\"say \\\"hi\\\"\\n\",\"stream\":true}"
    );
    assert_eq!(generate_url("http://localhost:11434"), "http://localhost:11434/api/generate");
}

#[test]
fn accumulator_echoes_and_gathers() {
    let mut acc = ResponseAccumulator::new();
    assert!(matches!(acc.accept(Frame::Text("Hel".to_string())), Echo::Write(s) if s == "Hel"));
    assert!(matches!(acc.accept(Frame::Text(String::new())), Echo::Write(s) if s.is_empty()));
    assert!(matches!(acc.accept(Frame::Text("lo".to_string())), Echo::Write(s) if s == "lo"));
    assert_eq!(acc.text(), "Hello");
    assert_eq!(acc.phase(), Phase::Generating);
    assert!(matches!(acc.accept(Frame::Completion), Echo::Complete));
    assert_eq!(acc.phase(), Phase::Completed);
    assert!(matches!(acc.accept(Frame::Text("late".to_string())), Echo::Nothing));
    assert!(matches!(acc.accept(Frame::Error("late".to_string())), Echo::Nothing));
    assert_eq!(acc.into_response().as_deref(), Some("Hello"));
}

#[test]
fn accumulator_discards_the_text_on_an_error() {
    let mut acc = ResponseAccumulator::new();
    acc.accept(Frame::Text("```bash\nrm -rf x\n".to_string()));
    assert!(matches!(acc.accept(Frame::Error("boom".to_string())), Echo::Report(s) if s == "boom"));
    assert_eq!(acc.phase(), Phase::Failed);
    assert_eq!(acc.text(), "");
    acc.end_of_stream();
    assert_eq!(acc.phase(), Phase::Failed);
    assert!(acc.into_response().is_none());
}

#[test]
fn end_of_stream_completes_an_open_phase() {
    let mut acc = ResponseAccumulator::new();
    acc.accept(Frame::Text("partial".to_string()));
    assert!(ResponseAccumulator::new().into_response().is_none());
    acc.end_of_stream();
    assert_eq!(acc.phase(), Phase::Completed);
    assert_eq!(acc.into_response().as_deref(), Some("partial"));
}

#[test]
fn answers_are_trimmed_and_compared_without_case() {
    assert_eq!(decide("y\n"), ExecutionDecision::Approved);
    assert_eq!(decide("Y"), ExecutionDecision::Approved);
    assert_eq!(decide("  y \r\n"), ExecutionDecision::Approved);
    assert_eq!(decide("n\n"), ExecutionDecision::Skipped);
    assert_eq!(decide(""), ExecutionDecision::Skipped);
    assert_eq!(decide("\n"), ExecutionDecision::Skipped);
    assert_eq!(decide("yes\n"), ExecutionDecision::Skipped);
    assert_eq!(decide("y y\n"), ExecutionDecision::Skipped);
    assert_eq!(decide("\u{ff59}\n"), ExecutionDecision::Skipped);
}

#[test]
fn results_succeed_on_exit_code_zero_only() {
    assert_eq!(
        ExecutionResult::new(3, Some(0)),
        ExecutionResult { order: 3, exit_status: Some(0), succeeded: true }
    );
    assert_eq!(
        ExecutionResult::new(0, Some(2)),
        ExecutionResult { order: 0, exit_status: Some(2), succeeded: false }
    );
    assert_eq!(
        ExecutionResult::new(1, Some(-1)),
        ExecutionResult { order: 1, exit_status: Some(-1), succeeded: false }
    );
    assert_eq!(
        ExecutionResult::new(1, None),
        ExecutionResult { order: 1, exit_status: None, succeeded: false }
    );
}

#[test]
fn warning_is_due_for_unconfirmed_auto_approval_only() {
    assert!(warns_unconfirmed(true, false));
    assert!(!warns_unconfirmed(true, true));
    assert!(!warns_unconfirmed(false, false));
    assert!(!warns_unconfirmed(false, true));
}

const TWO_BLOCKS: &str = "```bash\nfalse\n```\n```sh\necho two\n```\n";

#[test]
fn interactive_run_asks_and_skips_on_n() {
    let mut run = AgentRun::new(extract_blocks(TWO_BLOCKS), false);
    assert_eq!(run.step(AgentEvent::Advance), AgentAction::Ask { order: 0 });
    assert_eq!(run.stage(), Stage::AwaitingAnswer);
    assert_eq!(run.step(AgentEvent::Answer("n\n".to_string())), AgentAction::Skip { order: 0 });
    assert!(run.results().is_empty());
    assert_eq!(run.step(AgentEvent::Advance), AgentAction::Ask { order: 1 });
    assert_eq!(run.step(AgentEvent::Answer("y\n".to_string())), AgentAction::Run { order: 1 });
    assert_eq!(run.block(1).unwrap().content, "echo two\n");
    let result = ExecutionResult { order: 1, exit_status: Some(0), succeeded: true };
    assert_eq!(run.step(AgentEvent::Exited(0)), AgentAction::Report { result });
    assert_eq!(run.step(AgentEvent::Advance), AgentAction::Finish);
    assert_eq!(run.stage(), Stage::Finished);
    assert_eq!(run.results(), &vec![result]);
    assert_eq!(run.step(AgentEvent::Advance), AgentAction::Finish);
    assert!(run.block(2).is_none());
}

#[test]
fn auto_run_never_asks() {
    let mut run = AgentRun::new(extract_blocks(TWO_BLOCKS), true);
    let mut actions = Vec::new();
    let mut event = AgentEvent::Advance;
    loop {
        let action = run.step(event);
        actions.push(action);
        event = match action {
            AgentAction::Run { order } => {
                if order == 0 {
                    AgentEvent::Exited(1)
                } else {
                    AgentEvent::Exited(0)
                }
            }
            AgentAction::Finish => break,
            _ => AgentEvent::Advance,
        };
    }
    let failed = ExecutionResult { order: 0, exit_status: Some(1), succeeded: false };
    let passed = ExecutionResult { order: 1, exit_status: Some(0), succeeded: true };
    assert_eq!(
        actions,
        vec![
            AgentAction::Run { order: 0 },
            AgentAction::Report { result: failed },
            AgentAction::Run { order: 1 },
            AgentAction::Report { result: passed },
            AgentAction::Finish,
        ]
    );
    assert_eq!(run.results(), &vec![failed, passed]);
}

#[test]
fn command_that_cannot_start_or_is_killed_fails_locally() {
    let mut run = AgentRun::new(extract_blocks(TWO_BLOCKS), true);
    assert_eq!(run.step(AgentEvent::Advance), AgentAction::Run { order: 0 });
    let first = ExecutionResult { order: 0, exit_status: None, succeeded: false };
    assert_eq!(run.step(AgentEvent::LaunchFailed), AgentAction::Report { result: first });
    assert_eq!(run.step(AgentEvent::Advance), AgentAction::Run { order: 1 });
    let second = ExecutionResult { order: 1, exit_status: None, succeeded: false };
    assert_eq!(run.step(AgentEvent::Killed), AgentAction::Report { result: second });
    assert_eq!(run.step(AgentEvent::Advance), AgentAction::Finish);
}

#[test]
fn unreadable_answer_aborts_the_run() {
    let mut run = AgentRun::new(extract_blocks(TWO_BLOCKS), false);
    assert_eq!(run.step(AgentEvent::Advance), AgentAction::Ask { order: 0 });
    assert_eq!(run.step(AgentEvent::AnswerFailed), AgentAction::Abort);
    assert_eq!(run.stage(), Stage::Aborted);
    assert_eq!(run.step(AgentEvent::Advance), AgentAction::Abort);
    assert!(run.results().is_empty());
}

#[test]
fn events_that_do_not_fit_are_rejected() {
    let mut run = AgentRun::new(extract_blocks(TWO_BLOCKS), false);
    assert_eq!(run.step(AgentEvent::Exited(0)), AgentAction::Rejected);
    assert_eq!(run.step(AgentEvent::Answer("y".to_string())), AgentAction::Rejected);
    assert_eq!(run.stage(), Stage::Offering);
    assert_eq!(run.step(AgentEvent::Advance), AgentAction::Ask { order: 0 });
    assert_eq!(run.step(AgentEvent::Advance), AgentAction::Rejected);
    assert_eq!(run.step(AgentEvent::Killed), AgentAction::Rejected);
    assert_eq!(run.step(AgentEvent::Answer("y".to_string())), AgentAction::Run { order: 0 });
    assert_eq!(run.step(AgentEvent::Answer("y".to_string())), AgentAction::Rejected);
    assert_eq!(run.step(AgentEvent::AnswerFailed), AgentAction::Rejected);
    assert_eq!(run.stage(), Stage::AwaitingExit);
}

#[test]
fn run_without_blocks_finishes_at_once() {
    let mut run = AgentRun::new(extract_blocks("no commands here"), false);
    assert_eq!(run.step(AgentEvent::Advance), AgentAction::Finish);
}

#[test]
fn pipeline_errors_have_their_messages() {
    assert_eq!(
        PipelineError::Decode { pending: 7 }.to_string(),
        "Decode error: the last 7 bytes of the stream are no valid frame"
    );
    assert_eq!(PipelineError::Stream("reset".to_string()).to_string(), "Stream error: reset");
    assert_eq!(PipelineError::Provider("no model".to_string()).to_string(), "Provider error: no model");
    assert_eq!(
        PipelineError::ApprovalIo("closed".to_string()).to_string(),
        "Approval input error: closed"
    );
    assert_eq!(
        PipelineError::Execution { order: 2 }.to_string(),
        "Execution error: command 2 failed"
    );
}

#[test]
fn only_decode_stream_and_approval_errors_end_the_run() {
    assert!(PipelineError::Decode { pending: 0 }.is_fatal());
    assert!(PipelineError::Stream(String::new()).is_fatal());
    assert!(PipelineError::ApprovalIo(String::new()).is_fatal());
    assert!(!PipelineError::Provider(String::new()).is_fatal());
    assert!(!PipelineError::Execution { order: 0 }.is_fatal());
}
