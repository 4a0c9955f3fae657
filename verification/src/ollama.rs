//! The records of the generation stream and the frames they stand for.
//!
//! The server answers with one JSON object per line. Each object may hold a
//! text fragment under `response`, a completion flag under `done` and an
//! error message under `error`; a member that is absent takes its default.

use vstd::prelude::*;
use crate::json::{
    find_member, json_string, json_text, member_value, parse_json, quote_json, JsonText,
    JsonTextView, JsonValue, JsonValueView,
};

verus! {

/// One record of the generation stream.
pub struct OllamaResponse {
    /// The text fragment; empty where the record holds none.
    pub response: String,
    /// Whether the generation is complete.
    pub done: bool,
    /// The error that the server reports, if any.
    pub error: Option<String>,
}

/// The mathematical value of an [`OllamaResponse`].
pub struct OllamaResponseView {
    pub response: Seq<char>,
    pub done: bool,
    pub error: Option<Seq<char>>,
}

impl View for OllamaResponse {
    type V = OllamaResponseView;

    open spec fn view(&self) -> OllamaResponseView {
        OllamaResponseView {
            response: self.response@,
            done: self.done,
            error: match self.error {
                Some(e) => Some(e@),
                None => None,
            },
        }
    }
}

/// A decoded unit of the stream.
pub enum Frame {
    /// A fragment of the generated text, possibly empty.
    Text(String),
    /// The server has finished generating.
    Completion,
    /// The server reports an error.
    Error(String),
}

/// The mathematical value of a [`Frame`].
pub enum FrameView {
    Text(Seq<char>),
    Completion,
    Error(Seq<char>),
}

impl View for Frame {
    type V = FrameView;

    open spec fn view(&self) -> FrameView {
        match self {
            Frame::Text(s) => FrameView::Text(s@),
            Frame::Completion => FrameView::Completion,
            Frame::Error(s) => FrameView::Error(s@),
        }
    }
}

/// The mathematical values of a sequence of frames.
pub open spec fn frame_views(frames: Seq<Frame>) -> Seq<FrameView> {
    frames.map_values(|f: Frame| f@)
}

/// A string member: absent it is empty, and anything but a string is a
/// mismatch.
pub open spec fn text_member(v: Option<JsonValueView>) -> Option<Seq<char>> {
    match v {
        None => Some(Seq::<char>::empty()),
        Some(JsonValueView::Text(s)) => Some(s),
        Some(_) => None,
    }
}

/// A boolean member: absent it is false, and anything but a boolean is a
/// mismatch.
pub open spec fn flag_member(v: Option<JsonValueView>) -> Option<bool> {
    match v {
        None => Some(false),
        Some(JsonValueView::Bool(b)) => Some(b),
        Some(_) => None,
    }
}

/// An optional string member: absent or null it is nothing, and anything
/// else but a string is a mismatch.
pub open spec fn optional_text_member(v: Option<JsonValueView>) -> Option<Option<Seq<char>>> {
    match v {
        None => Some(None),
        Some(JsonValueView::Null) => Some(None),
        Some(JsonValueView::Text(s)) => Some(Some(s)),
        Some(_) => None,
    }
}

/// The record that a JSON text stands for, if it stands for one: the text
/// must be an object whose members `response`, `done` and `error`, where
/// present, are a string, a boolean, and a string or null.
pub open spec fn record_of(doc: JsonTextView) -> Option<OllamaResponseView> {
    match doc {
        JsonTextView::Object(members) => {
            let response = text_member(member_value(members, "response"@));
            let done = flag_member(member_value(members, "done"@));
            let error = optional_text_member(member_value(members, "error"@));
            if response is Some && done is Some && error is Some {
                Some(
                    OllamaResponseView {
                        response: response->0,
                        done: done->0,
                        error: error->0,
                    },
                )
            } else {
                None
            }
        },
        _ => None,
    }
}

/// The record that a line of the stream stands for, if it stands for one.
pub open spec fn decode_line(line: Seq<u8>) -> Option<OllamaResponseView> {
    record_of(json_text(line))
}

/// Whether a record reports an error: its message is there and not empty.
pub open spec fn reports_error(r: OllamaResponseView) -> bool {
    r.error is Some && r.error->0.len() > 0
}

/// Whether a record ends the generation phase.
pub open spec fn is_terminal(r: OllamaResponseView) -> bool {
    reports_error(r) || r.done
}

/// The frames of a record: an error frame where it reports an error; else
/// its text fragment, followed by a completion frame where it is done.
pub open spec fn frames_of(r: OllamaResponseView) -> Seq<FrameView> {
    if reports_error(r) {
        seq![FrameView::Error(r.error->0)]
    } else if r.done {
        seq![FrameView::Text(r.response), FrameView::Completion]
    } else {
        seq![FrameView::Text(r.response)]
    }
}

impl OllamaResponse {
    /// Reads a record off the outline of a JSON text.
    pub fn from_json(doc: &JsonText) -> (r: Option<OllamaResponse>)
        ensures
            match r {
                Some(rec) => record_of(doc@) == Some(rec@),
                None => record_of(doc@) is None,
            },
    {
        match doc {
            JsonText::Object(members) => {
                let response = match find_member(members, "response") {
                    None => String::new(),
                    Some(JsonValue::Text(s)) => s.clone(),
                    Some(_) => {
                        return None;
                    },
                };
                let done = match find_member(members, "done") {
                    None => false,
                    Some(JsonValue::Bool(b)) => *b,
                    Some(_) => {
                        return None;
                    },
                };
                let error = match find_member(members, "error") {
                    None => None,
                    Some(JsonValue::Null) => None,
                    Some(JsonValue::Text(s)) => Some(s.clone()),
                    Some(_) => {
                        return None;
                    },
                };
                Some(OllamaResponse { response, done, error })
            },
            _ => None,
        }
    }

    /// Decodes one line of the stream.
    pub fn decode(line: &[u8]) -> (r: Option<OllamaResponse>)
        ensures
            match r {
                Some(rec) => decode_line(line@) == Some(rec@),
                None => decode_line(line@) is None,
            },
    {
        let doc = parse_json(line);
        OllamaResponse::from_json(&doc)
    }

    /// Whether the record ends the generation phase.
    pub fn is_terminal(&self) -> (b: bool)
        ensures
            b == is_terminal(self@),
    {
        self.done || self.has_error()
    }

    /// Whether the record reports an error.
    pub fn has_error(&self) -> (b: bool)
        ensures
            b == reports_error(self@),
    {
        match &self.error {
            Some(e) => !e.as_str().is_empty(),
            None => false,
        }
    }

    /// Turns the record into its frames, appended to `frames`.
    pub fn into_frames(self, frames: &mut Vec<Frame>)
        ensures
            frame_views(final(frames)@) == frame_views(old(frames)@) + frames_of(self@),
    {
        let ghost before = frame_views(frames@);
        if self.has_error() {
            match self.error {
                Some(message) => {
                    frames.push(Frame::Error(message));
                },
                None => {},
            }
        } else {
            frames.push(Frame::Text(self.response));
            if self.done {
                frames.push(Frame::Completion);
            }
        }
        assert(frame_views(frames@) =~= before + frames_of(self@));
    }
}

/// The address of the generation endpoint of the server at `host`.
pub fn generate_url(host: &str) -> (url: String)
    ensures
        url@ == host@ + "/api/generate"@,
{
    let mut url = String::new();
    url.append(host);
    url.append("/api/generate");
    assert(url@ =~= host@ + "/api/generate"@);
    url
}

/// The body of a generation request: a JSON object that names the model and
/// the prompt and asks for a streamed answer.
pub open spec fn request_body(model: Seq<char>, prompt: Seq<char>) -> Seq<char> {
    "{\"model\":"@ + json_string(model) + ",\"prompt\":"@ + json_string(prompt)
        + ",\"stream\":true}"@
}

/// Writes the body of a generation request.
pub fn generate_request_body(model: &str, prompt: &str) -> (body: String)
    ensures
        body@ == request_body(model@, prompt@),
{
    let mut body = "{\"model\":".to_owned();
    body.append(quote_json(model).as_str());
    body.append(",\"prompt\":");
    body.append(quote_json(prompt).as_str());
    body.append(",\"stream\":true}");
    body
}

} // verus!
