//! The response accumulator: folds frames into the text of the response and
//! says what to show of each frame as it arrives.
//!
//! The accumulator does no output of its own. For each frame it hands back
//! an action, which the caller carries out before it asks for the next frame.
//! A text fragment is appended and echoed. A completion frame ends the
//! generation phase with the text as it stands. An error frame ends it with
//! the server's message, and the text gathered so far is discarded: a
//! response that broke off is not searched for commands.

use vstd::prelude::*;
use crate::decoder::response_text;
use crate::ollama::{Frame, FrameView};

verus! {

/// Where the generation phase stands.
#[derive(Clone, Copy, Debug, PartialEq, Eq, Structural)]
pub enum Phase {
    /// Frames are still expected.
    Generating,
    /// The response is complete.
    Completed,
    /// The server reported an error.
    Failed,
}

/// What the caller is to do with a frame.
pub enum Echo {
    /// Write the fragment to the output at once.
    Write(String),
    /// The response is complete: end the generation phase.
    Complete,
    /// Report the server's error and end the generation phase.
    Report(String),
    /// The generation phase was over already: the frame is dropped.
    Nothing,
}

/// The mathematical value of an [`Echo`].
pub enum EchoView {
    Write(Seq<char>),
    Complete,
    Report(Seq<char>),
    Nothing,
}

impl View for Echo {
    type V = EchoView;

    open spec fn view(&self) -> EchoView {
        match self {
            Echo::Write(s) => EchoView::Write(s@),
            Echo::Complete => EchoView::Complete,
            Echo::Report(s) => EchoView::Report(s@),
            Echo::Nothing => EchoView::Nothing,
        }
    }
}

/// The state of an accumulator between two frames.
pub struct Accumulated {
    /// The text gathered so far.
    pub text: Seq<char>,
    pub phase: Phase,
}

/// The state after `frame` has arrived in `state`, and what to show of it.
pub open spec fn accept_spec(state: Accumulated, frame: FrameView) -> (Accumulated, EchoView) {
    if state.phase != Phase::Generating {
        (state, EchoView::Nothing)
    } else {
        match frame {
            FrameView::Text(s) => (
                Accumulated { text: state.text + s, phase: Phase::Generating },
                EchoView::Write(s),
            ),
            FrameView::Completion => (
                Accumulated { text: state.text, phase: Phase::Completed },
                EchoView::Complete,
            ),
            FrameView::Error(message) => (
                Accumulated { text: Seq::<char>::empty(), phase: Phase::Failed },
                EchoView::Report(message),
            ),
        }
    }
}

/// The state after the frames of `frames` have arrived one after the other.
pub open spec fn accept_all(state: Accumulated, frames: Seq<FrameView>) -> Accumulated
    decreases frames.len(),
{
    if frames.len() == 0 {
        state
    } else {
        accept_spec(accept_all(state, frames.drop_last()), frames.last()).0
    }
}

/// The response accumulator.
pub struct ResponseAccumulator {
    text: String,
    phase: Phase,
}

impl View for ResponseAccumulator {
    type V = Accumulated;

    closed spec fn view(&self) -> Accumulated {
        Accumulated { text: self.text@, phase: self.phase }
    }
}

impl ResponseAccumulator {
    /// An accumulator that has seen no frame.
    pub fn new() -> (a: ResponseAccumulator)
        ensures
            a@ == (Accumulated { text: Seq::<char>::empty(), phase: Phase::Generating }),
    {
        ResponseAccumulator { text: String::new(), phase: Phase::Generating }
    }

    /// Where the generation phase stands.
    pub fn phase(&self) -> (p: Phase)
        ensures
            p == self@.phase,
    {
        self.phase
    }

    /// The text gathered so far.
    pub fn text(&self) -> (s: &str)
        ensures
            s@ == self@.text,
    {
        self.text.as_str()
    }

    /// Takes in the next frame and says what to show of it.
    pub fn accept(&mut self, frame: Frame) -> (echo: Echo)
        ensures
            (final(self)@, echo@) == accept_spec(old(self)@, frame@),
    {
        match self.phase {
            Phase::Generating => {},
            _ => {
                return Echo::Nothing;
            },
        }
        match frame {
            Frame::Text(s) => {
                self.text.append(s.as_str());
                Echo::Write(s)
            },
            Frame::Completion => {
                self.phase = Phase::Completed;
                Echo::Complete
            },
            Frame::Error(message) => {
                self.text = String::new();
                self.phase = Phase::Failed;
                Echo::Report(message)
            },
        }
    }

    /// The body has ended: a generation phase that is still open ends here
    /// with the text as it stands.
    pub fn end_of_stream(&mut self)
        ensures
            final(self)@.text == old(self)@.text,
            final(self)@.phase == (if old(self)@.phase == Phase::Generating {
                Phase::Completed
            } else {
                old(self)@.phase
            }),
    {
        match self.phase {
            Phase::Generating => {
                self.phase = Phase::Completed;
            },
            _ => {},
        }
    }

    /// The finished response, to be searched for commands: the text where the
    /// generation phase has completed, and nothing while it is open or where
    /// it failed.
    pub fn into_response(self) -> (r: Option<String>)
        ensures
            match r {
                Some(text) => self@.phase == Phase::Completed && text@ == self@.text,
                None => self@.phase != Phase::Completed,
            },
    {
        match self.phase {
            Phase::Completed => Some(self.text),
            _ => None,
        }
    }
}

/// While no frame ends the generation phase, the text gathered is the text
/// fragments of the frames, one behind the other, in the order of arrival.
pub proof fn accumulated_text_is_response_text(frames: Seq<FrameView>)
    requires
        forall|i: int| 0 <= i < frames.len() ==> #[trigger] frames[i] is Text,
    ensures
        accept_all(
            Accumulated { text: Seq::<char>::empty(), phase: Phase::Generating },
            frames,
        ) == (Accumulated {
            text: response_text(frames),
            phase: Phase::Generating,
        }),
    decreases frames.len(),
{
    if frames.len() > 0 {
        let front = frames.drop_last();
        assert forall|i: int| 0 <= i < front.len() implies #[trigger] front[i] is Text by {
            assert(front[i] == frames[i]);
        }
        accumulated_text_is_response_text(front);
        assert(frames.last() == frames[frames.len() - 1]);
    }
}

} // verus!
