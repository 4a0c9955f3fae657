//! The errors of a pipeline run, and which of them end it.

use vstd::prelude::*;
use crate::text::{append_decimal, concat, decimal};

verus! {

/// What can go wrong between the request and the last command.
#[derive(Debug)]
pub enum PipelineError {
    /// The end of the body decodes as no record; the number of bytes left.
    Decode { pending: usize },
    /// Reading the body failed.
    Stream(String),
    /// The server reported an error.
    Provider(String),
    /// The user's answer could not be read.
    ApprovalIo(String),
    /// A command failed or could not be started; the order of its block.
    Execution { order: usize },
}

/// The mathematical value of a [`PipelineError`].
pub enum PipelineErrorView {
    Decode { pending: nat },
    Stream(Seq<char>),
    Provider(Seq<char>),
    ApprovalIo(Seq<char>),
    Execution { order: nat },
}

impl View for PipelineError {
    type V = PipelineErrorView;

    open spec fn view(&self) -> PipelineErrorView {
        match self {
            PipelineError::Decode { pending } => PipelineErrorView::Decode {
                pending: *pending as nat,
            },
            PipelineError::Stream(m) => PipelineErrorView::Stream(m@),
            PipelineError::Provider(m) => PipelineErrorView::Provider(m@),
            PipelineError::ApprovalIo(m) => PipelineErrorView::ApprovalIo(m@),
            PipelineError::Execution { order } => PipelineErrorView::Execution {
                order: *order as nat,
            },
        }
    }
}

/// Whether an error ends the run: one of decoding, of the stream or of the
/// approval does; one of the provider ends the generation phase only, and
/// one of a command is local to its block.
pub open spec fn ends_run(e: PipelineErrorView) -> bool {
    e is Decode || e is Stream || e is ApprovalIo
}

/// The message of an error, as it is shown to the user.
pub open spec fn pipeline_error_text(e: PipelineErrorView) -> Seq<char> {
    match e {
        PipelineErrorView::Decode { pending } => "Decode error: the last "@ + decimal(pending)
            + " bytes of the stream are no valid frame"@,
        PipelineErrorView::Stream(m) => "Stream error: "@ + m,
        PipelineErrorView::Provider(m) => "Provider error: "@ + m,
        PipelineErrorView::ApprovalIo(m) => "Approval input error: "@ + m,
        PipelineErrorView::Execution { order } => "Execution error: command "@ + decimal(order)
            + " failed"@,
    }
}

impl PipelineError {
    /// Whether the error ends the run.
    pub fn is_fatal(&self) -> (b: bool)
        ensures
            b == ends_run(self@),
    {
        match self {
            PipelineError::Decode { .. } => true,
            PipelineError::Stream(_) => true,
            PipelineError::ApprovalIo(_) => true,
            PipelineError::Provider(_) => false,
            PipelineError::Execution { .. } => false,
        }
    }

    /// The message of the error, as it is shown to the user.
    pub fn to_string(&self) -> (s: String)
        ensures
            s@ == pipeline_error_text(self@),
    {
        match self {
            PipelineError::Decode { pending } => {
                let mut s = "Decode error: the last ".to_owned();
                append_decimal(&mut s, *pending as u64);
                s.append(" bytes of the stream are no valid frame");
                s
            },
            PipelineError::Stream(m) => concat("Stream error: ", m.as_str()),
            PipelineError::Provider(m) => concat("Provider error: ", m.as_str()),
            PipelineError::ApprovalIo(m) => concat("Approval input error: ", m.as_str()),
            PipelineError::Execution { order } => {
                let mut s = "Execution error: command ".to_owned();
                append_decimal(&mut s, *order as u64);
                s.append(" failed");
                s
            },
        }
    }
}

} // verus!
