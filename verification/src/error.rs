//! The errors of the model runtime.

use vstd::prelude::*;
use vstd::std_specs::convert::FromSpecImpl;
use crate::text::{append_decimal, concat, decimal};

verus! {

/// What can go wrong while a model is asked for a completion.
#[derive(Debug, Clone)]
pub enum RuntimeError {
    /// The provider does not have the model.
    ModelNotFound(String),
    /// Prompt and answer together do not fit the model's context window.
    ContextOverflow { model: String, tokens: usize, max_tokens: usize },
    /// The request took too long.
    Timeout { model: String, duration_secs: u64 },
    /// The provider could not be reached.
    ConnectionError(String),
    /// The provider answered with an error.
    ProviderError(String),
    /// A configuration value makes no sense.
    InvalidConfig(String),
    /// Reading or writing failed.
    IoError(String),
}

/// The mathematical value of a [`RuntimeError`].
pub enum RuntimeErrorView {
    ModelNotFound(Seq<char>),
    ContextOverflow { model: Seq<char>, tokens: nat, max_tokens: nat },
    Timeout { model: Seq<char>, duration_secs: nat },
    ConnectionError(Seq<char>),
    ProviderError(Seq<char>),
    InvalidConfig(Seq<char>),
    IoError(Seq<char>),
}

impl View for RuntimeError {
    type V = RuntimeErrorView;

    open spec fn view(&self) -> RuntimeErrorView {
        match self {
            RuntimeError::ModelNotFound(m) => RuntimeErrorView::ModelNotFound(m@),
            RuntimeError::ContextOverflow { model, tokens, max_tokens } => {
                RuntimeErrorView::ContextOverflow {
                    model: model@,
                    tokens: *tokens as nat,
                    max_tokens: *max_tokens as nat,
                }
            },
            RuntimeError::Timeout { model, duration_secs } => RuntimeErrorView::Timeout {
                model: model@,
                duration_secs: *duration_secs as nat,
            },
            RuntimeError::ConnectionError(m) => RuntimeErrorView::ConnectionError(m@),
            RuntimeError::ProviderError(m) => RuntimeErrorView::ProviderError(m@),
            RuntimeError::InvalidConfig(m) => RuntimeErrorView::InvalidConfig(m@),
            RuntimeError::IoError(m) => RuntimeErrorView::IoError(m@),
        }
    }
}

/// The message of an error, as it is shown to the user.
pub open spec fn runtime_error_text(e: RuntimeErrorView) -> Seq<char> {
    match e {
        RuntimeErrorView::ModelNotFound(m) => "Model not found: "@ + m,
        RuntimeErrorView::ContextOverflow { model, tokens, max_tokens } => {
            "Context overflow for model "@ + model + ": "@ + decimal(tokens) + " tokens > "@
                + decimal(max_tokens) + " max"@
        },
        RuntimeErrorView::Timeout { model, duration_secs } => {
            "Timeout for model "@ + model + " after "@ + decimal(duration_secs) + " seconds"@
        },
        RuntimeErrorView::ConnectionError(m) => "Connection error: "@ + m,
        RuntimeErrorView::ProviderError(m) => "Provider error: "@ + m,
        RuntimeErrorView::InvalidConfig(m) => "Invalid config: "@ + m,
        RuntimeErrorView::IoError(m) => "I/O error: "@ + m,
    }
}

impl RuntimeError {
    /// The message of the error, as it is shown to the user.
    pub fn to_string(&self) -> (s: String)
        ensures
            s@ == runtime_error_text(self@),
    {
        match self {
            RuntimeError::ModelNotFound(m) => concat("Model not found: ", m.as_str()),
            RuntimeError::ContextOverflow { model, tokens, max_tokens } => {
                let mut s = concat("Context overflow for model ", model.as_str());
                s.append(": ");
                append_decimal(&mut s, *tokens as u64);
                s.append(" tokens > ");
                append_decimal(&mut s, *max_tokens as u64);
                s.append(" max");
                s
            },
            RuntimeError::Timeout { model, duration_secs } => {
                let mut s = concat("Timeout for model ", model.as_str());
                s.append(" after ");
                append_decimal(&mut s, *duration_secs);
                s.append(" seconds");
                s
            },
            RuntimeError::ConnectionError(m) => concat("Connection error: ", m.as_str()),
            RuntimeError::ProviderError(m) => concat("Provider error: ", m.as_str()),
            RuntimeError::InvalidConfig(m) => concat("Invalid config: ", m.as_str()),
            RuntimeError::IoError(m) => concat("I/O error: ", m.as_str()),
        }
    }
}

/// `std::io::Error`, an error of the operating system or of a reader or
/// writer. The library carries it and looks at nothing in it.
#[verifier::external_type_specification]
#[verifier::external_body]
pub struct ExIoError(std::io::Error);

/// The message of an I/O error, as `std::io::Error`'s `Display` writes it.
/// For an error of the operating system the words are the system's own, so
/// nothing is said of them.
#[verifier::external_body]
pub(crate) fn io_error_text(err: &std::io::Error) -> (s: String) {
    err.to_string()
}

impl From<std::io::Error> for RuntimeError {
    /// An I/O error becomes `IoError` with the error's message.
    fn from(err: std::io::Error) -> (e: RuntimeError)
        ensures
            e is IoError,
    {
        RuntimeError::IoError(io_error_text(&err))
    }
}

impl FromSpecImpl<std::io::Error> for RuntimeError {
    open spec fn obeys_from_spec() -> bool {
        false
    }

    open spec fn from_spec(err: std::io::Error) -> RuntimeError {
        arbitrary()
    }
}

} // verus!
