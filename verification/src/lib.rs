//! The core of a command-line assistant for a locally hosted text-generation
//! server.
//!
//! The assistant sends a prompt, shows the answer while it is generated and,
//! in agent mode, offers the shell commands of the answer for execution. This
//! library is the part of it that computes: it decodes the stream of the
//! server ([`decoder`], [`ollama`]), gathers the text ([`accumulator`]), finds
//! the commands ([`extract`]) and keeps the books of their approval and
//! execution ([`agent`]). It does no input or output; the program around it
//! reads, writes and runs, and tells the library what came of it.
//!
//! Beside the pipeline stand the model runtime ([`model`], [`runtime`],
//! [`error`]) and the pure part of the GitHub integration ([`github`]).

pub mod accumulator;
pub mod agent;
pub mod cli;
pub mod decoder;
pub mod error;
pub mod extract;
pub mod github;
pub mod json;
pub mod model;
pub mod ollama;
pub mod pipeline;
pub mod runtime;
pub mod text;

pub use error::RuntimeError;
pub use model::ModelProfile;
pub use runtime::ProviderConfig;
