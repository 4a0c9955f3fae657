//! What the command line says, and what follows from it.

use vstd::prelude::*;

verus! {

/// The arguments of the command line.
#[derive(Debug, Clone)]
pub struct Args {
    /// The coding prompt or question.
    pub prompt: String,
    /// The model to use.
    pub model: String,
    /// The address of the server, where it was given.
    pub host: Option<String>,
    /// Whether commands of the answer are to be run.
    pub agent: bool,
    /// Whether commands are approved without a question.
    pub yes: bool,
}

/// The model that is used where none is named.
pub fn default_model() -> (model: &'static str)
    ensures
        model@ == "qwen2.5-coder"@,
{
    "qwen2.5-coder"
}

/// The address of the server: the one of the command line, else the one of
/// the environment, else the local server.
pub open spec fn host_of(flag: Option<Seq<char>>, environment: Option<Seq<char>>) -> Seq<char> {
    match flag {
        Some(host) => host,
        None => match environment {
            Some(host) => host,
            None => "http://localhost:11434"@,
        },
    }
}

/// The text of a string that may be missing.
pub open spec fn optional_text(s: Option<String>) -> Option<Seq<char>> {
    match s {
        Some(s) => Some(s@),
        None => None,
    }
}

/// Picks the address of the server.
pub fn resolve_host(flag: Option<String>, environment: Option<String>) -> (host: String)
    ensures
        host@ == host_of(optional_text(flag), optional_text(environment)),
{
    match flag {
        Some(host) => host,
        None => match environment {
            Some(host) => host,
            None => "http://localhost:11434".to_owned(),
        },
    }
}

/// The name of the mode: `AGENT` where commands are to be run, else `CHAT`.
pub fn mode_name(agent: bool) -> (name: &'static str)
    ensures
        name@ == (if agent {
            "AGENT"@
        } else {
            "CHAT"@
        }),
{
    if agent {
        "AGENT"
    } else {
        "CHAT"
    }
}

} // verus!
