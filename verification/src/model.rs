//! Model profiles: the name and the limits of a language model, and the
//! sampling parameters that go with it.

use vstd::prelude::*;
use crate::error::{RuntimeError, RuntimeErrorView};

verus! {

/// The bit pattern of the default sampling temperature, seven tenths.
pub const DEFAULT_TEMPERATURE_BITS: u32 = 0x3F33_3333;

/// The bit pattern of the default nucleus sampling parameter, nine tenths.
pub const DEFAULT_TOP_P_BITS: u32 = 0x3F66_6666;

/// Configuration profile for a language model.
///
/// The two real-valued sampling parameters are carried as the bit patterns of
/// IEEE 754 single-precision numbers. The library hands them through and does
/// not compute with them.
#[derive(Debug, Clone)]
pub struct ModelProfile {
    /// Model identifier, such as `qwen2.5-coder:7b`.
    pub name: String,
    /// Context window size in tokens.
    pub context_window: usize,
    /// Maximum number of tokens to generate.
    pub max_tokens: usize,
    /// Sampling temperature, as a bit pattern.
    pub temperature_bits: u32,
    /// Nucleus sampling parameter, as a bit pattern.
    pub top_p_bits: u32,
    /// Top-k sampling parameter.
    pub top_k: i32,
    /// Number of tokens to keep from the chat history.
    pub num_keep: i32,
}

/// The mathematical value of a [`ModelProfile`].
pub struct ModelProfileView {
    pub name: Seq<char>,
    pub context_window: nat,
    pub max_tokens: nat,
    pub temperature_bits: u32,
    pub top_p_bits: u32,
    pub top_k: int,
    pub num_keep: int,
}

impl View for ModelProfile {
    type V = ModelProfileView;

    open spec fn view(&self) -> ModelProfileView {
        ModelProfileView {
            name: self.name@,
            context_window: self.context_window as nat,
            max_tokens: self.max_tokens as nat,
            temperature_bits: self.temperature_bits,
            top_p_bits: self.top_p_bits,
            top_k: self.top_k as int,
            num_keep: self.num_keep as int,
        }
    }
}

/// What is wrong with a profile, if anything: the message of the first rule
/// that it breaks. The rules, in order: the name is not empty; the context
/// window is not zero; the token limit is not zero; the token limit is within
/// the context window.
pub open spec fn profile_fault(p: ModelProfileView) -> Option<Seq<char>> {
    if p.name.len() == 0 {
        Some("Model name cannot be empty"@)
    } else if p.context_window == 0 {
        Some("Context window must be > 0"@)
    } else if p.max_tokens == 0 {
        Some("Max tokens must be > 0"@)
    } else if p.max_tokens > p.context_window {
        Some("Max tokens cannot exceed context window"@)
    } else {
        None
    }
}

/// An `InvalidConfig` error with the given message.
fn invalid_config(message: &str) -> (e: RuntimeError)
    ensures
        e@ == RuntimeErrorView::InvalidConfig(message@),
{
    RuntimeError::InvalidConfig(message.to_owned())
}

impl ModelProfile {
    /// A profile with the given name and limits and the default sampling
    /// parameters.
    pub fn new(name: &str, context_window: usize, max_tokens: usize) -> (p: ModelProfile)
        ensures
            p@ == (ModelProfileView {
                name: name@,
                context_window: context_window as nat,
                max_tokens: max_tokens as nat,
                temperature_bits: DEFAULT_TEMPERATURE_BITS,
                top_p_bits: DEFAULT_TOP_P_BITS,
                top_k: 40,
                num_keep: 4,
            }),
    {
        ModelProfile {
            name: name.to_owned(),
            context_window,
            max_tokens,
            temperature_bits: DEFAULT_TEMPERATURE_BITS,
            top_p_bits: DEFAULT_TOP_P_BITS,
            top_k: 40,
            num_keep: 4,
        }
    }

    /// Checks that the profile makes sense.
    pub fn validate(&self) -> (r: Result<(), RuntimeError>)
        ensures
            match r {
                Ok(_) => profile_fault(self@) is None,
                Err(e) => profile_fault(self@) == Some(e@->InvalidConfig_0) && e is InvalidConfig,
            },
    {
        if self.name.as_str().is_empty() {
            return Err(invalid_config("Model name cannot be empty"));
        }
        if self.context_window == 0 {
            return Err(invalid_config("Context window must be > 0"));
        }
        if self.max_tokens == 0 {
            return Err(invalid_config("Max tokens must be > 0"));
        }
        if self.max_tokens > self.context_window {
            return Err(invalid_config("Max tokens cannot exceed context window"));
        }
        Ok(())
    }
}

} // verus!
