//! Requests to a model provider, their validation, and a provider that
//! answers from memory.

use vstd::prelude::*;
use vstd::utf8::encode_utf8;
use crate::error::{RuntimeError, RuntimeErrorView};
use crate::model::{profile_fault, ModelProfile, ModelProfileView};
use crate::text::{
    first_token_range, is_space, leading_word, lemma_leading_word_is_take, push_char,
    string_from_range, to_chars,
};

verus! {

/// Configuration for a provider backend.
#[derive(Debug, Clone)]
pub struct ProviderConfig {
    /// Provider type, such as `ollama`.
    pub provider: String,
    /// Base address of the provider.
    pub endpoint: String,
    /// Request timeout in seconds.
    pub timeout_secs: u64,
    /// Maximum number of retries on transient failures.
    pub max_retries: u32,
}

impl Default for ProviderConfig {
    /// A local Ollama server with a timeout of five minutes and three
    /// retries.
    fn default() -> (c: ProviderConfig)
        ensures
            c.provider@ == "ollama"@,
            c.endpoint@ == "http://localhost:11434"@,
            c.timeout_secs == 300,
            c.max_retries == 3,
    {
        ProviderConfig {
            provider: "ollama".to_owned(),
            endpoint: "http://localhost:11434".to_owned(),
            timeout_secs: 300,
            max_retries: 3,
        }
    }
}

/// Request to generate a completion.
#[derive(Debug, Clone)]
pub struct CompletionRequest {
    /// The input prompt.
    pub prompt: String,
    /// Whether to stream the response.
    pub stream: bool,
    /// The model profile to use.
    pub model: ModelProfile,
}

/// The number of tokens that a request may take up: a quarter of the
/// prompt's length in bytes, rounded down, and the profile's token limit.
pub open spec fn estimated_tokens(prompt: Seq<char>, model: ModelProfileView) -> nat {
    encode_utf8(prompt).len() / 4 + model.max_tokens
}

/// What is wrong with a request, if anything: a fault of its profile, or an
/// estimate above the context window. The estimate is reported as it is, or
/// as the largest machine integer where it is larger than that.
pub open spec fn request_fault(prompt: Seq<char>, model: ModelProfileView) -> Option<
    RuntimeErrorView,
> {
    if profile_fault(model) is Some {
        Some(RuntimeErrorView::InvalidConfig(profile_fault(model)->0))
    } else if estimated_tokens(prompt, model) > model.context_window {
        Some(
            RuntimeErrorView::ContextOverflow {
                model: model.name,
                tokens: if estimated_tokens(prompt, model) <= usize::MAX {
                    estimated_tokens(prompt, model)
                } else {
                    usize::MAX as nat
                },
                max_tokens: model.context_window,
            },
        )
    } else {
        None
    }
}

impl CompletionRequest {
    /// A streaming request for `prompt` with the given profile.
    pub fn new(prompt: &str, model: ModelProfile) -> (r: CompletionRequest)
        ensures
            r.prompt@ == prompt@,
            r.stream,
            r.model == model,
    {
        CompletionRequest { prompt: prompt.to_owned(), stream: true, model }
    }

    /// Checks the request against the limits of its profile.
    pub fn validate(&self) -> (r: Result<(), RuntimeError>)
        ensures
            match r {
                Ok(_) => request_fault(self.prompt@, self.model@) is None,
                Err(e) => request_fault(self.prompt@, self.model@) == Some(e@),
            },
    {
        match self.model.validate() {
            Err(e) => {
                return Err(e);
            },
            Ok(_) => {},
        }
        let quarter = self.prompt.as_str().as_bytes().len() / 4;
        if quarter > self.model.context_window - self.model.max_tokens {
            let tokens = match quarter.checked_add(self.model.max_tokens) {
                Some(sum) => sum,
                None => usize::MAX,
            };
            return Err(
                RuntimeError::ContextOverflow {
                    model: self.model.name.clone(),
                    tokens,
                    max_tokens: self.model.context_window,
                },
            );
        }
        Ok(())
    }

    /// Builds the request for `prompt` and checks it: the request where it is
    /// sound, and else what is wrong with it.
    pub fn prepare(prompt: &str, model: ModelProfile) -> (r: Result<CompletionRequest, RuntimeError>)
        ensures
            match r {
                Ok(request) => request_fault(prompt@, model@) is None && request.prompt@
                    == prompt@ && request.stream && request.model == model,
                Err(e) => request_fault(prompt@, model@) == Some(e@),
            },
    {
        let request = CompletionRequest::new(prompt, model);
        match request.validate() {
            Err(e) => Err(e),
            Ok(_) => Ok(request),
        }
    }
}

/// Metadata about a completion response.
#[derive(Debug, Clone)]
pub struct ResponseMetadata {
    /// Estimated number of tokens in the prompt.
    pub prompt_tokens: Option<usize>,
    /// Number of tokens generated.
    pub completion_tokens: Option<usize>,
    /// The model that generated the response.
    pub model: Option<String>,
}

impl Default for ResponseMetadata {
    /// Metadata that says nothing.
    fn default() -> (m: ResponseMetadata)
        ensures
            m.prompt_tokens is None,
            m.completion_tokens is None,
            m.model is None,
    {
        ResponseMetadata { prompt_tokens: None, completion_tokens: None, model: None }
    }
}

/// Response from a provider.
#[derive(Debug, Clone)]
pub struct CompletionResponse {
    /// The generated text.
    pub text: String,
    /// Whether the generation is complete.
    pub done: bool,
    /// Metadata about the generation.
    pub metadata: ResponseMetadata,
}

/// The words of `s`: its maximal runs of characters that are not white
/// space, in order.
pub open spec fn words(s: Seq<char>) -> Seq<Seq<char>>
    decreases s.len(),
{
    if s.len() == 0 {
        Seq::<Seq<char>>::empty()
    } else if is_space(s[0]) {
        words(s.skip(1))
    } else {
        let w = leading_word(s);
        if 0 < w.len() <= s.len() {
            seq![w] + words(s.skip(w.len() as int))
        } else {
            Seq::<Seq<char>>::empty()
        }
    }
}

/// The tokens that a response is streamed as: its words, each followed by a
/// space.
pub open spec fn stream_tokens(s: Seq<char>) -> Seq<Seq<char>> {
    words(s).map_values(|w: Seq<char>| w.push(' '))
}

/// The texts of a sequence of strings.
pub open spec fn string_views(v: Seq<String>) -> Seq<Seq<char>> {
    v.map_values(|s: String| s@)
}

/// A provider that answers every request with the same text. It stands in
/// for a server where none is at hand.
pub struct MockProvider {
    models: Vec<String>,
    response: String,
    should_error: bool,
}

impl MockProvider {
    /// The names of the models that the provider has.
    pub closed spec fn models(&self) -> Set<Seq<char>> {
        string_views(self.models@).to_set()
    }

    /// The text that the provider answers with.
    pub closed spec fn response(&self) -> Seq<char> {
        self.response@
    }

    /// Whether the provider fails every request.
    pub closed spec fn fails(&self) -> bool {
        self.should_error
    }

    /// A provider that has the one model `test-model` and answers with
    /// `response`.
    pub fn new(response: &str) -> (p: MockProvider)
        ensures
            p.models() == set!["test-model"@],
            p.response() == response@,
            !p.fails(),
    {
        let mut models: Vec<String> = Vec::new();
        models.push("test-model".to_owned());
        proof {
            assert(string_views(models@) =~= seq!["test-model"@]);
            assert(seq!["test-model"@].to_set() =~= set!["test-model"@]) by {
                assert(seq!["test-model"@][0] == "test-model"@);
            }
        }
        MockProvider { models, response: response.to_owned(), should_error: false }
    }

    /// The same provider with `models` in place of its models.
    pub fn with_models(self, models: Vec<String>) -> (p: MockProvider)
        ensures
            p.models() == string_views(models@).to_set(),
            p.response() == self.response(),
            p.fails() == self.fails(),
    {
        MockProvider { models, response: self.response, should_error: self.should_error }
    }

    /// The same provider, failing every request from now on.
    pub fn with_error(self) -> (p: MockProvider)
        ensures
            p.models() == self.models(),
            p.response() == self.response(),
            p.fails(),
    {
        MockProvider { models: self.models, response: self.response, should_error: true }
    }

    /// The name of the provider.
    pub fn name(&self) -> (n: &'static str)
        ensures
            n@ == "mock"@,
    {
        "mock"
    }

    /// Whether the provider has the model. A failing provider answers with a
    /// connection error.
    pub fn has_model(&self, model: &str) -> (r: Result<bool, RuntimeError>)
        ensures
            match r {
                Ok(b) => !self.fails() && b == self.models().contains(model@),
                Err(e) => self.fails() && e@ == RuntimeErrorView::ConnectionError("mock error"@),
            },
    {
        if self.should_error {
            return Err(RuntimeError::ConnectionError("mock error".to_owned()));
        }
        let wanted = model.to_owned();
        let ghost names = string_views(self.models@);
        let mut i: usize = 0;
        while i < self.models.len()
            invariant
                i <= self.models.len(),
                !self.should_error,
                wanted@ == model@,
                names == string_views(self.models@),
                forall|k: int| 0 <= k < i ==> names[k] != model@,
            decreases self.models.len() - i,
        {
            if self.models[i] == wanted {
                assert(names[i as int] == model@);
                assert(names.contains(model@));
                return Ok(true);
            }
            i += 1;
        }
        assert(!names.contains(model@));
        Ok(false)
    }

    /// The whole response at once. A failing provider answers with a
    /// provider error.
    pub fn generate(&self, request: &CompletionRequest) -> (r: Result<CompletionResponse, RuntimeError>)
        ensures
            match r {
                Ok(response) => !self.fails() && response.text@ == self.response() && response.done
                    && response.metadata.prompt_tokens is None
                    && response.metadata.completion_tokens is None
                    && response.metadata.model is None,
                Err(e) => self.fails() && e@ == RuntimeErrorView::ProviderError("mock error"@),
            },
    {
        if self.should_error {
            return Err(RuntimeError::ProviderError("mock error".to_owned()));
        }
        Ok(
            CompletionResponse {
                text: self.response.clone(),
                done: true,
                metadata: ResponseMetadata::default(),
            },
        )
    }

    /// The response as the tokens of a stream: its words, each followed by a
    /// space. A failing provider answers with a provider error.
    pub fn generate_stream(&self, request: &CompletionRequest) -> (r: Result<
        Vec<String>,
        RuntimeError,
    >)
        ensures
            match r {
                Ok(tokens) => !self.fails() && string_views(tokens@) == stream_tokens(
                    self.response(),
                ),
                Err(e) => self.fails() && e@ == RuntimeErrorView::ProviderError("mock error"@),
            },
    {
        if self.should_error {
            return Err(RuntimeError::ProviderError("mock error".to_owned()));
        }
        let chars = to_chars(self.response.as_str());
        let n = chars.len();
        let mut tokens: Vec<String> = Vec::new();
        let mut pos: usize = 0;
        proof {
            assert(chars@.skip(0) =~= chars@);
            assert(string_views(tokens@) =~= Seq::<Seq<char>>::empty());
            assert(Seq::<Seq<char>>::empty() + stream_tokens(chars@) =~= stream_tokens(chars@));
        }
        while pos < n
            invariant
                n == chars.len(),
                pos <= n,
                stream_tokens(chars@) == string_views(tokens@) + stream_tokens(
                    chars@.skip(pos as int),
                ),
            decreases n - pos,
        {
            let (a, e) = first_token_range(&chars, pos, n);
            proof {
                lemma_words_after_token(chars@, pos as int, a as int, e as int);
            }
            if e > a {
                let ghost before = string_views(tokens@);
                let mut token = string_from_range(&chars, a, e);
                push_char(&mut token, ' ');
                tokens.push(token);
                proof {
                    let w = chars@.subrange(a as int, e as int);
                    assert(string_views(tokens@) =~= before.push(w.push(' ')));
                    let rest = words(chars@.skip(e as int));
                    assert((seq![w] + rest).map_values(|w: Seq<char>| w.push(' ')) =~= seq![
                        w.push(' '),
                    ] + rest.map_values(|w: Seq<char>| w.push(' ')));
                    assert(before + (seq![w.push(' ')] + stream_tokens(chars@.skip(e as int)))
                        =~= before.push(w.push(' ')) + stream_tokens(chars@.skip(e as int)));
                }
            }
            pos = if e > a { e } else { n };
        }
        proof {
            assert(chars@.skip(n as int).len() == 0);
            assert(string_views(tokens@) + Seq::<Seq<char>>::empty() =~= string_views(tokens@));
        }
        Ok(tokens)
    }
}

/// White space before a word adds no word.
proof fn lemma_words_skip_spaces(s: Seq<char>, pos: int, a: int)
    requires
        0 <= pos <= a <= s.len(),
        forall|k: int| pos <= k < a ==> is_space(s[k]),
    ensures
        words(s.skip(pos)) == words(s.skip(a)),
    decreases a - pos,
{
    if pos < a {
        let t = s.skip(pos);
        assert(t[0] == s[pos]);
        assert(t.skip(1) =~= s.skip(pos + 1));
        lemma_words_skip_spaces(s, pos + 1, a);
    }
}

/// The words of `s` from `pos` on, given where its first token from there
/// stands: the token and the words behind it, or none where no token is left.
proof fn lemma_words_after_token(s: Seq<char>, pos: int, a: int, e: int)
    requires
        0 <= pos <= a <= e <= s.len(),
        forall|k: int| pos <= k < a ==> is_space(s[k]),
        forall|k: int| a <= k < e ==> !is_space(s[k]),
        e < s.len() ==> is_space(s[e]),
        a < s.len() ==> a < e,
    ensures
        e > a ==> words(s.skip(pos)) == seq![s.subrange(a, e)] + words(s.skip(e)),
        e == a ==> words(s.skip(pos)) == Seq::<Seq<char>>::empty(),
{
    lemma_words_skip_spaces(s, pos, a);
    let t = s.skip(a);
    if e > a {
        assert(t[0] == s[a]);
        assert forall|k: int| 0 <= k < e - a implies !is_space(t[k]) by {
            assert(t[k] == s[a + k]);
        }
        if e < s.len() {
            assert(t[e - a] == s[e]);
        }
        lemma_leading_word_is_take(t, e - a);
        assert(t.take(e - a) =~= s.subrange(a, e));
        assert(t.skip(e - a) =~= s.skip(e));
    }
}

} // verus!
