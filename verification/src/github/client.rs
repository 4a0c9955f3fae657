//! What a GitHub client computes: the token it uses, the addresses it asks,
//! and what it makes of an answer. Sending and receiving is not done here.

use vstd::prelude::*;
use vstd::utf8::{decode_utf8, valid_utf8};
use crate::github::errors::{GitHubError, GitHubErrorView};
use crate::text::{append_decimal, concat, contains_text, decimal, to_chars, vec_contains};

verus! {

/// The address of the GitHub API.
pub open spec fn api_base() -> Seq<char> {
    "https://api.github.com"@
}

/// The address of the GitHub API.
pub fn base_url() -> (s: String)
    ensures
        s@ == api_base(),
{
    "https://api.github.com".to_owned()
}

/// Picks the token to use: the one given, else the one of the environment.
/// Without either there is no client.
pub fn resolve_token(token: Option<String>, environment: Option<String>) -> (r: Result<
    String,
    GitHubError,
>)
    ensures
        match r {
            Ok(t) => (token is Some && t == token->0) || (token is None && environment is Some
                && t == environment->0),
            Err(e) => token is None && environment is None && e@
                == GitHubErrorView::AuthenticationError,
        },
{
    match token {
        Some(t) => Ok(t),
        None => match environment {
            Some(t) => Ok(t),
            None => Err(GitHubError::AuthenticationError),
        },
    }
}

/// The value of the `Authorization` header for a personal or installation
/// token.
pub fn token_header(token: &str) -> (s: String)
    ensures
        s@ == "token "@ + token@,
{
    concat("token ", token)
}

/// The address of a repository.
pub open spec fn repo_address(base: Seq<char>, owner: Seq<char>, repo: Seq<char>) -> Seq<char> {
    base + "/repos/"@ + owner + "/"@ + repo
}

fn repo_url(base: &str, owner: &str, repo: &str) -> (s: String)
    ensures
        s@ == repo_address(base@, owner@, repo@),
{
    let mut s = concat(base, "/repos/");
    s.append(owner);
    s.append("/");
    s.append(repo);
    s
}

/// The address of a pull request.
pub fn pull_request_url(base: &str, owner: &str, repo: &str, pr_number: u32) -> (s: String)
    ensures
        s@ == repo_address(base@, owner@, repo@) + "/pulls/"@ + decimal(pr_number as nat),
{
    let mut s = repo_url(base, owner, repo);
    s.append("/pulls/");
    append_decimal(&mut s, pr_number as u64);
    s
}

/// The address of the reviews of a pull request.
pub fn reviews_url(base: &str, owner: &str, repo: &str, pr_number: u32) -> (s: String)
    ensures
        s@ == repo_address(base@, owner@, repo@) + "/pulls/"@ + decimal(pr_number as nat)
            + "/reviews"@,
{
    let mut s = pull_request_url(base, owner, repo, pr_number);
    s.append("/reviews");
    s
}

/// The address of a file on a branch.
pub fn file_content_url(base: &str, owner: &str, repo: &str, path: &str, branch: &str) -> (s:
    String)
    ensures
        s@ == repo_address(base@, owner@, repo@) + "/contents/"@ + path@ + "?ref="@ + branch@,
{
    let mut s = repo_url(base, owner, repo);
    s.append("/contents/");
    s.append(path);
    s.append("?ref=");
    s.append(branch);
    s
}

/// The address at which commits are created.
pub fn commits_url(base: &str, owner: &str, repo: &str) -> (s: String)
    ensures
        s@ == repo_address(base@, owner@, repo@) + "/git/commits"@,
{
    let mut s = repo_url(base, owner, repo);
    s.append("/git/commits");
    s
}

/// The bytes that `text` stands for in standard base64 with padding, where
/// it is such a text.
pub uninterp spec fn base64_standard(text: Seq<char>) -> Option<Seq<u8>>;

/// Decodes `text` with the `STANDARD` engine of `base64`: the standard
/// alphabet, with padding required. The engine reads the text and nothing
/// else, so what it gives, the bytes or a refusal, is a function of the text;
/// the contract gives that function a name and says no more of it.
#[verifier::external_body]
pub(crate) fn base64_decode(text: &str) -> (r: Option<Vec<u8>>)
    ensures
        match r {
            Some(bytes) => base64_standard(text@) == Some(bytes@),
            None => base64_standard(text@) is None,
        },
{
    base64::Engine::decode(&base64::engine::general_purpose::STANDARD, text).ok()
}

/// Turns bytes into a string with `String::from_utf8`, which succeeds on
/// valid UTF-8 and on nothing else, and then holds the text that the bytes
/// encode.
#[verifier::external_body]
pub(crate) fn string_from_utf8(bytes: Vec<u8>) -> (r: Option<String>)
    ensures
        match r {
            Some(s) => valid_utf8(bytes@) && s@ == decode_utf8(bytes@),
            None => !valid_utf8(bytes@),
        },
{
    String::from_utf8(bytes).ok()
}

/// The text of a file, given what base64 makes of its content: the bytes
/// must be there and be valid UTF-8.
pub open spec fn file_text(decoded: Option<Seq<u8>>) -> Option<Seq<char>> {
    match decoded {
        Some(bytes) => if valid_utf8(bytes) {
            Some(decode_utf8(bytes))
        } else {
            None
        },
        None => None,
    }
}

/// Reads the text of a file off decoded content.
pub fn text_of_decoded(decoded: Option<Vec<u8>>) -> (r: Result<String, GitHubError>)
    ensures
        match r {
            Ok(s) => file_text(
                match decoded {
                    Some(b) => Some(b@),
                    None => None,
                },
            ) == Some(s@),
            Err(e) => file_text(
                match decoded {
                    Some(b) => Some(b@),
                    None => None,
                },
            ) is None && e@ == GitHubErrorView::ParseError("Could not decode file content"@),
        },
{
    let text = match decoded {
        Some(bytes) => string_from_utf8(bytes),
        None => None,
    };
    match text {
        Some(s) => Ok(s),
        None => Err(GitHubError::ParseError("Could not decode file content".to_owned())),
    }
}

/// Decodes the content of a file as the API sends it, in base64. Content
/// that is missing, is no base64 or is no UTF-8 is a parse error.
pub fn decode_file_content(content: Option<&str>) -> (r: Result<String, GitHubError>)
    ensures
        match r {
            Ok(s) => content is Some && file_text(base64_standard(content->0@)) == Some(s@),
            Err(e) => (content is None || file_text(base64_standard(content->0@)) is None) && e@
                == GitHubErrorView::ParseError("Could not decode file content"@),
        },
{
    let decoded = match content {
        Some(encoded) => base64_decode(encoded),
        None => None,
    };
    text_of_decoded(decoded)
}

/// What an answer of the API comes to: its body where the status is a
/// success, and else the error that the status stands for. `body` is the text
/// of the answer, or the reason why it could not be read.
pub open spec fn response_outcome(status: u16, body: Result<Seq<char>, Seq<char>>) -> Result<
    Seq<char>,
    GitHubErrorView,
> {
    if 200 <= status <= 299 {
        match body {
            Ok(text) => Ok(text),
            Err(reason) => Err(GitHubErrorView::RequestError(reason)),
        }
    } else if status == 401 {
        Err(GitHubErrorView::AuthenticationError)
    } else if status == 404 {
        Err(GitHubErrorView::NotFound("Resource not found"@))
    } else if status == 403 {
        if body is Ok && contains_text(body->Ok_0, "API rate limit exceeded"@) {
            Err(GitHubErrorView::RateLimited { reset_at: None })
        } else {
            Err(GitHubErrorView::ApiError { status: 403, message: "Forbidden"@ })
        }
    } else {
        Err(
            GitHubErrorView::ApiError {
                status,
                message: match body {
                    Ok(text) => text,
                    Err(_) => "Unknown error"@,
                },
            },
        )
    }
}

/// The mathematical value of a body or of the reason why there is none.
pub open spec fn body_view(body: Result<String, String>) -> Result<Seq<char>, Seq<char>> {
    match body {
        Ok(text) => Ok(text@),
        Err(reason) => Err(reason@),
    }
}

/// Reads an answer of the API: hands back the body of a success, to be
/// parsed by the caller, and the error of anything else.
pub fn handle_response(status: u16, body: Result<String, String>) -> (r: Result<String, GitHubError>)
    ensures
        match r {
            Ok(text) => response_outcome(status, body_view(body)) == Ok::<
                Seq<char>,
                GitHubErrorView,
            >(text@),
            Err(e) => response_outcome(status, body_view(body)) == Err::<
                Seq<char>,
                GitHubErrorView,
            >(e@),
        },
{
    if 200 <= status && status <= 299 {
        match body {
            Ok(text) => Ok(text),
            Err(reason) => Err(GitHubError::RequestError(reason)),
        }
    } else if status == 401 {
        Err(GitHubError::AuthenticationError)
    } else if status == 404 {
        Err(GitHubError::NotFound("Resource not found".to_owned()))
    } else if status == 403 {
        let limited = match &body {
            Ok(text) => {
                let hay = to_chars(text.as_str());
                let needle = to_chars("API rate limit exceeded");
                vec_contains(&hay, &needle)
            },
            Err(_) => false,
        };
        if limited {
            Err(GitHubError::RateLimited { reset_at: None })
        } else {
            Err(GitHubError::ApiError { status: 403, message: "Forbidden".to_owned() })
        }
    } else {
        let message = match body {
            Ok(text) => text,
            Err(_) => "Unknown error".to_owned(),
        };
        Err(GitHubError::ApiError { status, message })
    }
}

} // verus!
