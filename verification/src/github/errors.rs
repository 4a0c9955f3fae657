//! The errors of the GitHub integration.

use vstd::prelude::*;
use crate::text::{append_decimal, concat, decimal};

verus! {

/// What can go wrong while GitHub is asked for something.
#[derive(Debug)]
pub enum GitHubError {
    /// The request could not be sent or its answer not be read.
    RequestError(String),
    /// The token was not accepted.
    AuthenticationError,
    /// The resource does not exist.
    NotFound(String),
    /// The rate limit of the API is used up.
    RateLimited { reset_at: Option<u64> },
    /// The caller handed in something unusable.
    InvalidInput(String),
    /// An answer could not be understood.
    ParseError(String),
    /// Any other answer that is no success.
    ApiError { status: u16, message: String },
}

/// The mathematical value of a [`GitHubError`].
pub enum GitHubErrorView {
    RequestError(Seq<char>),
    AuthenticationError,
    NotFound(Seq<char>),
    RateLimited { reset_at: Option<u64> },
    InvalidInput(Seq<char>),
    ParseError(Seq<char>),
    ApiError { status: u16, message: Seq<char> },
}

impl View for GitHubError {
    type V = GitHubErrorView;

    open spec fn view(&self) -> GitHubErrorView {
        match self {
            GitHubError::RequestError(m) => GitHubErrorView::RequestError(m@),
            GitHubError::AuthenticationError => GitHubErrorView::AuthenticationError,
            GitHubError::NotFound(m) => GitHubErrorView::NotFound(m@),
            GitHubError::RateLimited { reset_at } => GitHubErrorView::RateLimited {
                reset_at: *reset_at,
            },
            GitHubError::InvalidInput(m) => GitHubErrorView::InvalidInput(m@),
            GitHubError::ParseError(m) => GitHubErrorView::ParseError(m@),
            GitHubError::ApiError { status, message } => GitHubErrorView::ApiError {
                status: *status,
                message: message@,
            },
        }
    }
}

/// The message of an error, as it is shown to the user.
pub open spec fn github_error_text(e: GitHubErrorView) -> Seq<char> {
    match e {
        GitHubErrorView::RequestError(m) => "Request failed: "@ + m,
        GitHubErrorView::AuthenticationError => "Authentication failed: invalid token"@,
        GitHubErrorView::NotFound(m) => "Not found: "@ + m,
        GitHubErrorView::RateLimited { reset_at } => match reset_at {
            Some(reset) => "Rate limited. Reset at: "@ + decimal(reset as nat),
            None => "Rate limited by GitHub API"@,
        },
        GitHubErrorView::InvalidInput(m) => "Invalid input: "@ + m,
        GitHubErrorView::ParseError(m) => "Parse error: "@ + m,
        GitHubErrorView::ApiError { status, message } => "GitHub API error ("@ + decimal(
            status as nat,
        ) + "): "@ + message,
    }
}

impl GitHubError {
    /// The message of the error, as it is shown to the user.
    pub fn to_string(&self) -> (s: String)
        ensures
            s@ == github_error_text(self@),
    {
        match self {
            GitHubError::RequestError(m) => concat("Request failed: ", m.as_str()),
            GitHubError::AuthenticationError => "Authentication failed: invalid token".to_owned(),
            GitHubError::NotFound(m) => concat("Not found: ", m.as_str()),
            GitHubError::RateLimited { reset_at } => match reset_at {
                Some(reset) => {
                    let mut s = "Rate limited. Reset at: ".to_owned();
                    append_decimal(&mut s, *reset);
                    s
                },
                None => "Rate limited by GitHub API".to_owned(),
            },
            GitHubError::InvalidInput(m) => concat("Invalid input: ", m.as_str()),
            GitHubError::ParseError(m) => concat("Parse error: ", m.as_str()),
            GitHubError::ApiError { status, message } => {
                let mut s = "GitHub API error (".to_owned();
                append_decimal(&mut s, *status as u64);
                s.append("): ");
                s.append(message.as_str());
                s
            },
        }
    }
}

} // verus!
