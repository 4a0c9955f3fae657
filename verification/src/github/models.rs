//! The records that the GitHub API hands out and takes in.

use vstd::prelude::*;

verus! {

/// A GitHub user.
#[derive(Debug, Clone)]
pub struct User {
    pub login: String,
    pub id: u64,
    pub avatar_url: String,
}

/// A repository.
#[derive(Debug, Clone)]
pub struct Repository {
    pub name: String,
    pub full_name: String,
    pub owner: User,
}

/// A branch or commit that a pull request refers to.
#[derive(Debug, Clone)]
pub struct GitRef {
    pub sha: String,
    /// The name of the reference; on the wire the member is called `ref`.
    pub ref_name: String,
    pub repo: Option<Repository>,
}

/// A pull request.
#[derive(Debug, Clone)]
pub struct PullRequest {
    pub number: u32,
    pub title: String,
    pub body: Option<String>,
    pub state: String,
    pub head: GitRef,
    pub base: GitRef,
    pub user: User,
    pub created_at: String,
    pub updated_at: String,
    pub html_url: String,
}

/// A file of a repository.
#[derive(Debug, Clone)]
pub struct FileContent {
    pub name: String,
    pub path: String,
    pub sha: String,
    pub size: u32,
    /// The content in base64, where the API sent it.
    pub content: Option<String>,
    /// The kind of the entry; on the wire the member is called `type`.
    pub content_type: String,
}

/// What a review says of a pull request.
#[derive(Debug, Clone, Copy, PartialEq, Eq, Structural)]
pub enum ReviewEvent {
    Approve,
    RequestChanges,
    Comment,
}

/// A review of a pull request.
#[derive(Debug, Clone)]
pub struct PullRequestReview {
    pub body: String,
    pub event: ReviewEvent,
}

/// An issue.
#[derive(Debug, Clone)]
pub struct Issue {
    pub number: u32,
    pub title: String,
    pub body: Option<String>,
    pub state: String,
    pub html_url: String,
}

/// The author of a commit.
#[derive(Debug, Clone)]
pub struct CommitAuthor {
    pub name: String,
    pub email: String,
    pub date: String,
}

/// A commit.
#[derive(Debug, Clone)]
pub struct Commit {
    pub sha: String,
    pub message: String,
    pub author: Option<CommitAuthor>,
    pub url: String,
}

} // verus!
