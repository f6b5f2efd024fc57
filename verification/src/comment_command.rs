//! The commands on comments, with their arguments as they were read.

use crate::repo_info::{RepoName, RepoOwner};
use crate::set_vars::{CommentTarget, Orders, Sorts};
use vstd::prelude::*;

verus! {

#[derive(Debug, Clone, PartialEq, Eq)]
pub enum CommentCommand {
    /// Create a comment on an issue or a pull request.
    Create { owner: Option<RepoOwner>, repo: Option<RepoName>, number: i64, body: String },
    /// Get all comments of an issue or a pull request.
    GetAll {
        owner: Option<RepoOwner>,
        repo: Option<RepoName>,
        number: i64,
        target: CommentTarget,
    },
    /// Get all review comments of a pull request.
    GetAllFromReview {
        owner: Option<RepoOwner>,
        repo: Option<RepoName>,
        number: i64,
        sort: Sorts,
        order: Orders,
    },
}

} // verus!
