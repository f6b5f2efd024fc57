//! The commands on releases, with their arguments as they were read.

use crate::repo_info::{RepoName, RepoOwner};
use vstd::prelude::*;

verus! {

#[derive(Debug, Clone, PartialEq, Eq)]
pub enum ReleaseCommand {
    /// Create a release.
    Create {
        owner: RepoOwner,
        repo: RepoName,
        tag_name: String,
        target_commitish: String,
        name: String,
        body: String,
        discussion_category_name: String,
        draft: Option<bool>,
        prerelease: Option<bool>,
    },
    /// Get the latest release.
    GetLatest { owner: RepoOwner, repo: RepoName },
    /// Get a release by its tag.
    GetByTag { owner: RepoOwner, repo: RepoName, tag: String },
    /// Get a release by its number.
    GetById { owner: RepoOwner, repo: RepoName, id: i64 },
}

} // verus!
