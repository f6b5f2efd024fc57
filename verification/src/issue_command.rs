//! The commands on issues, with their arguments as they were read.

use crate::repo_info::{RepoName, RepoOwner};
use crate::set_vars::{IssuesListStates, States};
use vstd::prelude::*;

verus! {

#[derive(Debug, Clone, PartialEq, Eq)]
pub enum IssueCommand {
    /// Get a list of issues.
    List {
        owner: Option<RepoOwner>,
        repo: Option<RepoName>,
        creator: String,
        assignee: String,
        state: IssuesListStates,
        labels: String,
        numb_of_page: i64,
        iss_on_page: i64,
    },
    /// Get one issue with its comments.
    Get { owner: Option<RepoOwner>, repo: Option<RepoName>, number: i64 },
    /// Get a list of issues, let the user pick one, and get that one with
    /// its comments.
    GetFromList {
        owner: Option<RepoOwner>,
        repo: Option<RepoName>,
        creator: String,
        assignee: String,
        state: IssuesListStates,
        labels: String,
        numb_of_page: i64,
        iss_on_page: i64,
    },
    /// Create an issue. Assignees and labels are comma separated lists.
    Create {
        owner: Option<RepoOwner>,
        repo: Option<RepoName>,
        title: String,
        body: String,
        assignees: String,
        labels: String,
    },
    /// Update an issue. What is absent stays as it is.
    Update {
        owner: Option<RepoOwner>,
        repo: Option<RepoName>,
        number: i64,
        title: Option<String>,
        body: Option<String>,
        assignees: Option<String>,
        state: States,
        labels: Option<String>,
    },
    /// Close an issue, with a comment where one is given.
    Close { owner: Option<RepoOwner>, repo: Option<RepoName>, number: i64, comment: String },
}

} // verus!
