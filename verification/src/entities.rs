//! The arguments of the commands that take many.

use crate::set_vars::{IssuesListStates, States};
use vstd::prelude::*;

verus! {

/// What a listing of issues is filtered by, and which page of it is asked
/// for.
#[derive(Debug, Clone, PartialEq, Eq)]
pub struct ListIssueArgs {
    pub creator: String,
    pub assignee: String,
    pub state: IssuesListStates,
    pub labels: String,
    pub numb_of_page: i64,
    pub iss_on_page: i64,
}

/// What an issue is changed to. A title or a body that is absent stays as it
/// is.
#[derive(Debug, Clone, PartialEq, Eq)]
pub struct UpdateIssueArgs {
    pub title: Option<String>,
    pub body: Option<String>,
    pub number: i64,
    pub state: States,
}

/// The settings of a new repository.
#[derive(Debug, Clone, PartialEq, Eq)]
pub struct CreateRepoArgs {
    pub allow_auto_merge: Option<bool>,
    pub allow_merge_commit: Option<bool>,
    pub allow_rebase_merge: Option<bool>,
    pub allow_squash_merge: Option<bool>,
    pub auto_init: Option<bool>,
    pub delete_branch_on_merge: Option<bool>,
    pub has_issues: Option<bool>,
    pub has_projects: Option<bool>,
    pub has_wiki: Option<bool>,
    pub is_template: Option<bool>,
    pub private: Option<bool>,
    pub description: String,
    pub gitignore_template: String,
    pub homepage: String,
    pub license_template: String,
    pub name: String,
}

/// The settings of a repository that is made from a template.
#[derive(Debug, Clone, PartialEq, Eq)]
pub struct CreateRepoFromTemplateArgs {
    pub description: String,
    pub include_all_branches: Option<bool>,
    pub private: Option<bool>,
}

/// The settings of a new release.
#[derive(Debug, Clone, PartialEq, Eq)]
pub struct CreateReleaseArgs {
    pub body: String,
    pub name: String,
    pub tag_name: String,
    pub target_commitish: String,
    pub discussion_category_name: String,
    pub draft: Option<bool>,
    pub prerelease: Option<bool>,
}

} // verus!
