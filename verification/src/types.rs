//! The values that travel between the library and the service: the closed
//! sets that requests choose from, the bodies of requests, and the parts of
//! the answers that the library reads.

use vstd::prelude::*;

verus! {

/// The direction of a sorted listing. `Noop` leaves it to the service.
#[derive(Debug, Clone, Copy, PartialEq, Eq, Structural)]
pub enum Order {
    Asc,
    Desc,
    Noop,
}

/// What review comments are sorted by.
#[derive(Debug, Clone, Copy, PartialEq, Eq, Structural)]
pub enum Sort {
    Created,
    Updated,
}

/// What a listing of repositories is sorted by.
#[derive(Debug, Clone, Copy, PartialEq, Eq, Structural)]
pub enum ReposListOrgSort {
    Created,
    FullName,
    Pushed,
    Updated,
}

/// Which of a user's repositories are listed.
#[derive(Debug, Clone, Copy, PartialEq, Eq, Structural)]
pub enum ReposListUserType {
    All,
    Member,
    Owner,
}

/// Which of an organisation's repositories are listed.
#[derive(Debug, Clone, Copy, PartialEq, Eq, Structural)]
pub enum ReposListOrgType {
    All,
    Forks,
    Internal,
    Member,
    Private,
    Public,
    Sources,
}

/// Who can see a repository of an organisation. `Noop` leaves it to the
/// service.
#[derive(Debug, Clone, Copy, PartialEq, Eq, Structural)]
pub enum ReposCreateInOrgRequestVisibility {
    Internal,
    Private,
    Public,
    Noop,
}

/// The state of an issue.
#[derive(Debug, Clone, Copy, PartialEq, Eq, Structural)]
pub enum State {
    Closed,
    Open,
}

/// The states of the issues that a listing returns.
#[derive(Debug, Clone, Copy, PartialEq, Eq, Structural)]
pub enum IssuesListState {
    All,
    Closed,
    Open,
}

/// What a listing of issues is sorted by.
#[derive(Debug, Clone, Copy, PartialEq, Eq, Structural)]
pub enum IssuesListSort {
    Comments,
    Created,
    Updated,
}

/// The body of the request that opens an issue.
#[derive(Debug, Clone, PartialEq, Eq)]
pub struct IssuesCreateRequest {
    pub assignee: String,
    pub assignees: Vec<String>,
    pub body: String,
    pub labels: Vec<String>,
    pub milestone: Option<i64>,
    pub title: String,
}

/// The body of the request that changes an issue.
#[derive(Debug, Clone, PartialEq, Eq)]
pub struct IssuesUpdateRequest {
    pub assignee: String,
    pub assignees: Vec<String>,
    pub body: String,
    pub labels: Vec<String>,
    pub milestone: Option<i64>,
    pub state: Option<State>,
    pub title: Option<String>,
}

/// The body of the requests that write a comment.
#[derive(Debug, Clone, PartialEq, Eq)]
pub struct PullsUpdateReviewRequest {
    pub body: String,
}

/// The body of the request that publishes a release.
#[derive(Debug, Clone, PartialEq, Eq)]
pub struct ReposCreateReleaseRequest {
    pub body: String,
    pub discussion_category_name: String,
    pub draft: Option<bool>,
    pub name: String,
    pub prerelease: Option<bool>,
    pub tag_name: String,
    pub target_commitish: String,
}

/// The body of the request that creates a repository for the signed-in user.
#[derive(Debug, Clone, PartialEq, Eq)]
pub struct ReposCreateRequest {
    pub allow_auto_merge: Option<bool>,
    pub allow_merge_commit: Option<bool>,
    pub allow_rebase_merge: Option<bool>,
    pub allow_squash_merge: Option<bool>,
    pub auto_init: Option<bool>,
    pub delete_branch_on_merge: Option<bool>,
    pub description: String,
    pub gitignore_template: String,
    pub has_downloads: Option<bool>,
    pub has_issues: Option<bool>,
    pub has_projects: Option<bool>,
    pub has_wiki: Option<bool>,
    pub homepage: String,
    pub is_template: Option<bool>,
    pub license_template: String,
    pub name: String,
    pub private: Option<bool>,
    pub team_id: i64,
}

/// The body of the request that creates a repository in an organisation.
#[derive(Debug, Clone, PartialEq, Eq)]
pub struct ReposCreateInOrgRequest {
    pub allow_auto_merge: Option<bool>,
    pub allow_merge_commit: Option<bool>,
    pub allow_rebase_merge: Option<bool>,
    pub allow_squash_merge: Option<bool>,
    pub auto_init: Option<bool>,
    pub delete_branch_on_merge: Option<bool>,
    pub description: String,
    pub gitignore_template: String,
    pub has_issues: Option<bool>,
    pub has_projects: Option<bool>,
    pub has_wiki: Option<bool>,
    pub homepage: String,
    pub is_template: Option<bool>,
    pub license_template: String,
    pub name: String,
    pub private: Option<bool>,
    pub team_id: i64,
    pub visibility: Option<ReposCreateInOrgRequestVisibility>,
}

/// The body of the request that creates a repository from a template.
#[derive(Debug, Clone, PartialEq, Eq)]
pub struct ReposCreateUsingTemplateRequest {
    pub description: String,
    pub include_all_branches: Option<bool>,
    pub name: String,
    pub owner: String,
    pub private: Option<bool>,
}

/// The body of the request that forks a repository.
#[derive(Debug, Clone, PartialEq, Eq)]
pub struct ReposCreateForkRequest {
    pub organization: String,
}

/// A label of an issue.
#[derive(Debug, Clone, PartialEq, Eq)]
pub struct Label {
    pub name: String,
    pub description: String,
}

/// A label as an issue carries it: its bare name, or the label itself.
#[derive(Debug, Clone, PartialEq, Eq)]
pub enum LabelsOneOf {
    String(String),
    LabelsData(Label),
}

/// A user of the service.
#[derive(Debug, Clone, PartialEq, Eq)]
pub struct SimpleUser {
    pub login: String,
}

/// An issue, as a request for one issue returns it. `created_at` is the
/// moment of creation in the form in which it is displayed.
#[derive(Debug, Clone, PartialEq, Eq)]
pub struct Issue {
    pub number: i64,
    pub title: String,
    pub state: String,
    pub body: String,
    pub labels: Vec<LabelsOneOf>,
    pub created_at: Option<String>,
}

/// An issue, as a listing returns it.
#[derive(Debug, Clone, PartialEq, Eq)]
pub struct IssueSimple {
    pub number: i64,
    pub title: String,
    pub body: String,
    pub labels: Vec<Label>,
    pub created_at: Option<String>,
}

/// A comment on an issue or a pull request.
#[derive(Debug, Clone, PartialEq, Eq)]
pub struct IssueComment {
    pub user: Option<SimpleUser>,
    pub body: String,
}

/// A comment of a review, on a line of a file.
#[derive(Debug, Clone, PartialEq, Eq)]
pub struct PullRequestReviewComment {
    pub user: Option<SimpleUser>,
    pub body: String,
    pub line: i64,
    pub path: String,
}

/// A release.
#[derive(Debug, Clone, PartialEq, Eq)]
pub struct Release {
    pub tag_name: String,
    pub id: i64,
    pub name: String,
    pub body: String,
    pub target_commitish: String,
    pub url: String,
    pub upload_url: String,
}

/// A repository, as a listing returns it.
#[derive(Debug, Clone, PartialEq, Eq)]
pub struct MinimalRepository {
    pub id: i64,
    pub full_name: String,
    pub language: String,
    pub url: String,
    pub description: String,
}

/// A team of an organisation.
#[derive(Debug, Clone, PartialEq, Eq)]
pub struct FullTeam {
    pub id: i64,
}

} // verus!
