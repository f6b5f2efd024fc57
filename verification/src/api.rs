//! The service as the library sees it: one request goes out, and one answer
//! or one error comes back. The library says which request to make; the
//! program around it makes the request.

use crate::error::ApiError;
use crate::types::{
    FullTeam, Issue, IssueComment, IssueSimple, IssuesCreateRequest, IssuesListSort,
    IssuesListState, IssuesUpdateRequest, MinimalRepository, Order, PullRequestReviewComment,
    PullsUpdateReviewRequest, Release, ReposCreateForkRequest, ReposCreateInOrgRequest,
    ReposCreateReleaseRequest, ReposCreateRequest, ReposCreateUsingTemplateRequest,
    ReposListOrgSort, ReposListOrgType, ReposListUserType, Sort,
};
use vstd::prelude::*;

verus! {

/// One request to the service, with everything that it is made with.
#[derive(Debug, Clone, PartialEq, Eq)]
pub enum ApiRequest {
    IssuesGet { owner: String, repo: String, issue_number: i64 },
    IssuesListForRepo {
        owner: String,
        repo: String,
        milestone: String,
        state: IssuesListState,
        assignee: String,
        creator: String,
        mentioned: String,
        labels: String,
        sort: IssuesListSort,
        direction: Order,
        per_page: i64,
        page: i64,
    },
    IssuesCreate { owner: String, repo: String, body: IssuesCreateRequest },
    IssuesUpdate { owner: String, repo: String, issue_number: i64, body: IssuesUpdateRequest },
    IssuesCreateComment {
        owner: String,
        repo: String,
        issue_number: i64,
        body: PullsUpdateReviewRequest,
    },
    IssuesUpdateComment {
        owner: String,
        repo: String,
        comment_id: i64,
        body: PullsUpdateReviewRequest,
    },
    IssuesListAllComments { owner: String, repo: String, issue_number: i64 },
    PullsListAllReviewComments {
        owner: String,
        repo: String,
        pull_number: i64,
        sort: Sort,
        direction: Order,
    },
    ReposCreateRelease { owner: String, repo: String, body: ReposCreateReleaseRequest },
    ReposGetLatestRelease { owner: String, repo: String },
    ReposGetReleaseByTag { owner: String, repo: String, tag: String },
    ReposGetRelease { owner: String, repo: String, release_id: i64 },
    ReposCreateForAuthenticatedUser { body: ReposCreateRequest },
    TeamsGetByName { org: String, team_slug: String },
    ReposCreateInOrg { org: String, body: ReposCreateInOrgRequest },
    ReposListAllForOrg {
        org: String,
        type_value: ReposListOrgType,
        sort: ReposListOrgSort,
        direction: Order,
    },
    ReposCreateUsingTemplate {
        template_owner: String,
        template_repo: String,
        body: ReposCreateUsingTemplateRequest,
    },
    ReposCreateFork { owner: String, repo: String, body: ReposCreateForkRequest },
    ReposListAllForUser {
        username: String,
        type_value: ReposListUserType,
        sort: ReposListOrgSort,
        direction: Order,
    },
}

/// What the service answered, as far as the library reads it.
#[derive(Debug, Clone, PartialEq, Eq)]
pub enum ApiResponse {
    /// The request went through; the library reads nothing of the answer.
    Done,
    Issue(Issue),
    Issues(Vec<IssueSimple>),
    Comments(Vec<IssueComment>),
    ReviewComments(Vec<PullRequestReviewComment>),
    Release(Release),
    Repositories(Vec<MinimalRepository>),
    Team(FullTeam),
}

/// The outcome of one request.
pub type ApiReply = Result<ApiResponse, ApiError>;

impl ApiRequest {
    /// Whether the request changes an issue.
    pub open spec fn changes_issue(self) -> bool {
        self is IssuesUpdate
    }

    /// Whether the request creates a repository.
    pub open spec fn creates_repository(self) -> bool {
        self is ReposCreateInOrg || self is ReposCreateForAuthenticatedUser || self
            is ReposCreateUsingTemplate || self is ReposCreateFork
    }
}

} // verus!
