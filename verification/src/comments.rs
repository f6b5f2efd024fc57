//! The requests that read and write comments.

use crate::api::ApiRequest;
use crate::repo_info::{RepoId, RepoInfo};
use crate::types::{Order, PullsUpdateReviewRequest, Sort};
use vstd::prelude::*;

verus! {

/// The request that writes a comment with the text `body` on the issue or
/// pull request `issue_number` of the repository `id`.
pub open spec fn is_create(r: ApiRequest, id: RepoId, issue_number: i64, body: Seq<char>) -> bool {
    &&& r matches ApiRequest::IssuesCreateComment { owner, repo, issue_number: n, body: b }
    &&& owner@ == id.owner
    &&& repo@ == id.name
    &&& n == issue_number
    &&& b.body@ == body
}

/// The request for all comments on the issue or pull request `number`,
/// review comments left out.
pub open spec fn is_get_all(r: ApiRequest, id: RepoId, number: i64) -> bool {
    &&& r matches ApiRequest::IssuesListAllComments { owner, repo, issue_number }
    &&& owner@ == id.owner
    &&& repo@ == id.name
    &&& issue_number == number
}

/// The request for all review comments on the pull request `number`.
pub open spec fn is_get_all_from_review(
    r: ApiRequest,
    id: RepoId,
    number: i64,
    sort: Sort,
    direction: Order,
) -> bool {
    &&& r matches ApiRequest::PullsListAllReviewComments {
        owner,
        repo,
        pull_number,
        sort: s,
        direction: d,
    }
    &&& owner@ == id.owner
    &&& repo@ == id.name
    &&& pull_number == number
    &&& s == sort
    &&& d == direction
}

/// The request that replaces the text of the comment `comment_id`.
pub open spec fn is_update(r: ApiRequest, id: RepoId, comment_id: i64, body: Seq<char>) -> bool {
    &&& r matches ApiRequest::IssuesUpdateComment { owner, repo, comment_id: n, body: b }
    &&& owner@ == id.owner
    &&& repo@ == id.name
    &&& n == comment_id
    &&& b.body@ == body
}

/// Writes a comment on an issue or a pull request.
pub fn create(repo_info: &RepoInfo, issue_number: i64, body: &String) -> (r: ApiRequest)
    ensures
        is_create(r, repo_info@, issue_number, body@),
{
    ApiRequest::IssuesCreateComment {
        owner: repo_info.get_owner(),
        repo: repo_info.get_name(),
        issue_number,
        body: PullsUpdateReviewRequest { body: body.clone() },
    }
}

/// Asks for all comments on an issue or a pull request, review comments
/// left out.
pub fn get_all(repo_info: &RepoInfo, number: i64) -> (r: ApiRequest)
    ensures
        is_get_all(r, repo_info@, number),
{
    ApiRequest::IssuesListAllComments {
        owner: repo_info.get_owner(),
        repo: repo_info.get_name(),
        issue_number: number,
    }
}

/// Asks for all review comments on a pull request.
pub fn get_all_from_review(repo_info: &RepoInfo, number: i64, sort: Sort, direction: Order) -> (r:
    ApiRequest)
    ensures
        is_get_all_from_review(r, repo_info@, number, sort, direction),
{
    ApiRequest::PullsListAllReviewComments {
        owner: repo_info.get_owner(),
        repo: repo_info.get_name(),
        pull_number: number,
        sort,
        direction,
    }
}

/// Replaces the text of a comment.
pub fn update(repo_info: &RepoInfo, comment_id: i64, body: &String) -> (r: ApiRequest)
    ensures
        is_update(r, repo_info@, comment_id, body@),
{
    ApiRequest::IssuesUpdateComment {
        owner: repo_info.get_owner(),
        repo: repo_info.get_name(),
        comment_id,
        body: PullsUpdateReviewRequest { body: body.clone() },
    }
}

} // verus!
