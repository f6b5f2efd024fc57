//! The requests that read and write issues.

use crate::api::ApiRequest;
use crate::entities::{ListIssueArgs, UpdateIssueArgs};
use crate::error::ValidationError;
use crate::repo_info::{RepoId, RepoInfo};
use crate::set_vars::{check_page_size, is_page_size};
use crate::text::{copy_texts, views};
use crate::types::{
    IssuesCreateRequest, IssuesListSort, IssuesUpdateRequest, Order, State,
};
use vstd::prelude::*;

verus! {

/// The request for the issue `issue_number` of the repository `id`.
pub open spec fn is_get(r: ApiRequest, id: RepoId, issue_number: i64) -> bool {
    &&& r matches ApiRequest::IssuesGet { owner, repo, issue_number: n }
    &&& owner@ == id.owner
    &&& repo@ == id.name
    &&& n == issue_number
}

/// The request for one page of the issues of the repository `id`. The
/// filters go out as they came in; the issues come sorted by their creation,
/// in the direction that the service picks.
pub open spec fn is_get_list(r: ApiRequest, id: RepoId, args: ListIssueArgs) -> bool {
    &&& r matches ApiRequest::IssuesListForRepo {
        owner,
        repo,
        milestone,
        state,
        assignee,
        creator,
        mentioned,
        labels,
        sort,
        direction,
        per_page,
        page,
    }
    &&& owner@ == id.owner
    &&& repo@ == id.name
    &&& milestone@ == Seq::<char>::empty()
    &&& state == args.state.0
    &&& assignee@ == args.assignee@
    &&& creator@ == args.creator@
    &&& mentioned@ == Seq::<char>::empty()
    &&& labels@ == args.labels@
    &&& sort == IssuesListSort::Created
    &&& direction == Order::Noop
    &&& per_page == args.iss_on_page
    &&& page == args.numb_of_page
}

/// The body that opens an issue with the given title, text, assignees and
/// labels, and with nothing else.
pub open spec fn is_create_body(
    body: IssuesCreateRequest,
    title: Seq<char>,
    text: Seq<char>,
    assignees: Seq<Seq<char>>,
    labels: Seq<Seq<char>>,
) -> bool {
    &&& body.title@ == title
    &&& body.body@ == text
    &&& body.assignee@ == Seq::<char>::empty()
    &&& views(body.assignees@) == assignees
    &&& views(body.labels@) == labels
    &&& body.milestone is None
}

/// The request that opens an issue in the repository `id`.
pub open spec fn is_create(
    r: ApiRequest,
    id: RepoId,
    title: Seq<char>,
    text: Seq<char>,
    assignees: Seq<Seq<char>>,
    labels: Seq<Seq<char>>,
) -> bool {
    &&& r matches ApiRequest::IssuesCreate { owner, repo, body }
    &&& owner@ == id.owner
    &&& repo@ == id.name
    &&& is_create_body(body, title, text, assignees, labels)
}

/// The text of a string that may be absent.
pub open spec fn text_or_none(s: Option<String>) -> Option<Seq<char>> {
    match s {
        Some(s) => Some(s@),
        None => None,
    }
}

/// The body that changes an issue. The state is always sent. A title that is
/// absent is not sent; a text that is absent or empty, and a list that is
/// absent or empty, are not sent either, so that the issue keeps what it has.
pub open spec fn is_update_body(
    body: IssuesUpdateRequest,
    title: Option<Seq<char>>,
    text: Option<Seq<char>>,
    assignees: Option<Seq<Seq<char>>>,
    labels: Option<Seq<Seq<char>>>,
    state: State,
) -> bool {
    &&& text_or_none(body.title) == title
    &&& body.body@ == (match text {
        Some(text) => text,
        None => Seq::<char>::empty(),
    })
    &&& body.assignee@ == Seq::<char>::empty()
    &&& views(body.assignees@) == (match assignees {
        Some(assignees) => assignees,
        None => Seq::<Seq<char>>::empty(),
    })
    &&& views(body.labels@) == (match labels {
        Some(labels) => labels,
        None => Seq::<Seq<char>>::empty(),
    })
    &&& body.milestone is None
    &&& body.state == Some(state)
}

/// The request that closes the issue `issue_number` of the repository `id`
/// and changes nothing else of it.
pub open spec fn is_close(r: ApiRequest, id: RepoId, issue_number: i64) -> bool {
    &&& r matches ApiRequest::IssuesUpdate { owner, repo, issue_number: n, body }
    &&& owner@ == id.owner
    &&& repo@ == id.name
    &&& n == issue_number
    &&& is_update_body(body, None, None, None, None, State::Closed)
}

/// The request that changes an issue of the repository `id`.
pub open spec fn is_update(
    r: ApiRequest,
    id: RepoId,
    args: UpdateIssueArgs,
    assignees: Seq<Seq<char>>,
    labels: Seq<Seq<char>>,
) -> bool {
    &&& r matches ApiRequest::IssuesUpdate { owner, repo, issue_number, body }
    &&& owner@ == id.owner
    &&& repo@ == id.name
    &&& issue_number == args.number
    &&& is_update_body(
        body,
        text_or_none(args.title),
        text_or_none(args.body),
        Some(assignees),
        Some(labels),
        args.state.0,
    )
}

/// Asks for one issue.
pub fn get(repo_info: &RepoInfo, issue_number: i64) -> (r: ApiRequest)
    ensures
        is_get(r, repo_info@, issue_number),
{
    ApiRequest::IssuesGet {
        owner: repo_info.get_owner(),
        repo: repo_info.get_name(),
        issue_number,
    }
}

/// Asks for one page of issues. A page size below 1 or above 100 is refused,
/// and no request is made of it.
pub fn get_list(repo_info: &RepoInfo, command_args: &ListIssueArgs) -> (r: Result<
    ApiRequest,
    ValidationError,
>)
    ensures
        match r {
            Ok(request) => is_page_size(command_args.iss_on_page as int) && is_get_list(
                request,
                repo_info@,
                *command_args,
            ),
            Err(e) => !is_page_size(command_args.iss_on_page as int) && e
                == ValidationError::PageSizeOutOfRange,
        },
{
    match check_page_size(command_args.iss_on_page) {
        Err(e) => Err(e),
        Ok(per_page) => Ok(
            ApiRequest::IssuesListForRepo {
                owner: repo_info.get_owner(),
                repo: repo_info.get_name(),
                milestone: String::new(),
                state: command_args.state.0,
                assignee: command_args.assignee.clone(),
                creator: command_args.creator.clone(),
                mentioned: String::new(),
                labels: command_args.labels.clone(),
                sort: IssuesListSort::Created,
                direction: Order::Noop,
                per_page,
                page: command_args.numb_of_page,
            },
        ),
    }
}

/// The body of the request that opens an issue.
pub fn get_create_request(title: &str, body: &str, assignees: &[String], labels: &[String]) -> (r:
    IssuesCreateRequest)
    ensures
        is_create_body(r, title@, body@, views(assignees@), views(labels@)),
{
    IssuesCreateRequest {
        title: title.to_owned(),
        body: body.to_owned(),
        assignee: String::new(),
        assignees: copy_texts(assignees),
        labels: copy_texts(labels),
        milestone: None,
    }
}

/// Opens an issue.
pub fn create(
    repo_info: &RepoInfo,
    title: &str,
    body: &str,
    assignees: &[String],
    labels: &[String],
) -> (r: ApiRequest)
    ensures
        is_create(r, repo_info@, title@, body@, views(assignees@), views(labels@)),
{
    ApiRequest::IssuesCreate {
        owner: repo_info.get_owner(),
        repo: repo_info.get_name(),
        body: get_create_request(title, body, assignees, labels),
    }
}

/// The texts of a list that may be absent.
pub open spec fn list_or_none(list: Option<&[String]>) -> Option<Seq<Seq<char>>> {
    match list {
        Some(list) => Some(views(list@)),
        None => None,
    }
}

/// The body of the request that changes an issue.
pub fn get_update_request(
    title: Option<String>,
    body: Option<String>,
    assignees: Option<&[String]>,
    labels: Option<&[String]>,
    state: &State,
) -> (r: IssuesUpdateRequest)
    ensures
        is_update_body(
            r,
            text_or_none(title),
            text_or_none(body),
            list_or_none(assignees),
            list_or_none(labels),
            *state,
        ),
{
    let new_labels = match labels {
        Some(l) => copy_texts(l),
        None => Vec::new(),
    };
    let new_assignees = match assignees {
        Some(a) => copy_texts(a),
        None => Vec::new(),
    };
    let new_body = match body {
        Some(b) => b,
        None => String::new(),
    };
    proof {
        assert(views(Seq::<String>::empty()) =~= Seq::<Seq<char>>::empty());
    }
    IssuesUpdateRequest {
        title,
        body: new_body,
        assignee: String::new(),
        assignees: new_assignees,
        labels: new_labels,
        milestone: None,
        state: Some(*state),
    }
}

/// Closes an issue.
pub fn close(repo_info: &RepoInfo, issue_number: i64) -> (r: ApiRequest)
    ensures
        is_close(r, repo_info@, issue_number),
{
    ApiRequest::IssuesUpdate {
        owner: repo_info.get_owner(),
        repo: repo_info.get_name(),
        issue_number,
        body: get_update_request(None, None, None, None, &State::Closed),
    }
}

/// Changes an issue.
pub fn update(
    repo_info: &RepoInfo,
    command_args: UpdateIssueArgs,
    assignees: &[String],
    labels: &[String],
) -> (r: ApiRequest)
    ensures
        is_update(r, repo_info@, command_args, views(assignees@), views(labels@)),
{
    let state = command_args.state.0;
    ApiRequest::IssuesUpdate {
        owner: repo_info.get_owner(),
        repo: repo_info.get_name(),
        issue_number: command_args.number,
        body: get_update_request(
            command_args.title,
            command_args.body,
            Some(assignees),
            Some(labels),
            &state,
        ),
    }
}

} // verus!
