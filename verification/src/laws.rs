//! What holds of every command, whatever the service answers.

use crate::api::{ApiReply, ApiRequest};
use crate::entities::CreateRepoArgs;
use crate::error::{ApiError, Error, ResolutionError, ValidationError};
use crate::flow::{
    begins, comment_created, picks, refusal, replies, resolves, starts, success, Choosing, Next,
    Pending, Task, Turn,
};
use crate::handle_issue::handles_issue;
use crate::issue_command::IssueCommand;
use crate::issues;
use crate::repo_info::{name_text, owner_text, resolve, Repo, RepoId, RepoName, RepoOwner};
use crate::set_vars::{is_page_size, IssuesListStates, Visibilities};
use crate::text::{free_of, split, split_list};
use vstd::prelude::*;

verus! {

/// An error of the service ends the command at once: nothing is printed, no
/// further request is made, and the error is reported as it came.
pub proof fn lemma_api_error_passes_through(pending: Pending, e: ApiError, turn: Turn)
    requires
        replies(pending, Err(e), turn),
    ensures
        turn.quiet(),
        turn.next == Next::Exit(Err(Error::Api(e))),
        !turn.makes_request(),
{
}

/// A task that is refused ends the command at once, whatever repository it
/// is aimed at: nothing is printed, nothing is looked up, and no request is
/// made.
pub proof fn lemma_refused_task_does_nothing(
    owner: Option<RepoOwner>,
    repo: Option<RepoName>,
    id: RepoId,
    task: Task,
    e: ValidationError,
    turn: Turn,
)
    requires
        refusal(task) == Some(e),
        starts(owner, repo, task, turn) || begins(task, id, turn),
    ensures
        turn.quiet(),
        turn.fails(Error::Validation(e)),
        !turn.makes_request(),
        !(turn.next is LookupRemote),
{
}

/// Where resolution fails, the command ends with that failure before any
/// request is made: with a named repository at the first step, and with the
/// repository of the current directory at the step after the lookup.
pub proof fn lemma_failed_resolution_makes_no_request(
    owner: Option<RepoOwner>,
    repo: Option<RepoName>,
    remote: Option<Seq<char>>,
    task: Task,
    turn: Turn,
)
    ensures
        owner is Some && refusal(task) is None && starts(owner, repo, task, turn) ==> (resolve(
            Repo::Input,
            owner_text(owner),
            name_text(repo),
            None,
        ) matches Err(e) ==> turn.quiet() && turn.fails(Error::Resolution(e))
            && !turn.makes_request()),
        resolves(task, remote, turn) ==> (resolve(Repo::Current, None, None, remote) matches Err(
            e,
        ) ==> turn.quiet() && turn.fails(Error::Resolution(e)) && !turn.makes_request()),
{
}

/// Which repository a command is aimed at: the one that it names, where it
/// names an owner, and nothing is looked up then; the one of the current
/// directory where it names no owner, whatever name it gives, and then the
/// lookup of the remote is its first step.
pub proof fn lemma_owner_decides_the_mode(
    owner: Option<RepoOwner>,
    repo: Option<RepoName>,
    task: Task,
    turn: Turn,
)
    requires
        refusal(task) is None,
        starts(owner, repo, task, turn),
    ensures
        owner is None ==> turn.quiet() && turn.next == Next::LookupRemote(task),
        owner is Some ==> !(turn.next is LookupRemote),
        match (owner, repo) {
            (Some(o), Some(n)) => begins(task, RepoId { owner: o@, name: n@ }, turn),
            _ => true,
        },
{
}

/// A command that names an owner and no repository, and whose task is not
/// refused, fails for the missing name, and makes no request.
pub proof fn lemma_missing_name(owner: RepoOwner, task: Task, turn: Turn)
    requires
        refusal(task) is None,
        starts(Some(owner), None, task, turn),
    ensures
        turn.quiet(),
        turn.fails(Error::Resolution(ResolutionError::MissingName)),
{
}

/// A command goes forward only: once its repository is known it is never
/// resolved again, and every step after the first makes a request, asks the
/// user to pick, or ends the command.
pub proof fn lemma_no_way_back(
    task: Task,
    id: RepoId,
    pending: Pending,
    reply: ApiReply,
    choosing: Choosing,
    choice: Option<Seq<char>>,
    turn: Turn,
)
    ensures
        begins(task, id, turn) ==> turn.next is Call || turn.next is Exit,
        replies(pending, reply, turn) ==> !(turn.next is LookupRemote),
        picks(choosing, choice, turn) ==> turn.next is Call || turn.next is Exit,
{
}

/// Every step brings a command closer to its end, so that it is over after
/// five steps at most.
pub proof fn lemma_every_step_makes_progress(
    task: Task,
    remote: Option<Seq<char>>,
    request: ApiRequest,
    pending: Pending,
    reply: ApiReply,
    offered: Vec<String>,
    choosing: Choosing,
    choice: Option<Seq<char>>,
    turn: Turn,
)
    ensures
        resolves(task, remote, turn) ==> turn.next.steps_ahead() < Next::LookupRemote(
            task,
        ).steps_ahead(),
        replies(pending, reply, turn) ==> turn.next.steps_ahead() < Next::Call(
            request,
            pending,
        ).steps_ahead(),
        picks(choosing, choice, turn) ==> turn.next.steps_ahead() < Next::Choose(
            offered,
            choosing,
        ).steps_ahead(),
{
}

/// No command makes more than two requests: after the first request at most
/// one more can follow, and after a second one none.
pub proof fn lemma_at_most_two_requests(
    task: Task,
    id: RepoId,
    pending: Pending,
    reply: ApiReply,
    choosing: Choosing,
    choice: Option<Seq<char>>,
    turn: Turn,
)
    ensures
        begins(task, id, turn) ==> (turn.next matches Next::Call(_, then)
            ==> then.requests_ahead() <= 1),
        replies(pending, reply, turn) ==> (turn.next matches Next::Call(_, then)
            ==> pending.requests_ahead() == 1 && then.requests_ahead() == 0),
        replies(pending, reply, turn) ==> (turn.next is Choose ==> pending.requests_ahead() == 1),
        picks(choosing, choice, turn) ==> (turn.next matches Next::Call(_, then)
            ==> then.requests_ahead() == 0),
{
}

/// An issue that is closed with a comment: the first request writes the
/// comment and changes no issue. If that request fails, the command ends
/// with the failure, and no request to close the issue is ever made.
pub proof fn lemma_failed_comment_leaves_issue_alone(
    id: RepoId,
    number: i64,
    comment: String,
    first: Turn,
    e: ApiError,
    second: Turn,
)
    requires
        comment@.len() > 0,
        begins(Task::IssueClose { number, comment }, id, first),
        first.next matches Next::Call(_, pending) ==> replies(pending, Err(e), second),
    ensures
        first.next matches Next::Call(request, _) && request is IssuesCreateComment
            && !request.changes_issue(),
        second.quiet(),
        second.fails(Error::Api(e)),
        !second.makes_request(),
{
}

/// An issue that is closed with a comment: once the comment is written, the
/// command says so and asks to close the issue, and that request is its
/// last.
pub proof fn lemma_comment_comes_before_close(
    id: RepoId,
    number: i64,
    comment: String,
    first: Turn,
    reply: ApiReply,
    second: Turn,
)
    requires
        comment@.len() > 0,
        reply is Ok,
        begins(Task::IssueClose { number, comment }, id, first),
        first.next matches Next::Call(_, pending) ==> replies(pending, reply, second),
    ensures
        second.prints(seq![comment_created()]),
        second.next matches Next::Call(request, then) && issues::is_close(request, id, number)
            && then.says(success()),
{
}

/// An issue that is closed without a comment: the one request closes it.
pub proof fn lemma_close_without_comment(id: RepoId, number: i64, comment: String, first: Turn)
    requires
        comment@.len() == 0,
        begins(Task::IssueClose { number, comment }, id, first),
    ensures
        first.next matches Next::Call(request, then) && issues::is_close(request, id, number)
            && then.requests_ahead() == 0,
{
}

/// A repository for a team of an organisation: the first request looks the
/// team up and creates nothing. If that request fails, the command ends
/// with the failure, and no request to create the repository is ever made.
pub proof fn lemma_missing_team_creates_nothing(
    id: RepoId,
    args: CreateRepoArgs,
    team_name: String,
    visibility: Visibilities,
    first: Turn,
    e: ApiError,
    second: Turn,
)
    requires
        begins(Task::RepoCreateInOrg { args, team_name, visibility }, id, first),
        first.next matches Next::Call(_, pending) ==> replies(pending, Err(e), second),
    ensures
        first.next matches Next::Call(request, _) && request is TeamsGetByName
            && !request.creates_repository(),
        second.quiet(),
        second.fails(Error::Api(e)),
        !second.makes_request(),
{
}

/// A listing of issues with a page size below 1 or above 100 ends at its
/// first step: nothing is looked up and no request is made. With a page
/// size from 1 to 100 and a named repository, the request goes out with
/// that page size.
pub proof fn lemma_page_size_is_checked_first(
    owner: Option<RepoOwner>,
    repo: Option<RepoName>,
    creator: String,
    assignee: String,
    state: IssuesListStates,
    labels: String,
    numb_of_page: i64,
    iss_on_page: i64,
    turn: Turn,
)
    requires
        handles_issue(
            IssueCommand::List {
                owner,
                repo,
                creator,
                assignee,
                state,
                labels,
                numb_of_page,
                iss_on_page,
            },
            turn,
        ),
    ensures
        !is_page_size(iss_on_page as int) ==> turn.quiet() && turn.fails(
            Error::Validation(ValidationError::PageSizeOutOfRange),
        ),
        is_page_size(iss_on_page as int) && owner is Some && repo is Some ==> (
        turn.next matches Next::Call(ApiRequest::IssuesListForRepo { per_page, page, .. }, _)
            && per_page == iss_on_page && page == numb_of_page),
{
}

/// An issue with a title is created with one request, which carries the
/// items of the two comma separated lists; once the service has answered,
/// the command confirms and ends.
pub proof fn lemma_issue_create_is_one_request(
    id: RepoId,
    title: String,
    body: String,
    assignees: String,
    labels: String,
    first: Turn,
    reply: ApiReply,
    second: Turn,
)
    requires
        title@.len() > 0,
        begins(Task::IssueCreate { title, body, assignees, labels }, id, first),
        first.next matches Next::Call(_, pending) ==> replies(pending, reply, second),
    ensures
        first.next matches Next::Call(request, _) && issues::is_create(
            request,
            id,
            title@,
            body@,
            split_list(assignees@),
            split_list(labels@),
        ),
        second.is_over(),
        reply is Ok ==> second.prints(seq![success()]) && second.succeeds(),
{
}

/// A text without a separator is one piece.
pub proof fn lemma_split_without_separator(s: Seq<char>, seps: Set<char>)
    requires
        free_of(s, seps),
    ensures
        split(s, seps) == seq![s],
    decreases s.len(),
{
    if s.len() > 0 {
        let init = s.drop_last();
        assert forall|j: int| 0 <= j < init.len() implies !seps.contains(#[trigger] init[j]) by {
            assert(init[j] == s[j]);
        }
        lemma_split_without_separator(init, seps);
        assert(!seps.contains(s[s.len() - 1]));
        assert(init.push(s.last()) =~= s);
        assert(seq![init].drop_last().push(s) =~= seq![s]);
    } else {
        assert(s =~= Seq::<char>::empty());
    }
}

/// A list that is written as the empty text has no items, and one that is
/// written without a comma has one item, which is the text.
pub proof fn lemma_short_lists(s: Seq<char>)
    ensures
        s.len() == 0 ==> split_list(s) == Seq::<Seq<char>>::empty(),
        s.len() > 0 && !s.contains(',') ==> split_list(s) == seq![s],
{
    if s.len() > 0 && !s.contains(',') {
        assert forall|j: int| 0 <= j < s.len() implies !set![','].contains(#[trigger] s[j]) by {
            assert(s.contains(s[j]));
        }
        lemma_split_without_separator(s, set![',']);
    }
}

} // verus!
