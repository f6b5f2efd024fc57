//! The commands on issues: which repository each is aimed at, and what it
//! does there.

use crate::entities::{ListIssueArgs, UpdateIssueArgs};
use crate::flow::{start, starts, Task, Turn};
use crate::issue_command::IssueCommand;
use crate::repo_info::{RepoName, RepoOwner};
use crate::set_vars::{IssuesListStates, States};
use vstd::prelude::*;

verus! {

/// The first step of a command on issues: what it takes to be `turn`.
pub open spec fn handles_issue(subcommand: IssueCommand, turn: Turn) -> bool {
    match subcommand {
        IssueCommand::List {
            owner,
            repo,
            creator,
            assignee,
            state,
            labels,
            numb_of_page,
            iss_on_page,
        } => starts(
            owner,
            repo,
            Task::IssueList(
                ListIssueArgs { creator, assignee, state, labels, numb_of_page, iss_on_page },
            ),
            turn,
        ),
        IssueCommand::Get { owner, repo, number } => starts(
            owner,
            repo,
            Task::IssueGet { number },
            turn,
        ),
        IssueCommand::GetFromList {
            owner,
            repo,
            creator,
            assignee,
            state,
            labels,
            numb_of_page,
            iss_on_page,
        } => starts(
            owner,
            repo,
            Task::IssueGetFromList(
                ListIssueArgs { creator, assignee, state, labels, numb_of_page, iss_on_page },
            ),
            turn,
        ),
        IssueCommand::Create { owner, repo, title, body, assignees, labels } => starts(
            owner,
            repo,
            Task::IssueCreate { title, body, assignees, labels },
            turn,
        ),
        IssueCommand::Update { owner, repo, number, title, body, assignees, state, labels } => starts(
            owner,
            repo,
            Task::IssueUpdate { args: UpdateIssueArgs { title, body, number, state }, labels, assignees },
            turn,
        ),
        IssueCommand::Close { owner, repo, number, comment } => starts(
            owner,
            repo,
            Task::IssueClose { number, comment },
            turn,
        ),
    }
}

/// Takes the first step of a command on issues.
pub fn handle_issue_command(subcommand: IssueCommand) -> (turn: Turn)
    ensures
        handles_issue(subcommand, turn),
{
    match subcommand {
        IssueCommand::List {
            owner,
            repo,
            creator,
            assignee,
            state,
            labels,
            numb_of_page,
            iss_on_page,
        } => handle_list(owner, repo, creator, assignee, state, labels, numb_of_page, iss_on_page),
        IssueCommand::Get { owner, repo, number } => handle_get(owner, repo, number),
        IssueCommand::GetFromList {
            owner,
            repo,
            creator,
            assignee,
            state,
            labels,
            numb_of_page,
            iss_on_page,
        } => handle_get_form_list(
            owner,
            repo,
            creator,
            assignee,
            state,
            labels,
            numb_of_page,
            iss_on_page,
        ),
        IssueCommand::Create { owner, repo, title, body, assignees, labels } => handle_create(
            owner,
            repo,
            title,
            body,
            assignees,
            labels,
        ),
        IssueCommand::Update {
            owner,
            repo,
            number,
            title,
            body,
            assignees,
            state,
            labels,
        } => handle_update(owner, repo, title, body, number, labels, assignees, state),
        IssueCommand::Close { owner, repo, number, comment } => handle_close(
            owner,
            repo,
            number,
            comment,
        ),
    }
}

/// Lists issues. A page size below 1 or above 100 ends the command before
/// anything else is done.
pub fn handle_list(
    owner: Option<RepoOwner>,
    repo: Option<RepoName>,
    creator: String,
    assignee: String,
    state: IssuesListStates,
    labels: String,
    numb_of_page: i64,
    iss_on_page: i64,
) -> (turn: Turn)
    ensures
        starts(
            owner,
            repo,
            Task::IssueList(
                ListIssueArgs { creator, assignee, state, labels, numb_of_page, iss_on_page },
            ),
            turn,
        ),
{
    start(
        owner,
        repo,
        Task::IssueList(
            ListIssueArgs { creator, assignee, state, labels, numb_of_page, iss_on_page },
        ),
    )
}

/// Gets one issue with its comments.
pub fn handle_get(owner: Option<RepoOwner>, repo: Option<RepoName>, number: i64) -> (turn: Turn)
    ensures
        starts(owner, repo, Task::IssueGet { number }, turn),
{
    start(owner, repo, Task::IssueGet { number })
}

/// Lists issues, lets the user pick one, and gets that one with its
/// comments.
pub fn handle_get_form_list(
    owner: Option<RepoOwner>,
    repo: Option<RepoName>,
    creator: String,
    assignee: String,
    state: IssuesListStates,
    labels: String,
    numb_of_page: i64,
    iss_on_page: i64,
) -> (turn: Turn)
    ensures
        starts(
            owner,
            repo,
            Task::IssueGetFromList(
                ListIssueArgs { creator, assignee, state, labels, numb_of_page, iss_on_page },
            ),
            turn,
        ),
{
    start(
        owner,
        repo,
        Task::IssueGetFromList(
            ListIssueArgs { creator, assignee, state, labels, numb_of_page, iss_on_page },
        ),
    )
}

/// Creates an issue. The title may not be empty. Assignees and labels are
/// comma separated lists; an empty text is an empty list.
pub fn handle_create(
    owner: Option<RepoOwner>,
    repo: Option<RepoName>,
    title: String,
    body: String,
    assignees: String,
    labels: String,
) -> (turn: Turn)
    ensures
        starts(owner, repo, Task::IssueCreate { title, body, assignees, labels }, turn),
{
    start(owner, repo, Task::IssueCreate { title, body, assignees, labels })
}

/// Closes an issue. Where a comment is given it is written first, and the
/// issue is closed only once the comment is written.
pub fn handle_close(
    owner: Option<RepoOwner>,
    repo: Option<RepoName>,
    number: i64,
    comment: String,
) -> (turn: Turn)
    ensures
        starts(owner, repo, Task::IssueClose { number, comment }, turn),
{
    start(owner, repo, Task::IssueClose { number, comment })
}

/// Updates an issue. What is absent stays as it is.
pub fn handle_update(
    owner: Option<RepoOwner>,
    repo: Option<RepoName>,
    title: Option<String>,
    body: Option<String>,
    number: i64,
    labels: Option<String>,
    assignees: Option<String>,
    state: States,
) -> (turn: Turn)
    ensures
        starts(
            owner,
            repo,
            Task::IssueUpdate {
                args: UpdateIssueArgs { title, body, number, state },
                labels,
                assignees,
            },
            turn,
        ),
{
    start(
        owner,
        repo,
        Task::IssueUpdate { args: UpdateIssueArgs { title, body, number, state }, labels, assignees },
    )
}

} // verus!
