//! The commands on comments: which repository each is aimed at, and what it
//! does there.

use crate::comment_command::CommentCommand;
use crate::flow::{start, starts, Task, Turn};
use crate::repo_info::{RepoName, RepoOwner};
use crate::set_vars::{CommentTarget, Orders, Sorts};
use vstd::prelude::*;

verus! {

/// The first step of a command on comments: what it takes to be `turn`.
pub open spec fn handles_comment(subcommand: CommentCommand, turn: Turn) -> bool {
    match subcommand {
        CommentCommand::Create { owner, repo, number, body } => starts(
            owner,
            repo,
            Task::CommentCreate { number, body },
            turn,
        ),
        CommentCommand::GetAll { owner, repo, number, target } => starts(
            owner,
            repo,
            Task::CommentGetAll { number, target },
            turn,
        ),
        CommentCommand::GetAllFromReview { owner, repo, number, sort, order } => starts(
            owner,
            repo,
            Task::CommentGetAllFromReview { number, sort, order },
            turn,
        ),
    }
}

/// Takes the first step of a command on comments.
pub fn handle_comment_command(subcommand: CommentCommand) -> (turn: Turn)
    ensures
        handles_comment(subcommand, turn),
{
    match subcommand {
        CommentCommand::Create { owner, repo, number, body } => handle_create(
            owner,
            repo,
            number,
            body,
        ),
        CommentCommand::GetAll { owner, repo, number, target } => handle_get_all(
            owner,
            repo,
            number,
            target,
        ),
        CommentCommand::GetAllFromReview {
            owner,
            repo,
            number,
            sort,
            order,
        } => handle_get_all_from_review(owner, repo, number, sort, order),
    }
}

/// Creates a comment on an issue or a pull request.
pub fn handle_create(
    owner: Option<RepoOwner>,
    repo: Option<RepoName>,
    number: i64,
    body: String,
) -> (turn: Turn)
    ensures
        starts(owner, repo, Task::CommentCreate { number, body }, turn),
{
    start(owner, repo, Task::CommentCreate { number, body })
}

/// Gets all comments of an issue or a pull request; of a pull request the
/// review comments too, oldest first.
pub fn handle_get_all(
    owner: Option<RepoOwner>,
    repo: Option<RepoName>,
    number: i64,
    target: CommentTarget,
) -> (turn: Turn)
    ensures
        starts(owner, repo, Task::CommentGetAll { number, target }, turn),
{
    start(owner, repo, Task::CommentGetAll { number, target })
}

/// Gets all review comments of a pull request.
pub fn handle_get_all_from_review(
    owner: Option<RepoOwner>,
    repo: Option<RepoName>,
    number: i64,
    sort: Sorts,
    order: Orders,
) -> (turn: Turn)
    ensures
        starts(owner, repo, Task::CommentGetAllFromReview { number, sort, order }, turn),
{
    start(owner, repo, Task::CommentGetAllFromReview { number, sort, order })
}

} // verus!
