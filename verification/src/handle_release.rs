//! The commands on releases: which repository each is aimed at, and what it
//! does there.

use crate::entities::CreateReleaseArgs;
use crate::flow::{begins, start, starts, Task, Turn};
use crate::release_command::ReleaseCommand;
use crate::repo_info::{RepoId, RepoName, RepoOwner};
use vstd::prelude::*;

verus! {

/// The first step of a command on releases: what it takes to be `turn`.
/// Owner and name are always given, so the repository is the one that they
/// name.
pub open spec fn handles_release(subcommand: ReleaseCommand, turn: Turn) -> bool {
    match subcommand {
        ReleaseCommand::Create {
            owner,
            repo,
            tag_name,
            target_commitish,
            name,
            body,
            discussion_category_name,
            draft,
            prerelease,
        } => begins(
            Task::ReleaseCreate(
                CreateReleaseArgs {
                    body,
                    name,
                    tag_name,
                    target_commitish,
                    discussion_category_name,
                    draft,
                    prerelease,
                },
            ),
            RepoId { owner: owner@, name: repo@ },
            turn,
        ),
        ReleaseCommand::GetLatest { owner, repo } => begins(
            Task::ReleaseGetLatest,
            RepoId { owner: owner@, name: repo@ },
            turn,
        ),
        ReleaseCommand::GetByTag { owner, repo, tag } => begins(
            Task::ReleaseGetByTag { tag },
            RepoId { owner: owner@, name: repo@ },
            turn,
        ),
        ReleaseCommand::GetById { owner, repo, id } => begins(
            Task::ReleaseGetById { id },
            RepoId { owner: owner@, name: repo@ },
            turn,
        ),
    }
}

/// Takes the first step of a command on releases.
pub fn handle_release_command(subcommand: ReleaseCommand) -> (turn: Turn)
    ensures
        handles_release(subcommand, turn),
{
    match subcommand {
        ReleaseCommand::Create {
            owner,
            repo,
            tag_name,
            target_commitish,
            name,
            body,
            discussion_category_name,
            draft,
            prerelease,
        } => handle_create(
            owner,
            repo,
            CreateReleaseArgs {
                body,
                name,
                tag_name,
                target_commitish,
                discussion_category_name,
                draft,
                prerelease,
            },
        ),
        ReleaseCommand::GetLatest { owner, repo } => handle_get_latest(Some(owner), Some(repo)),
        ReleaseCommand::GetByTag { owner, repo, tag } => handle_get_by_tag(
            Some(owner),
            Some(repo),
            tag,
        ),
        ReleaseCommand::GetById { owner, repo, id } => handle_get_by_id(
            Some(owner),
            Some(repo),
            id,
        ),
    }
}

/// Creates a release.
pub fn handle_create(owner: RepoOwner, repo: RepoName, command_args: CreateReleaseArgs) -> (turn:
    Turn)
    ensures
        begins(Task::ReleaseCreate(command_args), RepoId { owner: owner@, name: repo@ }, turn),
{
    start(Some(owner), Some(repo), Task::ReleaseCreate(command_args))
}

/// Gets the latest release.
pub fn handle_get_latest(owner: Option<RepoOwner>, repo: Option<RepoName>) -> (turn: Turn)
    ensures
        starts(owner, repo, Task::ReleaseGetLatest, turn),
{
    start(owner, repo, Task::ReleaseGetLatest)
}

/// Gets a release by its tag.
pub fn handle_get_by_tag(owner: Option<RepoOwner>, repo: Option<RepoName>, tag: String) -> (turn:
    Turn)
    ensures
        starts(owner, repo, Task::ReleaseGetByTag { tag }, turn),
{
    start(owner, repo, Task::ReleaseGetByTag { tag })
}

/// Gets a release by its number.
pub fn handle_get_by_id(owner: Option<RepoOwner>, repo: Option<RepoName>, id: i64) -> (turn: Turn)
    ensures
        starts(owner, repo, Task::ReleaseGetById { id }, turn),
{
    start(owner, repo, Task::ReleaseGetById { id })
}

} // verus!
