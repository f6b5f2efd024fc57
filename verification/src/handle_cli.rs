//! The entry point: one command comes in, and its first step comes out.

use crate::flow::Turn;
use crate::handle_comment::{handle_comment_command, handles_comment};
use crate::handle_issue::{handle_issue_command, handles_issue};
use crate::handle_release::{handle_release_command, handles_release};
use crate::handle_repo::{handle_repo_command, handles_repo};
use crate::read_cli::{Args, CliCommand};
use vstd::prelude::*;

verus! {

/// The first step of a command: what it takes to be `turn`.
pub open spec fn handles(args: Args, turn: Turn) -> bool {
    match args.command {
        CliCommand::Issue { subcommand } => handles_issue(subcommand, turn),
        CliCommand::Comment { subcommand } => handles_comment(subcommand, turn),
        CliCommand::Repo { subcommand } => handles_repo(subcommand, turn),
        CliCommand::Release { subcommand } => handles_release(subcommand, turn),
    }
}

/// Takes the first step of a command. What follows depends on what the
/// step asks for: `resolved` after the lookup of the remote, `replied` after
/// a request, `picked` after the user's pick; the command is over when a
/// step says so.
pub fn handle_cli_command(args: Args) -> (turn: Turn)
    ensures
        handles(args, turn),
{
    match args.command {
        CliCommand::Issue { subcommand } => handle_issue_command(subcommand),
        CliCommand::Comment { subcommand } => handle_comment_command(subcommand),
        CliCommand::Repo { subcommand } => handle_repo_command(subcommand),
        CliCommand::Release { subcommand } => handle_release_command(subcommand),
    }
}

} // verus!
