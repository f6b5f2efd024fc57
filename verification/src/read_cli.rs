//! One invocation of the program: exactly one command.

use crate::comment_command::CommentCommand;
use crate::issue_command::IssueCommand;
use crate::release_command::ReleaseCommand;
use crate::repo_command::RepoCommand;
use vstd::prelude::*;

verus! {

#[derive(Debug, Clone, PartialEq, Eq)]
pub struct Args {
    pub command: CliCommand,
}

#[derive(Debug, Clone, PartialEq, Eq)]
pub enum CliCommand {
    /// Work with issues.
    Issue { subcommand: IssueCommand },
    /// Work with comments.
    Comment { subcommand: CommentCommand },
    /// Work with repositories.
    Repo { subcommand: RepoCommand },
    /// Work with releases.
    Release { subcommand: ReleaseCommand },
}

} // verus!
