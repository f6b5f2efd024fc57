//! The logic of a command-line client for GitHub: which repository a command
//! is aimed at, which requests it makes, and what becomes of the answers.
//! Reading arguments, talking to the service and printing are left to the
//! program around this library.

pub mod api;
pub mod comment_command;
pub mod comments;
pub mod common;
pub mod entities;
pub mod error;
pub mod flow;
pub mod fuzzy_select;
pub mod get_repo_info;
pub mod handle_cli;
pub mod handle_comment;
pub mod handle_issue;
pub mod handle_release;
pub mod handle_repo;
pub mod issue_command;
pub mod issues;
pub mod laws;
pub mod number;
pub mod print_in_cli;
pub mod read_cli;
pub mod release_command;
pub mod releases;
pub mod repo_command;
pub mod repo_info;
pub mod repos;
pub mod set_vars;
pub mod teams;
pub mod text;
pub mod types;
