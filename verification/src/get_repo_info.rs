//! The repository of the current directory as a path of the form
//! `owner/name`.

use crate::error::ResolutionError;
use crate::repo_info::{remote_identity, text_of, RepoInfo};
use vstd::prelude::*;
use vstd::string::*;

verus! {

/// The path that a remote address stands for, where it stands for one.
pub open spec fn remote_path(url: Seq<char>) -> Option<Seq<char>> {
    match remote_identity(url) {
        Some((owner, name)) => Some(owner + "/"@ + name),
        None => None,
    }
}

/// The path `owner/name` that a remote address stands for.
pub fn parse_github_url(url: &str) -> (r: Result<String, ResolutionError>)
    ensures
        match r {
            Ok(path) => remote_path(url@) == Some(path@),
            Err(e) => e == ResolutionError::UnparsableRemoteUrl && remote_path(url@) is None,
        },
{
    match RepoInfo::parse_github_url(url) {
        Ok((owner, repo)) => {
            let mut path = owner.trim().to_owned();
            path.append("/");
            path.append(repo.trim());
            Ok(path)
        },
        Err(e) => Err(e),
    }
}

/// The path `owner/name` of the repository in the current directory, from
/// what the lookup of its `origin` remote gave: `None` where there is no git
/// repository or no such remote.
pub fn get_current_repo(remote: Option<&str>) -> (r: Result<String, ResolutionError>)
    ensures
        match r {
            Ok(path) => text_of(remote) matches Some(url) && remote_path(url) == Some(path@),
            Err(e) => match text_of(remote) {
                None => e == ResolutionError::GitNotFound,
                Some(url) => e == ResolutionError::UnparsableRemoteUrl && remote_path(url)
                    is None,
            },
        },
{
    match remote {
        None => Err(ResolutionError::GitNotFound),
        Some(url) => parse_github_url(url),
    }
}

} // verus!
