//! The requests that publish and read releases.

use crate::api::ApiRequest;
use crate::entities::CreateReleaseArgs;
use crate::repo_info::{release_url, RepoId, RepoInfo};
use crate::types::ReposCreateReleaseRequest;
use vstd::prelude::*;

verus! {

/// The request that publishes a release of the repository `id` with the
/// settings `args`, each as it came.
pub open spec fn is_create(r: ApiRequest, id: RepoId, args: CreateReleaseArgs) -> bool {
    &&& r matches ApiRequest::ReposCreateRelease { owner, repo, body }
    &&& owner@ == id.owner
    &&& repo@ == id.name
    &&& body.body == args.body
    &&& body.discussion_category_name == args.discussion_category_name
    &&& body.draft == args.draft
    &&& body.name == args.name
    &&& body.prerelease == args.prerelease
    &&& body.tag_name@ == args.tag_name@
    &&& body.target_commitish == args.target_commitish
}

/// The request for the latest release of the repository `id`.
pub open spec fn is_get_latest(r: ApiRequest, id: RepoId) -> bool {
    &&& r matches ApiRequest::ReposGetLatestRelease { owner, repo }
    &&& owner@ == id.owner
    &&& repo@ == id.name
}

/// The request for the release of the repository `id` that carries `tag`.
pub open spec fn is_get_by_tag(r: ApiRequest, id: RepoId, tag: String) -> bool {
    &&& r matches ApiRequest::ReposGetReleaseByTag { owner, repo, tag: t }
    &&& owner@ == id.owner
    &&& repo@ == id.name
    &&& t == tag
}

/// The request for the release of the repository `id` with the number
/// `release_id`.
pub open spec fn is_get_by_id(r: ApiRequest, id: RepoId, release_id: i64) -> bool {
    &&& r matches ApiRequest::ReposGetRelease { owner, repo, release_id: n }
    &&& owner@ == id.owner
    &&& repo@ == id.name
    &&& n == release_id
}

/// Publishes a release. Beside the request stands the address under which
/// the release will be found once the request has gone through; it is made
/// of the repository's address and the tag, not of the service's answer.
pub fn create(repo_info: &RepoInfo, command_args: CreateReleaseArgs) -> (r: (ApiRequest, String))
    ensures
        is_create(r.0, repo_info@, command_args),
        r.1@ == release_url(repo_info@.owner, repo_info@.name, command_args.tag_name@),
{
    let url = repo_info.get_release_url(&command_args.tag_name);
    let request = ApiRequest::ReposCreateRelease {
        owner: repo_info.get_owner(),
        repo: repo_info.get_name(),
        body: ReposCreateReleaseRequest {
            body: command_args.body,
            discussion_category_name: command_args.discussion_category_name,
            draft: command_args.draft,
            name: command_args.name,
            prerelease: command_args.prerelease,
            tag_name: command_args.tag_name,
            target_commitish: command_args.target_commitish,
        },
    };
    (request, url)
}

/// Asks for the latest release.
pub fn get_latest(repo_info: &RepoInfo) -> (r: ApiRequest)
    ensures
        is_get_latest(r, repo_info@),
{
    ApiRequest::ReposGetLatestRelease { owner: repo_info.get_owner(), repo: repo_info.get_name() }
}

/// Asks for the release that carries a tag.
pub fn get_by_tag(repo_info: &RepoInfo, tag: String) -> (r: ApiRequest)
    ensures
        is_get_by_tag(r, repo_info@, tag),
{
    ApiRequest::ReposGetReleaseByTag {
        owner: repo_info.get_owner(),
        repo: repo_info.get_name(),
        tag,
    }
}

/// Asks for the release with a number.
pub fn get_by_id(repo_info: &RepoInfo, id: i64) -> (r: ApiRequest)
    ensures
        is_get_by_id(r, repo_info@, id),
{
    ApiRequest::ReposGetRelease {
        owner: repo_info.get_owner(),
        repo: repo_info.get_name(),
        release_id: id,
    }
}

} // verus!
