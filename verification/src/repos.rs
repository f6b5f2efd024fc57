//! The requests that create and list repositories.

use crate::api::ApiRequest;
use crate::entities::{CreateRepoArgs, CreateRepoFromTemplateArgs};
use crate::repo_info::{ssh_url, RepoId, RepoInfo};
use crate::text::{trim, trim_str};
use crate::types::{
    Order, ReposCreateForkRequest, ReposCreateInOrgRequest, ReposCreateInOrgRequestVisibility,
    ReposCreateRequest, ReposCreateUsingTemplateRequest, ReposListOrgSort, ReposListOrgType,
    ReposListUserType,
};
use vstd::prelude::*;

verus! {

/// The request that creates a repository for the signed-in user, with the
/// settings `args`, each as it came.
pub open spec fn is_create_for_authenticated_user(r: ApiRequest, args: CreateRepoArgs) -> bool {
    &&& r matches ApiRequest::ReposCreateForAuthenticatedUser { body }
    &&& body.allow_auto_merge == args.allow_auto_merge
    &&& body.allow_merge_commit == args.allow_merge_commit
    &&& body.allow_rebase_merge == args.allow_rebase_merge
    &&& body.allow_squash_merge == args.allow_squash_merge
    &&& body.auto_init == args.auto_init
    &&& body.delete_branch_on_merge == args.delete_branch_on_merge
    &&& body.description == args.description
    &&& body.gitignore_template == args.gitignore_template
    &&& body.has_downloads is None
    &&& body.has_issues == args.has_issues
    &&& body.has_projects == args.has_projects
    &&& body.has_wiki == args.has_wiki
    &&& body.homepage == args.homepage
    &&& body.is_template == args.is_template
    &&& body.license_template == args.license_template
    &&& body.name == args.name
    &&& body.private == args.private
    &&& body.team_id == 1
}

/// The request that creates the repository `id.name` in the organisation
/// `id.owner`, for the team `team_id`. The name of `args` plays no part, and
/// whether the repository is private is left to `visibility`.
pub open spec fn is_create_in_org(
    r: ApiRequest,
    id: RepoId,
    args: CreateRepoArgs,
    team_id: i64,
    visibility: Option<ReposCreateInOrgRequestVisibility>,
) -> bool {
    &&& r matches ApiRequest::ReposCreateInOrg { org, body }
    &&& org@ == id.owner
    &&& body.allow_auto_merge == args.allow_auto_merge
    &&& body.allow_merge_commit == args.allow_merge_commit
    &&& body.allow_rebase_merge == args.allow_rebase_merge
    &&& body.allow_squash_merge == args.allow_squash_merge
    &&& body.auto_init == args.auto_init
    &&& body.delete_branch_on_merge == args.delete_branch_on_merge
    &&& body.description == args.description
    &&& body.gitignore_template == args.gitignore_template
    &&& body.has_issues == args.has_issues
    &&& body.has_projects == args.has_projects
    &&& body.has_wiki == args.has_wiki
    &&& body.homepage == args.homepage
    &&& body.is_template == args.is_template
    &&& body.license_template == args.license_template
    &&& body.name@ == id.name
    &&& body.private is None
    &&& body.team_id == team_id
    &&& body.visibility == visibility
}

/// The request for the repositories of the organisation `org`, whose name
/// goes out without the whitespace around it.
pub open spec fn is_get_all_from_org(
    r: ApiRequest,
    org: Seq<char>,
    order: Order,
    type_value: ReposListOrgType,
    sort_value: ReposListOrgSort,
) -> bool {
    &&& r matches ApiRequest::ReposListAllForOrg { org: o, type_value: t, sort, direction }
    &&& o@ == trim(org)
    &&& t == type_value
    &&& sort == sort_value
    &&& direction == order
}

/// The request that creates the repository `id` from the template
/// `template`.
pub open spec fn is_create_using_template(
    r: ApiRequest,
    template: RepoId,
    id: RepoId,
    args: CreateRepoFromTemplateArgs,
) -> bool {
    &&& r matches ApiRequest::ReposCreateUsingTemplate { template_owner, template_repo, body }
    &&& template_owner@ == template.owner
    &&& template_repo@ == template.name
    &&& body.description == args.description
    &&& body.include_all_branches == args.include_all_branches
    &&& body.name@ == id.name
    &&& body.owner@ == id.owner
    &&& body.private == args.private
}

/// The request that forks the repository `id` into the organisation `org`,
/// or into the signed-in user's account where `org` is empty.
pub open spec fn is_create_fork(r: ApiRequest, org: Seq<char>, id: RepoId) -> bool {
    &&& r matches ApiRequest::ReposCreateFork { owner, repo, body }
    &&& owner@ == id.owner
    &&& repo@ == id.name
    &&& body.organization@ == org
}

/// The request for the repositories of the user `owner`, whose name goes out
/// without the whitespace around it.
pub open spec fn is_get_all_from_user(
    r: ApiRequest,
    owner: Seq<char>,
    type_value: ReposListUserType,
    sort_value: ReposListOrgSort,
    order: Order,
) -> bool {
    &&& r matches ApiRequest::ReposListAllForUser { username, type_value: t, sort, direction }
    &&& username@ == trim(owner)
    &&& t == type_value
    &&& sort == sort_value
    &&& direction == order
}

/// Creates a repository for the signed-in user.
pub fn create_for_authenticated_user(command_args: CreateRepoArgs) -> (r: ApiRequest)
    ensures
        is_create_for_authenticated_user(r, command_args),
{
    ApiRequest::ReposCreateForAuthenticatedUser {
        body: ReposCreateRequest {
            allow_auto_merge: command_args.allow_auto_merge,
            allow_merge_commit: command_args.allow_merge_commit,
            allow_rebase_merge: command_args.allow_rebase_merge,
            allow_squash_merge: command_args.allow_squash_merge,
            auto_init: command_args.auto_init,
            delete_branch_on_merge: command_args.delete_branch_on_merge,
            description: command_args.description,
            gitignore_template: command_args.gitignore_template,
            has_downloads: None,
            has_issues: command_args.has_issues,
            has_projects: command_args.has_projects,
            has_wiki: command_args.has_wiki,
            homepage: command_args.homepage,
            is_template: command_args.is_template,
            license_template: command_args.license_template,
            name: command_args.name,
            private: command_args.private,
            team_id: 1,
        },
    }
}

/// Creates a repository in an organisation, for a team whose number is
/// known. Beside the request stands the SSH address of the new repository.
pub fn create_in_org(
    repo_info: &RepoInfo,
    command_args: CreateRepoArgs,
    team_id: i64,
    visibility: Option<ReposCreateInOrgRequestVisibility>,
) -> (r: (ApiRequest, String))
    ensures
        is_create_in_org(r.0, repo_info@, command_args, team_id, visibility),
        r.1@ == ssh_url(repo_info@.owner, repo_info@.name),
{
    let request = ApiRequest::ReposCreateInOrg {
        org: repo_info.get_owner(),
        body: ReposCreateInOrgRequest {
            allow_auto_merge: command_args.allow_auto_merge,
            allow_merge_commit: command_args.allow_merge_commit,
            allow_rebase_merge: command_args.allow_rebase_merge,
            allow_squash_merge: command_args.allow_squash_merge,
            auto_init: command_args.auto_init,
            delete_branch_on_merge: command_args.delete_branch_on_merge,
            description: command_args.description,
            gitignore_template: command_args.gitignore_template,
            has_issues: command_args.has_issues,
            has_projects: command_args.has_projects,
            has_wiki: command_args.has_wiki,
            homepage: command_args.homepage,
            is_template: command_args.is_template,
            license_template: command_args.license_template,
            name: repo_info.get_name(),
            private: None,
            team_id,
            visibility,
        },
    };
    (request, repo_info.get_ssh())
}

/// Asks for the repositories of an organisation.
pub fn get_all_from_org(
    org: &str,
    order: Order,
    type_value: ReposListOrgType,
    sort_value: ReposListOrgSort,
) -> (r: ApiRequest)
    ensures
        is_get_all_from_org(r, org@, order, type_value, sort_value),
{
    ApiRequest::ReposListAllForOrg {
        org: trim_str(org).to_owned(),
        type_value,
        sort: sort_value,
        direction: order,
    }
}

/// Creates a repository from a template. Beside the request stands the SSH
/// address of the new repository.
pub fn create_using_template(
    template_info: &RepoInfo,
    repo_info: &RepoInfo,
    command_args: CreateRepoFromTemplateArgs,
) -> (r: (ApiRequest, String))
    ensures
        is_create_using_template(r.0, template_info@, repo_info@, command_args),
        r.1@ == ssh_url(repo_info@.owner, repo_info@.name),
{
    let request = ApiRequest::ReposCreateUsingTemplate {
        template_owner: template_info.get_owner(),
        template_repo: template_info.get_name(),
        body: ReposCreateUsingTemplateRequest {
            description: command_args.description,
            include_all_branches: command_args.include_all_branches,
            name: repo_info.get_name(),
            owner: repo_info.get_owner(),
            private: command_args.private,
        },
    };
    (request, repo_info.get_ssh())
}

/// Forks a repository.
pub fn create_fork(org: &str, fork_info: &RepoInfo) -> (r: ApiRequest)
    ensures
        is_create_fork(r, org@, fork_info@),
{
    ApiRequest::ReposCreateFork {
        owner: fork_info.get_owner(),
        repo: fork_info.get_name(),
        body: ReposCreateForkRequest { organization: org.to_owned() },
    }
}

/// Asks for the repositories of a user.
pub fn get_all_from_user(
    owner: String,
    type_value: ReposListUserType,
    sort_value: ReposListOrgSort,
    order: Order,
) -> (r: ApiRequest)
    ensures
        is_get_all_from_user(r, owner@, type_value, sort_value, order),
{
    ApiRequest::ReposListAllForUser {
        username: trim_str(owner.as_str()).to_owned(),
        type_value,
        sort: sort_value,
        direction: order,
    }
}

} // verus!
