//! The commands on repositories: which repository each is aimed at, if any,
//! and what it does.

use crate::entities::{CreateRepoArgs, CreateRepoFromTemplateArgs};
use crate::error::Error;
use crate::flow::{
    begin, begins, call, fail, start, success, Next, Pending, Task, Turn,
};
use crate::repo_command::RepoCommand;
use crate::repo_info::{Repo, RepoId, RepoInfo, RepoName, RepoOwner};
use crate::repos;
use crate::set_vars::{
    Orders, ReposListOrgSorts, ReposListOrgTypes, ReposListUserTypes, Visibilities,
};
use vstd::prelude::*;

verus! {

/// The first step of the command that creates a repository for the
/// signed-in user: what it takes to be `turn`.
pub open spec fn creates_for_user(command_args: CreateRepoArgs, turn: Turn) -> bool {
    &&& turn.quiet()
    &&& turn.next matches Next::Call(request, pending)
    &&& repos::is_create_for_authenticated_user(request, command_args)
    &&& pending.says(success())
}

/// The first step of a listing of an organisation's repositories: what it
/// takes to be `turn`.
pub open spec fn lists_org(
    org: String,
    order: Orders,
    type_value: ReposListOrgTypes,
    sort_value: ReposListOrgSorts,
    turn: Turn,
) -> bool {
    &&& turn.quiet()
    &&& turn.next matches Next::Call(request, pending)
    &&& repos::is_get_all_from_org(request, org@, order.0, type_value.0, sort_value.0)
    &&& pending matches Pending::Repos { owner, owner_type }
    &&& owner == org
    &&& owner_type@ == "org"@
}

/// The first step of a listing of a user's repositories: what it takes to
/// be `turn`.
pub open spec fn lists_user(
    owner: String,
    type_value: ReposListUserTypes,
    sort_value: ReposListOrgSorts,
    order: Orders,
    turn: Turn,
) -> bool {
    &&& turn.quiet()
    &&& turn.next matches Next::Call(request, pending)
    &&& repos::is_get_all_from_user(request, owner@, type_value.0, sort_value.0, order.0)
    &&& pending matches Pending::Repos { owner: o, owner_type }
    &&& o@ == owner@
    &&& owner_type@ == "user"@
}

/// The first step of the command that creates a repository from a
/// template: what it takes to be `turn`.
pub open spec fn creates_from_template(
    owner: RepoOwner,
    name: RepoName,
    template_owner: RepoOwner,
    template_name: RepoName,
    args: CreateRepoFromTemplateArgs,
    turn: Turn,
) -> bool {
    &&& turn.quiet()
    &&& turn.next matches Next::Call(request, pending)
    &&& repos::is_create_using_template(
        request,
        RepoId { owner: template_owner@, name: template_name@ },
        RepoId { owner: owner@, name: name@ },
        args,
    )
    &&& pending.shows(crate::repo_info::ssh_url(owner@, name@), "New repo"@)
}

/// The settings that a command gives for a new repository in an
/// organisation. The name is kept apart.
pub open spec fn in_org_args(subcommand: RepoCommand, args: CreateRepoArgs) -> bool {
    &&& subcommand matches RepoCommand::CreateInOrg {
        allow_auto_merge,
        allow_merge_commit,
        allow_rebase_merge,
        allow_squash_merge,
        auto_init,
        delete_branch_on_merge,
        description,
        gitignore_template,
        has_issues,
        has_projects,
        has_wiki,
        homepage,
        is_template,
        license_template,
        name,
        org,
        team_name,
        visibility,
    }
    &&& args.allow_auto_merge == allow_auto_merge
    &&& args.allow_merge_commit == allow_merge_commit
    &&& args.allow_rebase_merge == allow_rebase_merge
    &&& args.allow_squash_merge == allow_squash_merge
    &&& args.auto_init == auto_init
    &&& args.delete_branch_on_merge == delete_branch_on_merge
    &&& args.has_issues == has_issues
    &&& args.has_projects == has_projects
    &&& args.has_wiki == has_wiki
    &&& args.is_template == is_template
    &&& args.private is None
    &&& args.description == description
    &&& args.gitignore_template == gitignore_template
    &&& args.homepage == homepage
    &&& args.license_template == license_template
    &&& args.name@ == name@
}

/// The first step of a command on repositories: what it takes to be
/// `turn`.
pub open spec fn handles_repo(subcommand: RepoCommand, turn: Turn) -> bool {
    match subcommand {
        RepoCommand::CreateForAuthenticatedUser {
            allow_auto_merge,
            allow_merge_commit,
            allow_rebase_merge,
            allow_squash_merge,
            auto_init,
            delete_branch_on_merge,
            description,
            gitignore_template,
            has_issues,
            has_projects,
            has_wiki,
            homepage,
            is_template,
            license_template,
            name,
            private,
        } => creates_for_user(
            CreateRepoArgs {
                allow_auto_merge,
                allow_merge_commit,
                allow_rebase_merge,
                allow_squash_merge,
                auto_init,
                delete_branch_on_merge,
                has_issues,
                has_projects,
                has_wiki,
                is_template,
                private,
                description,
                gitignore_template,
                homepage,
                license_template,
                name,
            },
            turn,
        ),
        RepoCommand::CreateInOrg { name, org, team_name, visibility, .. } => {
            &&& turn.quiet()
            &&& turn.next matches Next::Call(request, pending)
            &&& crate::teams::is_get_id(request, org@, team_name@)
            &&& pending matches Pending::Team { repo_info, args, visibility: v }
            &&& repo_info@ == (RepoId { owner: org@, name: name@ })
            &&& in_org_args(subcommand, args)
            &&& v == Some(visibility.0)
        },
        RepoCommand::CreateUsingTemplate {
            template_owner,
            template_name,
            name,
            owner,
            description,
            private,
            include_all_branches,
        } => creates_from_template(
            owner,
            name,
            template_owner,
            template_name,
            CreateRepoFromTemplateArgs { description, include_all_branches, private },
            turn,
        ),
        RepoCommand::CreateFork { name, owner, org } => begins(
            Task::RepoCreateFork { org },
            RepoId { owner: owner@, name: name@ },
            turn,
        ),
        RepoCommand::GetAllFromOrg { org, order, sort_value, type_value } => lists_org(
            org,
            order,
            type_value,
            sort_value,
            turn,
        ),
        RepoCommand::GetAllFromUser { owner, order, sort_value, type_value } => lists_user(
            owner,
            type_value,
            sort_value,
            order,
            turn,
        ),
    }
}

/// Takes the first step of a command on repositories.
pub fn handle_repo_command(subcommand: RepoCommand) -> (turn: Turn)
    ensures
        handles_repo(subcommand, turn),
{
    match subcommand {
        RepoCommand::CreateForAuthenticatedUser {
            allow_auto_merge,
            allow_merge_commit,
            allow_rebase_merge,
            allow_squash_merge,
            auto_init,
            delete_branch_on_merge,
            description,
            gitignore_template,
            has_issues,
            has_projects,
            has_wiki,
            homepage,
            is_template,
            license_template,
            name,
            private,
        } => {
            let command_args = CreateRepoArgs {
                allow_auto_merge,
                allow_merge_commit,
                allow_rebase_merge,
                allow_squash_merge,
                auto_init,
                delete_branch_on_merge,
                has_issues,
                has_projects,
                has_wiki,
                is_template,
                private,
                description,
                gitignore_template,
                homepage,
                license_template,
                name,
            };
            handle_create_for_auth_user(command_args)
        },
        RepoCommand::CreateInOrg {
            allow_auto_merge,
            allow_merge_commit,
            allow_rebase_merge,
            allow_squash_merge,
            auto_init,
            delete_branch_on_merge,
            description,
            gitignore_template,
            has_issues,
            has_projects,
            has_wiki,
            homepage,
            is_template,
            license_template,
            name,
            org,
            team_name,
            visibility,
        } => {
            let command_args = CreateRepoArgs {
                allow_auto_merge,
                allow_merge_commit,
                allow_rebase_merge,
                allow_squash_merge,
                auto_init,
                delete_branch_on_merge,
                has_issues,
                has_projects,
                has_wiki,
                is_template,
                private: None,
                description,
                gitignore_template,
                homepage,
                license_template,
                name: name.trim().to_owned(),
            };
            handle_create_in_org(command_args, name, org, team_name, visibility)
        },
        RepoCommand::GetAllFromOrg { org, order, sort_value, type_value } => {
            handle_get_all_from_org(org, order, type_value, sort_value)
        },
        RepoCommand::CreateUsingTemplate {
            template_owner,
            template_name,
            name,
            owner,
            description,
            private,
            include_all_branches,
        } => handle_create_using_template(
            owner,
            name,
            template_owner,
            template_name,
            description,
            include_all_branches,
            private,
        ),
        RepoCommand::CreateFork { org, name, owner } => handle_create_fork(owner, name, org),
        RepoCommand::GetAllFromUser { owner, order, sort_value, type_value } => {
            handle_get_all_from_user(owner, type_value, sort_value, order)
        },
    }
}

/// Creates a repository for the signed-in user.
pub fn handle_create_for_auth_user(command_args: CreateRepoArgs) -> (turn: Turn)
    ensures
        creates_for_user(command_args, turn),
{
    call(
        repos::create_for_authenticated_user(command_args),
        Pending::Message("Success".to_owned()),
    )
}

/// Creates a repository in an organisation. The team is looked up first,
/// and the repository is created only once the team is found.
pub fn handle_create_in_org(
    command_args: CreateRepoArgs,
    name: RepoName,
    org: RepoOwner,
    team_name: String,
    visibility: Visibilities,
) -> (turn: Turn)
    ensures
        begins(
            Task::RepoCreateInOrg { args: command_args, team_name, visibility },
            RepoId { owner: org@, name: name@ },
            turn,
        ),
{
    start(
        Some(org),
        Some(name),
        Task::RepoCreateInOrg { args: command_args, team_name, visibility },
    )
}

/// Lists the repositories of an organisation.
pub fn handle_get_all_from_org(
    org: String,
    order: Orders,
    type_value: ReposListOrgTypes,
    sort_value: ReposListOrgSorts,
) -> (turn: Turn)
    ensures
        lists_org(org, order, type_value, sort_value, turn),
{
    let request = repos::get_all_from_org(org.as_str(), order.0, type_value.0, sort_value.0);
    call(request, Pending::Repos { owner: org, owner_type: "org".to_owned() })
}

/// Creates a repository from a template.
pub fn handle_create_using_template(
    owner: RepoOwner,
    name: RepoName,
    template_owner: RepoOwner,
    template_name: RepoName,
    description: String,
    include_all_branches: Option<bool>,
    private: Option<bool>,
) -> (turn: Turn)
    ensures
        creates_from_template(
            owner,
            name,
            template_owner,
            template_name,
            CreateRepoFromTemplateArgs { description, include_all_branches, private },
            turn,
        ),
{
    let args = CreateRepoFromTemplateArgs { description, include_all_branches, private };
    let repo_info = match RepoInfo::new(Repo::Input, Some(owner), Some(name), None) {
        Ok(repo_info) => repo_info,
        Err(e) => {
            return fail(Error::Resolution(e));
        },
    };
    match RepoInfo::new(Repo::Input, Some(template_owner), Some(template_name), None) {
        Ok(template) => begin(Task::RepoCreateUsingTemplate { template, args }, repo_info),
        Err(e) => fail(Error::Resolution(e)),
    }
}

/// Forks a repository.
pub fn handle_create_fork(owner: RepoOwner, name: RepoName, org: String) -> (turn: Turn)
    ensures
        begins(Task::RepoCreateFork { org }, RepoId { owner: owner@, name: name@ }, turn),
{
    start(Some(owner), Some(name), Task::RepoCreateFork { org })
}

/// Lists the repositories of a user.
pub fn handle_get_all_from_user(
    owner: String,
    type_value: ReposListUserTypes,
    sort_value: ReposListOrgSorts,
    order: Orders,
) -> (turn: Turn)
    ensures
        lists_user(owner, type_value, sort_value, order, turn),
{
    let request = repos::get_all_from_user(owner.clone(), type_value.0, sort_value.0, order.0);
    call(request, Pending::Repos { owner, owner_type: "user".to_owned() })
}

} // verus!
