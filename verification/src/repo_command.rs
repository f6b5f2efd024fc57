//! The commands on repositories, with their arguments as they were read.

use crate::repo_info::{RepoName, RepoOwner};
use crate::set_vars::{
    Orders, ReposListOrgSorts, ReposListOrgTypes, ReposListUserTypes, Visibilities,
};
use vstd::prelude::*;

verus! {

#[derive(Debug, Clone, PartialEq, Eq)]
pub enum RepoCommand {
    /// Create a repository for the signed-in user.
    CreateForAuthenticatedUser {
        allow_auto_merge: Option<bool>,
        allow_merge_commit: Option<bool>,
        allow_rebase_merge: Option<bool>,
        allow_squash_merge: Option<bool>,
        auto_init: Option<bool>,
        delete_branch_on_merge: Option<bool>,
        description: String,
        gitignore_template: String,
        has_issues: Option<bool>,
        has_projects: Option<bool>,
        has_wiki: Option<bool>,
        homepage: String,
        is_template: Option<bool>,
        license_template: String,
        name: String,
        private: Option<bool>,
    },
    /// Create a repository in an organisation, for one of its teams.
    CreateInOrg {
        allow_auto_merge: Option<bool>,
        allow_merge_commit: Option<bool>,
        allow_rebase_merge: Option<bool>,
        allow_squash_merge: Option<bool>,
        auto_init: Option<bool>,
        delete_branch_on_merge: Option<bool>,
        description: String,
        gitignore_template: String,
        has_issues: Option<bool>,
        has_projects: Option<bool>,
        has_wiki: Option<bool>,
        homepage: String,
        is_template: Option<bool>,
        license_template: String,
        name: RepoName,
        org: RepoOwner,
        team_name: String,
        visibility: Visibilities,
    },
    /// Create a repository from a template.
    CreateUsingTemplate {
        template_owner: RepoOwner,
        template_name: RepoName,
        name: RepoName,
        owner: RepoOwner,
        description: String,
        private: Option<bool>,
        include_all_branches: Option<bool>,
    },
    /// Fork a repository, into an organisation where one is named.
    CreateFork { name: RepoName, owner: RepoOwner, org: String },
    /// Get all repositories of an organisation.
    GetAllFromOrg {
        org: String,
        order: Orders,
        sort_value: ReposListOrgSorts,
        type_value: ReposListOrgTypes,
    },
    /// Get all repositories of a user.
    GetAllFromUser {
        owner: String,
        order: Orders,
        sort_value: ReposListOrgSorts,
        type_value: ReposListUserTypes,
    },
}

} // verus!
