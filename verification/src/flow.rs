//! The course of a command. A command is resolved to a repository, makes its
//! requests one after the other, and ends; at every step the library says
//! what is to be printed and what is to be done next, and the program around
//! it does that and reports back.

use crate::api::{ApiReply, ApiRequest, ApiResponse};
use crate::comments;
use crate::entities::{
    CreateReleaseArgs, CreateRepoArgs, CreateRepoFromTemplateArgs, ListIssueArgs,
    UpdateIssueArgs,
};
use crate::error::{Error, Field, PrintError, PrintErrorKind, ValidationError};
use crate::fuzzy_select::{choose_issue, chosen, issue_titles, titles};
use crate::issues;
use crate::print_in_cli::{
    comments_shown, issue_lines, issues_lines, missing_author, print_comments, print_issue,
    print_issues, print_release, print_repos, print_review_comments, print_simple_issue,
    print_url, release_lines, repos_lines, review_comments_shown, simple_issue_lines, url_lines,
};
use crate::releases;
use crate::repo_info::{
    name_text, owner_text, release_url, resolve, ssh_url, text_of, Repo, RepoId, RepoInfo,
    RepoName, RepoOwner,
};
use crate::repos;
use crate::set_vars::{
    check_page_size, is_page_size, CommentTarget, IssuesListStates, Orders, Sorts, Visibilities,
};
use crate::teams;
use crate::text::{split_list, split_list_text, views};
use crate::types::{
    Issue, IssueSimple, Order, ReposCreateInOrgRequestVisibility, Sort,
};
use vstd::prelude::*;

verus! {

/// What a command does once its repository is known.
#[derive(Debug, PartialEq, Eq)]
pub enum Task {
    IssueList(ListIssueArgs),
    IssueGet { number: i64 },
    IssueGetFromList(ListIssueArgs),
    IssueCreate { title: String, body: String, assignees: String, labels: String },
    IssueClose { number: i64, comment: String },
    IssueUpdate { args: UpdateIssueArgs, labels: Option<String>, assignees: Option<String> },
    CommentCreate { number: i64, body: String },
    CommentGetAll { number: i64, target: CommentTarget },
    CommentGetAllFromReview { number: i64, sort: Sorts, order: Orders },
    ReleaseCreate(CreateReleaseArgs),
    ReleaseGetLatest,
    ReleaseGetByTag { tag: String },
    ReleaseGetById { id: i64 },
    RepoCreateInOrg { args: CreateRepoArgs, team_name: String, visibility: Visibilities },
    RepoCreateUsingTemplate { template: RepoInfo, args: CreateRepoFromTemplateArgs },
    RepoCreateFork { org: String },
}

/// What a command does with the answer to the request that it has made.
#[derive(Debug, PartialEq, Eq)]
pub enum Pending {
    /// Say the message.
    Message(String),
    /// Show the address.
    Url { url: String, description: String },
    /// Show the page of issues.
    Issues { state: IssuesListStates, page: i64 },
    /// Keep the issue and ask for its comments.
    Issue { repo_info: RepoInfo, number: i64 },
    /// Show the issue with its comments.
    IssueComments { issue: Issue },
    /// Let the user pick one of the issues.
    IssueChoice { repo_info: RepoInfo },
    /// Show the picked issue with its comments.
    SimpleIssueComments { issue: IssueSimple },
    /// The comment is written: say so, and close the issue.
    CloseAfterComment { repo_info: RepoInfo, number: i64 },
    /// Show the comments, and ask for the review comments of a pull request.
    Comments { repo_info: RepoInfo, number: i64, target: CommentTarget },
    /// Show the review comments, if there are any.
    ReviewCommentsIfAny,
    /// Show the review comments.
    ReviewComments,
    /// Show the release.
    Release,
    /// The team is found: create the repository for it.
    Team {
        repo_info: RepoInfo,
        args: CreateRepoArgs,
        visibility: Option<ReposCreateInOrgRequestVisibility>,
    },
    /// Show the repositories.
    Repos { owner: String, owner_type: String },
}

/// The issues that the user picks from.
#[derive(Debug, PartialEq, Eq)]
pub struct Choosing {
    pub repo_info: RepoInfo,
    pub list: Vec<IssueSimple>,
}

/// What is to be done next.
#[derive(Debug, PartialEq, Eq)]
pub enum Next {
    /// The command is being resolved: look up the address of the `origin`
    /// remote, and hand it to `resolved`.
    LookupRemote(Task),
    /// The command is being executed: make the request, and hand the answer
    /// to `replied`.
    Call(ApiRequest, Pending),
    /// The command is being executed: let the user pick one of the titles,
    /// and hand the pick to `picked`.
    Choose(Vec<String>, Choosing),
    /// The command is over: it has succeeded, or it has failed with an
    /// error to report.
    Exit(Result<(), Error>),
}

/// One step of a command: the lines to print now, and what to do after.
#[derive(Debug, PartialEq, Eq)]
pub struct Turn {
    pub lines: Vec<String>,
    pub next: Next,
}

/// The confirmation of a request that went through.
pub open spec fn success() -> Seq<char> {
    "Success"@
}

/// The confirmation of a comment that was written.
pub open spec fn comment_created() -> Seq<char> {
    "Comment create successed"@
}

/// The description of the error for an answer of the wrong kind.
pub open spec fn unexpected_response() -> Seq<char> {
    "Response is not of the expected kind"@
}

/// What is said where the user picked no issue.
pub open spec fn nothing_chosen() -> Seq<char> {
    "Issue not choosed or not find"@
}

impl Pending {
    /// Whether the answer is only confirmed with the message `m`.
    pub open spec fn says(self, m: Seq<char>) -> bool {
        self matches Pending::Message(message) && message@ == m
    }

    /// Whether the answer is only confirmed by showing the address `url`
    /// as that of `description`.
    pub open spec fn shows(self, url: Seq<char>, description: Seq<char>) -> bool {
        self matches Pending::Url { url: u, description: d } && u@ == url && d@ == description
    }

    /// How many requests can still follow the one that is under way.
    pub open spec fn requests_ahead(self) -> nat {
        match self {
            Pending::Issue { .. } => 1,
            Pending::IssueChoice { .. } => 1,
            Pending::CloseAfterComment { .. } => 1,
            Pending::Comments { .. } => 1,
            Pending::Team { .. } => 1,
            _ => 0,
        }
    }
}

impl Next {
    /// How many steps a command can still take, at most.
    pub open spec fn steps_ahead(self) -> nat {
        match self {
            Next::LookupRemote(_) => 4,
            Next::Call(_, pending) => 1 + 2 * pending.requests_ahead(),
            Next::Choose(_, _) => 2,
            Next::Exit(_) => 0,
        }
    }
}

impl Turn {
    /// Nothing is printed.
    pub open spec fn quiet(self) -> bool {
        self.lines@.len() == 0
    }

    /// These lines are printed.
    pub open spec fn prints(self, lines: Seq<Seq<char>>) -> bool {
        views(self.lines@) == lines
    }

    /// The command ends with success.
    pub open spec fn succeeds(self) -> bool {
        self.next == Next::Exit(Ok(()))
    }

    /// The command ends with the error `e`.
    pub open spec fn fails(self, e: Error) -> bool {
        self.next == Next::Exit(Err(e))
    }

    /// The command ends because a response cannot be displayed, for the
    /// reason that `description` gives.
    pub open spec fn fails_to_print(self, description: Seq<char>) -> bool {
        &&& self.next matches Next::Exit(Err(Error::Print(e)))
        &&& e.kind == PrintErrorKind::BadResponse
        &&& e.description@ == description
    }

    /// The command ends: with success where everything could be displayed,
    /// and else with the error for a missing author.
    pub open spec fn ends(self, complete: bool) -> bool {
        if complete {
            self.succeeds()
        } else {
            self.fails_to_print(missing_author())
        }
    }

    /// Nothing is printed, and the command ends because the answer is not of
    /// the kind that was asked for.
    pub open spec fn rejects(self) -> bool {
        self.quiet() && self.fails_to_print(unexpected_response())
    }

    /// The command is over.
    pub open spec fn is_over(self) -> bool {
        self.next is Exit
    }

    /// A request is made.
    pub open spec fn makes_request(self) -> bool {
        self.next is Call
    }
}

/// The items of a comma separated list that may be absent.
pub open spec fn list_of(s: Option<String>) -> Seq<Seq<char>> {
    match s {
        Some(s) => split_list(s@),
        None => Seq::empty(),
    }
}

/// Why a task is refused before anything is done for it: a listing for its
/// page size, which has to be from 1 to 100, and a new issue for its title,
/// which may not be empty.
pub open spec fn refusal(task: Task) -> Option<ValidationError> {
    match task {
        Task::IssueList(args) => if is_page_size(args.iss_on_page as int) {
            None
        } else {
            Some(ValidationError::PageSizeOutOfRange)
        },
        Task::IssueGetFromList(args) => if is_page_size(args.iss_on_page as int) {
            None
        } else {
            Some(ValidationError::PageSizeOutOfRange)
        },
        Task::IssueCreate { title, .. } => if title@.len() > 0 {
            None
        } else {
            Some(ValidationError::EmptyField(Field::IssueTitle))
        },
        _ => None,
    }
}

/// The first step of a task on the repository `id`: what it takes to be
/// `turn`. A task that is refused ends the command.
pub open spec fn begins(task: Task, id: RepoId, turn: Turn) -> bool {
    match refusal(task) {
        Some(e) => turn.quiet() && turn.fails(Error::Validation(e)),
        None => requests(task, id, turn),
    }
}

/// The first step of a task that is not refused: the request that it makes
/// of the repository `id`, and what it does with the answer.
pub open spec fn requests(task: Task, id: RepoId, turn: Turn) -> bool {
    match task {
        Task::IssueList(args) => {
            &&& turn.quiet()
            &&& turn.next matches Next::Call(request, pending)
            &&& issues::is_get_list(request, id, args)
            &&& pending == (Pending::Issues { state: args.state, page: args.numb_of_page })
        },
        Task::IssueGet { number } => {
            &&& turn.quiet()
            &&& turn.next matches Next::Call(request, pending)
            &&& issues::is_get(request, id, number)
            &&& pending matches Pending::Issue { repo_info, number: n }
            &&& repo_info@ == id
            &&& n == number
        },
        Task::IssueGetFromList(args) => {
            &&& turn.quiet()
            &&& turn.next matches Next::Call(request, pending)
            &&& issues::is_get_list(request, id, args)
            &&& pending matches Pending::IssueChoice { repo_info }
            &&& repo_info@ == id
        },
        Task::IssueCreate { title, body, assignees, labels } => {
            &&& turn.quiet()
            &&& turn.next matches Next::Call(request, pending)
            &&& issues::is_create(
                request,
                id,
                title@,
                body@,
                split_list(assignees@),
                split_list(labels@),
            )
            &&& pending.says(success())
        },
        Task::IssueClose { number, comment } => if comment@.len() > 0 {
            &&& turn.quiet()
            &&& turn.next matches Next::Call(request, pending)
            &&& comments::is_create(request, id, number, comment@)
            &&& pending matches Pending::CloseAfterComment { repo_info, number: n }
            &&& repo_info@ == id
            &&& n == number
        } else {
            &&& turn.quiet()
            &&& turn.next matches Next::Call(request, pending)
            &&& issues::is_close(request, id, number)
            &&& pending.says(success())
        },
        Task::IssueUpdate { args, labels, assignees } => {
            &&& turn.quiet()
            &&& turn.next matches Next::Call(request, pending)
            &&& issues::is_update(request, id, args, list_of(assignees), list_of(labels))
            &&& pending.says(success())
        },
        Task::CommentCreate { number, body } => {
            &&& turn.quiet()
            &&& turn.next matches Next::Call(request, pending)
            &&& comments::is_create(request, id, number, body@)
            &&& pending.says(comment_created())
        },
        Task::CommentGetAll { number, target } => {
            &&& turn.quiet()
            &&& turn.next matches Next::Call(request, pending)
            &&& comments::is_get_all(request, id, number)
            &&& pending matches Pending::Comments { repo_info, number: n, target: t }
            &&& repo_info@ == id
            &&& n == number
            &&& t == target
        },
        Task::CommentGetAllFromReview { number, sort, order } => {
            &&& turn.quiet()
            &&& turn.next matches Next::Call(request, pending)
            &&& comments::is_get_all_from_review(request, id, number, sort.0, order.0)
            &&& pending == Pending::ReviewComments
        },
        Task::ReleaseCreate(args) => {
            &&& turn.quiet()
            &&& turn.next matches Next::Call(request, pending)
            &&& releases::is_create(request, id, args)
            &&& pending.shows(release_url(id.owner, id.name, args.tag_name@), "New release"@)
        },
        Task::ReleaseGetLatest => {
            &&& turn.quiet()
            &&& turn.next matches Next::Call(request, pending)
            &&& releases::is_get_latest(request, id)
            &&& pending == Pending::Release
        },
        Task::ReleaseGetByTag { tag } => {
            &&& turn.quiet()
            &&& turn.next matches Next::Call(request, pending)
            &&& releases::is_get_by_tag(request, id, tag)
            &&& pending == Pending::Release
        },
        Task::ReleaseGetById { id: release_id } => {
            &&& turn.quiet()
            &&& turn.next matches Next::Call(request, pending)
            &&& releases::is_get_by_id(request, id, release_id)
            &&& pending == Pending::Release
        },
        Task::RepoCreateInOrg { args, team_name, visibility } => {
            &&& turn.quiet()
            &&& turn.next matches Next::Call(request, pending)
            &&& teams::is_get_id(request, id.owner, team_name@)
            &&& pending matches Pending::Team { repo_info, args: a, visibility: v }
            &&& repo_info@ == id
            &&& a == args
            &&& v == Some(visibility.0)
        },
        Task::RepoCreateUsingTemplate { template, args } => {
            &&& turn.quiet()
            &&& turn.next matches Next::Call(request, pending)
            &&& repos::is_create_using_template(request, template@, id, args)
            &&& pending.shows(ssh_url(id.owner, id.name), "New repo"@)
        },
        Task::RepoCreateFork { org } => {
            &&& turn.quiet()
            &&& turn.next matches Next::Call(request, pending)
            &&& repos::is_create_fork(request, org@, id)
            &&& pending.says(success())
        },
    }
}

/// The step that follows the lookup of the remote: what it takes to be
/// `turn`. A failed resolution ends the command; otherwise the task begins
/// on the repository that the remote stands for.
pub open spec fn resolves(task: Task, remote: Option<Seq<char>>, turn: Turn) -> bool {
    match resolve(Repo::Current, None, None, remote) {
        Err(e) => turn.quiet() && turn.fails(Error::Resolution(e)),
        Ok(id) => begins(task, id, turn),
    }
}

/// The first step of a command that may name its repository: what it takes
/// to be `turn`. A task that is refused ends the command before anything
/// else is done. With an owner the repository is the one that is named, and
/// a failed resolution ends the command; without an owner the remote has to
/// be looked up first.
pub open spec fn starts(
    owner: Option<RepoOwner>,
    repo: Option<RepoName>,
    task: Task,
    turn: Turn,
) -> bool {
    match refusal(task) {
        Some(e) => turn.quiet() && turn.fails(Error::Validation(e)),
        None => match owner {
            Some(_) => match resolve(Repo::Input, owner_text(owner), name_text(repo), None) {
                Err(e) => turn.quiet() && turn.fails(Error::Resolution(e)),
                Ok(id) => requests(task, id, turn),
            },
            None => turn.quiet() && turn.next == Next::LookupRemote(task),
        },
    }
}

/// The step that follows an answer of the service: what it takes to be
/// `turn`.
pub open spec fn replies(pending: Pending, reply: ApiReply, turn: Turn) -> bool {
    match reply {
        Err(e) => turn.quiet() && turn.fails(Error::Api(e)),
        Ok(response) => match pending {
            Pending::Message(message) => turn.prints(seq![message@]) && turn.succeeds(),
            Pending::Url { url, description } => turn.prints(url_lines(url@, description@))
                && turn.succeeds(),
            Pending::Issues { state, page } => match response {
                ApiResponse::Issues(list) => turn.prints(issues_lines(list@, state, page))
                    && turn.succeeds(),
                _ => turn.rejects(),
            },
            Pending::Issue { repo_info, number } => match response {
                ApiResponse::Issue(issue) => {
                    &&& turn.quiet()
                    &&& turn.next matches Next::Call(request, then)
                    &&& comments::is_get_all(request, repo_info@, number)
                    &&& then == (Pending::IssueComments { issue })
                },
                _ => turn.rejects(),
            },
            Pending::IssueComments { issue } => match response {
                ApiResponse::Comments(list) => turn.prints(
                    issue_lines(issue) + comments_shown(list@).lines,
                ) && turn.ends(comments_shown(list@).complete),
                _ => turn.rejects(),
            },
            Pending::IssueChoice { repo_info } => match response {
                ApiResponse::Issues(list) => {
                    &&& turn.quiet()
                    &&& turn.next matches Next::Choose(offered, choosing)
                    &&& views(offered@) == titles(list@)
                    &&& choosing.repo_info@ == repo_info@
                    &&& choosing.list == list
                },
                _ => turn.rejects(),
            },
            Pending::SimpleIssueComments { issue } => match response {
                ApiResponse::Comments(list) => turn.prints(
                    simple_issue_lines(issue) + comments_shown(list@).lines,
                ) && turn.ends(comments_shown(list@).complete),
                _ => turn.rejects(),
            },
            Pending::CloseAfterComment { repo_info, number } => {
                &&& turn.prints(seq![comment_created()])
                &&& turn.next matches Next::Call(request, then)
                &&& issues::is_close(request, repo_info@, number)
                &&& then.says(success())
            },
            Pending::Comments { repo_info, number, target } => match response {
                ApiResponse::Comments(list) => {
                    &&& turn.prints(comments_shown(list@).lines)
                    &&& if !comments_shown(list@).complete {
                        turn.fails_to_print(missing_author())
                    } else if target == CommentTarget::PullRequest {
                        &&& turn.next matches Next::Call(request, then)
                        &&& comments::is_get_all_from_review(
                            request,
                            repo_info@,
                            number,
                            Sort::Created,
                            Order::Asc,
                        )
                        &&& then == Pending::ReviewCommentsIfAny
                    } else {
                        turn.succeeds()
                    }
                },
                _ => turn.rejects(),
            },
            Pending::ReviewCommentsIfAny => match response {
                ApiResponse::ReviewComments(list) => if list@.len() == 0 {
                    turn.quiet() && turn.succeeds()
                } else {
                    turn.prints(review_comments_shown(list@).lines) && turn.ends(
                        review_comments_shown(list@).complete,
                    )
                },
                _ => turn.rejects(),
            },
            Pending::ReviewComments => match response {
                ApiResponse::ReviewComments(list) => turn.prints(
                    review_comments_shown(list@).lines,
                ) && turn.ends(review_comments_shown(list@).complete),
                _ => turn.rejects(),
            },
            Pending::Release => match response {
                ApiResponse::Release(release) => turn.prints(release_lines(release))
                    && turn.succeeds(),
                _ => turn.rejects(),
            },
            Pending::Team { repo_info, args, visibility } => match response {
                ApiResponse::Team(team) => {
                    &&& turn.quiet()
                    &&& turn.next matches Next::Call(request, then)
                    &&& repos::is_create_in_org(request, repo_info@, args, team.id, visibility)
                    &&& then.shows(ssh_url(repo_info@.owner, repo_info@.name), "New repo"@)
                },
                _ => turn.rejects(),
            },
            Pending::Repos { owner, owner_type } => match response {
                ApiResponse::Repositories(list) => turn.prints(
                    repos_lines(list@, owner@, owner_type@),
                ) && turn.succeeds(),
                _ => turn.rejects(),
            },
        },
    }
}

/// The step that follows the user's pick: what it takes to be `turn`.
pub open spec fn picks(choosing: Choosing, choice: Option<Seq<char>>, turn: Turn) -> bool {
    match chosen(choosing.list@, choice) {
        Err(e) => turn.quiet() && turn.fails(Error::Validation(e)),
        Ok(None) => turn.prints(seq![nothing_chosen()]) && turn.succeeds(),
        Ok(Some(issue)) => {
            &&& turn.quiet()
            &&& turn.next matches Next::Call(request, then)
            &&& comments::is_get_all(request, choosing.repo_info@, issue.number)
            &&& then == (Pending::SimpleIssueComments { issue })
        },
    }
}

/// Makes a request, and prints nothing before.
pub fn call(request: ApiRequest, pending: Pending) -> (turn: Turn)
    ensures
        turn.quiet(),
        turn.next == Next::Call(request, pending),
{
    Turn { lines: Vec::new(), next: Next::Call(request, pending) }
}

/// Ends the command with an error, and prints nothing before.
pub fn fail(e: Error) -> (turn: Turn)
    ensures
        turn.quiet(),
        turn.fails(e),
{
    Turn { lines: Vec::new(), next: Next::Exit(Err(e)) }
}

/// Prints the lines and ends the command with success.
pub fn finish(lines: Vec<String>) -> (turn: Turn)
    ensures
        turn.lines == lines,
        turn.succeeds(),
{
    Turn { lines, next: Next::Exit(Ok(())) }
}

/// Prints the lines and ends the command: with success, or with the error
/// that the display ran into.
fn end(lines: Vec<String>, verdict: Result<(), PrintError>) -> (turn: Turn)
    ensures
        turn.lines == lines,
        match verdict {
            Ok(_) => turn.succeeds(),
            Err(e) => turn.next == Next::Exit(Err(Error::Print(e))),
        },
{
    match verdict {
        Ok(_) => finish(lines),
        Err(e) => Turn { lines, next: Next::Exit(Err(Error::Print(e))) },
    }
}

/// Ends the command because the answer is not of the kind that was asked
/// for.
fn reject() -> (turn: Turn)
    ensures
        turn.rejects(),
{
    fail(
        Error::Print(PrintError::bad_response("Response is not of the expected kind".to_owned())),
    )
}

/// The pending confirmation with the message `message`.
fn confirm(message: &str) -> (pending: Pending)
    ensures
        pending.says(message@),
{
    Pending::Message(message.to_owned())
}

/// One line, as the only line.
fn one_line(line: &str) -> (lines: Vec<String>)
    ensures
        views(lines@) == seq![line@],
{
    let mut lines: Vec<String> = Vec::new();
    lines.push(line.to_owned());
    assert(views(lines@) =~= seq![line@]);
    lines
}

/// The items of a comma separated list that may be absent.
fn list_of_text(s: &Option<String>) -> (r: Vec<String>)
    ensures
        views(r@) == list_of(*s),
{
    match s {
        Some(s) => split_list_text(s.as_str()),
        None => {
            let r: Vec<String> = Vec::new();
            assert(views(r@) =~= Seq::<Seq<char>>::empty());
            r
        },
    }
}

/// Why a task is refused, if it is.
pub fn refuse(task: &Task) -> (r: Option<ValidationError>)
    ensures
        r == refusal(*task),
{
    match task {
        Task::IssueList(args) => match check_page_size(args.iss_on_page) {
            Ok(_) => None,
            Err(e) => Some(e),
        },
        Task::IssueGetFromList(args) => match check_page_size(args.iss_on_page) {
            Ok(_) => None,
            Err(e) => Some(e),
        },
        Task::IssueCreate { title, .. } => if title.as_str().is_empty() {
            Some(ValidationError::EmptyField(Field::IssueTitle))
        } else {
            None
        },
        _ => None,
    }
}

/// Takes the first step of a task on a repository.
pub fn begin(task: Task, repo_info: RepoInfo) -> (turn: Turn)
    ensures
        begins(task, repo_info@, turn),
{
    match refuse(&task) {
        Some(e) => {
            return fail(Error::Validation(e));
        },
        None => {},
    }
    match task {
        Task::IssueList(args) => match issues::get_list(&repo_info, &args) {
            Ok(request) => call(
                request,
                Pending::Issues { state: args.state, page: args.numb_of_page },
            ),
            Err(e) => fail(Error::Validation(e)),
        },
        Task::IssueGet { number } => {
            let request = issues::get(&repo_info, number);
            call(request, Pending::Issue { repo_info, number })
        },
        Task::IssueGetFromList(args) => match issues::get_list(&repo_info, &args) {
            Ok(request) => call(request, Pending::IssueChoice { repo_info }),
            Err(e) => fail(Error::Validation(e)),
        },
        Task::IssueCreate { title, body, assignees, labels } => {
            let labels_list = split_list_text(labels.as_str());
            let assignees_list = split_list_text(assignees.as_str());
            let request = issues::create(
                &repo_info,
                title.as_str(),
                body.as_str(),
                assignees_list.as_slice(),
                labels_list.as_slice(),
            );
            call(request, confirm("Success"))
        },
        Task::IssueClose { number, comment } => {
            if !comment.as_str().is_empty() {
                let request = comments::create(&repo_info, number, &comment);
                call(request, Pending::CloseAfterComment { repo_info, number })
            } else {
                call(issues::close(&repo_info, number), confirm("Success"))
            }
        },
        Task::IssueUpdate { args, labels, assignees } => {
            let labels_list = list_of_text(&labels);
            let assignees_list = list_of_text(&assignees);
            let request = issues::update(
                &repo_info,
                args,
                assignees_list.as_slice(),
                labels_list.as_slice(),
            );
            call(request, confirm("Success"))
        },
        Task::CommentCreate { number, body } => call(
            comments::create(&repo_info, number, &body),
            confirm("Comment create successed"),
        ),
        Task::CommentGetAll { number, target } => {
            let request = comments::get_all(&repo_info, number);
            call(request, Pending::Comments { repo_info, number, target })
        },
        Task::CommentGetAllFromReview { number, sort, order } => call(
            comments::get_all_from_review(&repo_info, number, sort.0, order.0),
            Pending::ReviewComments,
        ),
        Task::ReleaseCreate(args) => {
            let (request, url) = releases::create(&repo_info, args);
            call(request, Pending::Url { url, description: "New release".to_owned() })
        },
        Task::ReleaseGetLatest => call(releases::get_latest(&repo_info), Pending::Release),
        Task::ReleaseGetByTag { tag } => call(
            releases::get_by_tag(&repo_info, tag),
            Pending::Release,
        ),
        Task::ReleaseGetById { id } => call(releases::get_by_id(&repo_info, id), Pending::Release),
        Task::RepoCreateInOrg { args, team_name, visibility } => {
            let owner = repo_info.get_owner();
            let request = teams::get_id(owner.as_str(), team_name.as_str());
            call(request, Pending::Team { repo_info, args, visibility: Some(visibility.0) })
        },
        Task::RepoCreateUsingTemplate { template, args } => {
            let (request, ssh) = repos::create_using_template(&template, &repo_info, args);
            call(request, Pending::Url { url: ssh, description: "New repo".to_owned() })
        },
        Task::RepoCreateFork { org } => call(
            repos::create_fork(org.as_str(), &repo_info),
            confirm("Success"),
        ),
    }
}

/// Takes the first step of a command that may name its repository.
pub fn start(owner: Option<RepoOwner>, repo: Option<RepoName>, task: Task) -> (turn: Turn)
    ensures
        starts(owner, repo, task, turn),
{
    match refuse(&task) {
        Some(e) => {
            return fail(Error::Validation(e));
        },
        None => {},
    }
    match owner {
        Some(_) => match RepoInfo::new(Repo::Input, owner, repo, None) {
            Ok(repo_info) => begin(task, repo_info),
            Err(e) => fail(Error::Resolution(e)),
        },
        None => Turn { lines: Vec::new(), next: Next::LookupRemote(task) },
    }
}

/// Goes on after the lookup of the remote. `remote` is the address of the
/// `origin` remote, or nothing where there is no git repository or no such
/// remote.
pub fn resolved(task: Task, remote: Option<&str>) -> (turn: Turn)
    ensures
        resolves(task, text_of(remote), turn),
{
    match RepoInfo::new(Repo::Current, None, None, remote) {
        Ok(repo_info) => begin(task, repo_info),
        Err(e) => fail(Error::Resolution(e)),
    }
}

/// The lines of something that was shown first, then those of the comments.
fn with_comments(first: Vec<String>, list: &Vec<crate::types::IssueComment>) -> (turn: Turn)
    ensures
        turn.prints(views(first@) + comments_shown(list@).lines),
        turn.ends(comments_shown(list@).complete),
{
    let mut lines = first;
    let (mut more, verdict) = print_comments(list);
    let ghost a = views(lines@);
    let ghost b = views(more@);
    lines.append(&mut more);
    assert(views(lines@) =~= a + b);
    end(lines, verdict)
}

/// Goes on after an answer of the service.
pub fn replied(pending: Pending, reply: ApiReply) -> (turn: Turn)
    ensures
        replies(pending, reply, turn),
{
    let response = match reply {
        Err(e) => {
            return fail(Error::Api(e));
        },
        Ok(response) => response,
    };
    match pending {
        Pending::Message(message) => {
            let mut lines: Vec<String> = Vec::new();
            lines.push(message);
            assert(views(lines@) =~= seq![message@]);
            finish(lines)
        },
        Pending::Url { url, description } => finish(
            print_url(url.as_str(), description.as_str()),
        ),
        Pending::Issues { state, page } => match response {
            ApiResponse::Issues(list) => finish(print_issues(&list, state, page)),
            _ => reject(),
        },
        Pending::Issue { repo_info, number } => match response {
            ApiResponse::Issue(issue) => call(
                comments::get_all(&repo_info, number),
                Pending::IssueComments { issue },
            ),
            _ => reject(),
        },
        Pending::IssueComments { issue } => match response {
            ApiResponse::Comments(list) => with_comments(print_issue(&issue), &list),
            _ => reject(),
        },
        Pending::IssueChoice { repo_info } => match response {
            ApiResponse::Issues(list) => {
                let offered = issue_titles(&list);
                Turn {
                    lines: Vec::new(),
                    next: Next::Choose(offered, Choosing { repo_info, list }),
                }
            },
            _ => reject(),
        },
        Pending::SimpleIssueComments { issue } => match response {
            ApiResponse::Comments(list) => with_comments(print_simple_issue(&issue), &list),
            _ => reject(),
        },
        Pending::CloseAfterComment { repo_info, number } => Turn {
            lines: one_line("Comment create successed"),
            next: Next::Call(issues::close(&repo_info, number), confirm("Success")),
        },
        Pending::Comments { repo_info, number, target } => match response {
            ApiResponse::Comments(list) => {
                let (lines, verdict) = print_comments(&list);
                match verdict {
                    Err(e) => Turn { lines, next: Next::Exit(Err(Error::Print(e))) },
                    Ok(_) => match target {
                        CommentTarget::PullRequest => Turn {
                            lines,
                            next: Next::Call(
                                comments::get_all_from_review(
                                    &repo_info,
                                    number,
                                    Sort::Created,
                                    Order::Asc,
                                ),
                                Pending::ReviewCommentsIfAny,
                            ),
                        },
                        CommentTarget::Issue => finish(lines),
                    },
                }
            },
            _ => reject(),
        },
        Pending::ReviewCommentsIfAny => match response {
            ApiResponse::ReviewComments(list) => {
                if list.len() == 0 {
                    finish(Vec::new())
                } else {
                    let (lines, verdict) = print_review_comments(&list);
                    end(lines, verdict)
                }
            },
            _ => reject(),
        },
        Pending::ReviewComments => match response {
            ApiResponse::ReviewComments(list) => {
                let (lines, verdict) = print_review_comments(&list);
                end(lines, verdict)
            },
            _ => reject(),
        },
        Pending::Release => match response {
            ApiResponse::Release(release) => finish(print_release(&release)),
            _ => reject(),
        },
        Pending::Team { repo_info, args, visibility } => match response {
            ApiResponse::Team(team) => {
                let (request, ssh) = repos::create_in_org(&repo_info, args, team.id, visibility);
                call(request, Pending::Url { url: ssh, description: "New repo".to_owned() })
            },
            _ => reject(),
        },
        Pending::Repos { owner, owner_type } => match response {
            ApiResponse::Repositories(list) => finish(
                print_repos(&list, owner.as_str(), owner_type.as_str()),
            ),
            _ => reject(),
        },
    }
}

/// Goes on after the user's pick. `choice` is the title that was picked, or
/// nothing where the user picked none.
pub fn picked(choosing: Choosing, choice: Option<&str>) -> (turn: Turn)
    ensures
        picks(choosing, text_of(choice), turn),
{
    let Choosing { repo_info, list } = choosing;
    match choose_issue(list, choice) {
        Err(e) => fail(Error::Validation(e)),
        Ok(None) => finish(one_line("Issue not choosed or not find")),
        Ok(Some(issue)) => call(
            comments::get_all(&repo_info, issue.number),
            Pending::SimpleIssueComments { issue },
        ),
    }
}

} // verus!
