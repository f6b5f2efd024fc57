use github_cli::api::{ApiReply, ApiRequest, ApiResponse};
use github_cli::comment_command::CommentCommand;
use github_cli::error::{ApiError, Error, Field, PrintErrorKind, ResolutionError, ValidationError};
use github_cli::flow::{picked, replied, resolved, Next};
use github_cli::handle_cli::handle_cli_command;
use github_cli::issue_command::IssueCommand;
use github_cli::read_cli::{Args, CliCommand};
use github_cli::release_command::ReleaseCommand;
use github_cli::repo_command::RepoCommand;
use github_cli::repo_info::{RepoName, RepoOwner};
use github_cli::set_vars::{
    CommentTarget, IssuesListStates, Orders, ReposListOrgSorts, ReposListOrgTypes,
    ReposListUserTypes, Sorts, States, Visibilities,
};
use github_cli::types::{
    FullTeam, Issue, IssueComment, IssueSimple, IssuesCreateRequest, IssuesListSort,
    IssuesListState, IssuesUpdateRequest, Label, LabelsOneOf, MinimalRepository, Order,
    PullRequestReviewComment, PullsUpdateReviewRequest, Release, ReposCreateForkRequest,
    ReposCreateInOrgRequest, ReposCreateInOrgRequestVisibility, ReposCreateReleaseRequest,
    ReposCreateRequest, ReposCreateUsingTemplateRequest, ReposListOrgSort, ReposListOrgType,
    ReposListUserType, SimpleUser, Sort, State,
};

const TOP: &str = "╭────────────────────────────────────────────────────────────────────────────────────────────────";
const BOTTOM: &str = "╰────────────────────────────────────────────────────────────────────────────────────────────────";

/// What a command did, with a service that gives the prepared answers in
/// their order.
struct Run {
    lines: Vec<String>,
    requests: Vec<ApiRequest>,
    lookups: usize,
    offered: Option<Vec<String>>,
    result: Result<(), Error>,
}

fn run(args: Args, remote: Option<&str>, replies: Vec<ApiReply>, choice: Option<&str>) -> Run {
    let mut replies = replies.into_iter();
    let mut done = Run { lines: Vec::new(), requests: Vec::new(), lookups: 0, offered: None, result: Ok(()) };
    let mut turn = handle_cli_command(args);
    loop {
        done.lines.extend(turn.lines);
        turn = match turn.next {
            Next::LookupRemote(task) => {
                done.lookups += 1;
                resolved(task, remote)
            }
            Next::Call(request, pending) => {
                done.requests.push(request);
                replied(pending, replies.next().expect("an answer for every request"))
            }
            Next::Choose(titles, choosing) => {
                done.offered = Some(titles);
                picked(choosing, choice)
            }
            Next::Exit(result) => {
                done.result = result;
                assert!(replies.next().is_none(), "an answer that nobody asked for");
                return done;
            }
        };
    }
}

fn owner(s: &str) -> Option<RepoOwner> {
    Some(RepoOwner::parse(s).unwrap())
}

fn name(s: &str) -> Option<RepoName> {
    Some(RepoName::parse(s).unwrap())
}

fn issue(sub: IssueCommand) -> Args {
    Args { command: CliCommand::Issue { subcommand: sub } }
}

fn comment(sub: CommentCommand) -> Args {
    Args { command: CliCommand::Comment { subcommand: sub } }
}

fn release(sub: ReleaseCommand) -> Args {
    Args { command: CliCommand::Release { subcommand: sub } }
}

fn repo(sub: RepoCommand) -> Args {
    Args { command: CliCommand::Repo { subcommand: sub } }
}

fn failure(message: &str) -> ApiReply {
    Err(ApiError::new(message.to_string()))
}

fn s(text: &str) -> String {
    text.to_string()
}

fn user(login: &str) -> Option<SimpleUser> {
    Some(SimpleUser { login: s(login) })
}

fn create_issue(owner_: Option<RepoOwner>, repo_: Option<RepoName>) -> Args {
    issue(IssueCommand::Create {
        owner: owner_,
        repo: repo_,
        title: s("Bug"),
        body: s(""),
        assignees: s(""),
        labels: s("bug"),
    })
}

#[test]
fn issue_create_makes_one_request_and_confirms() {
    let done = run(create_issue(owner("acme"), name("widgets")), None, vec![Ok(ApiResponse::Done)], None);
    assert_eq!(done.lookups, 0);
    assert_eq!(
        done.requests,
        vec![ApiRequest::IssuesCreate {
            owner: s("acme"),
            repo: s("widgets"),
            body: IssuesCreateRequest {
                assignee: s(""),
                assignees: vec![],
                body: s(""),
                labels: vec![s("bug")],
                milestone: None,
                title: s("Bug"),
            },
        }]
    );
    assert_eq!(done.lines, vec![s("Success")]);
    assert_eq!(done.result, Ok(()));
}

#[test]
fn issue_create_in_current_repo_looks_the_remote_up_once() {
    let done = run(
        create_issue(None, None),
        Some("git@github.com:acme/widgets.git"),
        vec![Ok(ApiResponse::Done)],
        None,
    );
    assert_eq!(done.lookups, 1);
    assert_eq!(done.requests.len(), 1);
    assert!(matches!(&done.requests[0], ApiRequest::IssuesCreate { owner, repo, .. } if owner == "acme" && repo == "widgets"));
    assert_eq!(done.result, Ok(()));
}

#[test]
fn issue_create_splits_lists_at_commas() {
    let args = issue(IssueCommand::Create {
        owner: owner("acme"),
        repo: name("widgets"),
        title: s("T"),
        body: s("B"),
        assignees: s("ann,bob"),
        labels: s("bug,ui,@high"),
    });
    let done = run(args, None, vec![Ok(ApiResponse::Done)], None);
    match &done.requests[0] {
        ApiRequest::IssuesCreate { body, .. } => {
            assert_eq!(body.assignees, vec![s("ann"), s("bob")]);
            assert_eq!(body.labels, vec![s("bug"), s("ui"), s("@high")]);
            assert_eq!(body.body, "B");
        }
        other => panic!("{other:?}"),
    }
}

#[test]
fn issue_without_title_is_refused_before_anything_else() {
    for who in [owner("acme"), None] {
        let args = issue(IssueCommand::Create {
            owner: who,
            repo: name("widgets"),
            title: s(""),
            body: s("text"),
            assignees: s(""),
            labels: s(""),
        });
        let done = run(args, Some("git@github.com:acme/widgets.git"), vec![], None);
        assert_eq!(done.lookups, 0);
        assert!(done.requests.is_empty());
        assert!(done.lines.is_empty());
        assert_eq!(done.result, Err(Error::Validation(ValidationError::EmptyField(Field::IssueTitle))));
        assert_eq!(done.result.unwrap_err().message(), "Issue title cannot be empty");
    }
}

#[test]
fn no_command_makes_more_than_two_requests() {
    let get = issue(IssueCommand::Get { owner: owner("acme"), repo: name("widgets"), number: 5 });
    let the_issue = Issue { number: 5, title: s("t"), state: s("open"), body: s(""), labels: vec![], created_at: None };
    let done = run(get, None, vec![Ok(ApiResponse::Issue(the_issue)), Ok(ApiResponse::Comments(vec![]))], None);
    assert_eq!(done.requests.len(), 2);
    assert_eq!(done.result, Ok(()));
}

#[test]
fn missing_owner_in_the_current_directory_without_git() {
    let done = run(create_issue(None, None), None, vec![], None);
    assert_eq!(done.lookups, 1);
    assert!(done.requests.is_empty());
    assert!(done.lines.is_empty());
    assert_eq!(done.result, Err(Error::Resolution(ResolutionError::GitNotFound)));
    assert_eq!(done.result.unwrap_err().message(), "Git repository not found in this directory");
}

#[test]
fn unparsable_remote_makes_no_request() {
    let done = run(create_issue(None, None), Some("widgets"), vec![], None);
    assert!(done.requests.is_empty());
    assert_eq!(done.result, Err(Error::Resolution(ResolutionError::UnparsableRemoteUrl)));
}

#[test]
fn owner_without_name_makes_no_request() {
    let done = run(create_issue(owner("acme"), None), Some("git@github.com:acme/widgets.git"), vec![], None);
    assert_eq!(done.lookups, 0);
    assert!(done.requests.is_empty());
    assert_eq!(done.result, Err(Error::Resolution(ResolutionError::MissingName)));
}

#[test]
fn name_without_owner_is_the_current_repo() {
    let done = run(
        create_issue(None, name("other")),
        Some("https://github.com/acme/widgets"),
        vec![Ok(ApiResponse::Done)],
        None,
    );
    assert_eq!(done.lookups, 1);
    assert!(matches!(&done.requests[0], ApiRequest::IssuesCreate { owner, repo, .. } if owner == "acme" && repo == "widgets"));
}

fn close(comment_: &str) -> Args {
    issue(IssueCommand::Close { owner: owner("acme"), repo: name("widgets"), number: 7, comment: s(comment_) })
}

fn closing_request() -> ApiRequest {
    ApiRequest::IssuesUpdate {
        owner: s("acme"),
        repo: s("widgets"),
        issue_number: 7,
        body: IssuesUpdateRequest {
            assignee: s(""),
            assignees: vec![],
            body: s(""),
            labels: vec![],
            milestone: None,
            state: Some(State::Closed),
            title: None,
        },
    }
}

fn comment_request(text: &str) -> ApiRequest {
    ApiRequest::IssuesCreateComment {
        owner: s("acme"),
        repo: s("widgets"),
        issue_number: 7,
        body: PullsUpdateReviewRequest { body: s(text) },
    }
}

#[test]
fn close_with_failing_comment_never_closes() {
    let done = run(close("fixed"), None, vec![failure("HTTP Error. Code: 403")], None);
    assert_eq!(done.requests, vec![comment_request("fixed")]);
    assert!(done.requests.iter().all(|r| !matches!(r, ApiRequest::IssuesUpdate { .. })));
    assert!(done.lines.is_empty());
    assert_eq!(done.result, Err(Error::Api(ApiError::new(s("HTTP Error. Code: 403")))));
    assert_eq!(done.result.unwrap_err().message(), "HTTP Error. Code: 403");
}

#[test]
fn close_with_comment_writes_the_comment_first() {
    let done = run(close("fixed"), None, vec![Ok(ApiResponse::Done), Ok(ApiResponse::Done)], None);
    assert_eq!(done.requests, vec![comment_request("fixed"), closing_request()]);
    assert_eq!(done.lines, vec![s("Comment create successed"), s("Success")]);
    assert_eq!(done.result, Ok(()));
}

#[test]
fn close_with_comment_and_failing_close() {
    let done = run(close("fixed"), None, vec![Ok(ApiResponse::Done), failure("gone")], None);
    assert_eq!(done.requests.len(), 2);
    assert_eq!(done.lines, vec![s("Comment create successed")]);
    assert_eq!(done.result, Err(Error::Api(ApiError::new(s("gone")))));
}

#[test]
fn close_without_comment_only_closes() {
    let done = run(close(""), None, vec![Ok(ApiResponse::Done)], None);
    assert_eq!(done.requests, vec![closing_request()]);
    assert_eq!(done.lines, vec![s("Success")]);
}

fn list(size: i64, owner_: Option<RepoOwner>) -> Args {
    issue(IssueCommand::List {
        owner: owner_,
        repo: name("widgets"),
        creator: s(""),
        assignee: s("none"),
        state: IssuesListStates(IssuesListState::Open),
        labels: s("bug,ui"),
        numb_of_page: 2,
        iss_on_page: size,
    })
}

#[test]
fn page_size_out_of_range_is_rejected_before_anything_else() {
    for size in [0, 101, -1, i64::MIN, i64::MAX] {
        for who in [owner("acme"), None] {
            let done = run(list(size, who), Some("git@github.com:acme/widgets.git"), vec![], None);
            assert_eq!(done.lookups, 0);
            assert!(done.requests.is_empty());
            assert_eq!(done.result, Err(Error::Validation(ValidationError::PageSizeOutOfRange)));
        }
    }
}

#[test]
fn page_size_in_range_is_accepted() {
    for size in [1, 30, 100] {
        let done = run(list(size, owner("acme")), None, vec![Ok(ApiResponse::Issues(vec![]))], None);
        assert_eq!(
            done.requests,
            vec![ApiRequest::IssuesListForRepo {
                owner: s("acme"),
                repo: s("widgets"),
                milestone: s(""),
                state: IssuesListState::Open,
                assignee: s("none"),
                creator: s(""),
                mentioned: s(""),
                labels: s("bug,ui"),
                sort: IssuesListSort::Created,
                direction: Order::Noop,
                per_page: size,
                page: 2,
            }]
        );
        assert_eq!(done.lines, vec![s(" 0 open Issues from 2 page:"), s("")]);
        assert_eq!(done.result, Ok(()));
    }
}

fn simple(number: i64, title: &str) -> IssueSimple {
    IssueSimple { number, title: s(title), body: s("text"), labels: vec![], created_at: None }
}

#[test]
fn list_shows_the_issues_in_the_order_of_the_answer() {
    let issues = vec![
        IssueSimple {
            number: 12,
            title: s("Second"),
            body: s("b"),
            labels: vec![Label { name: s("bug"), description: s("broken") }, Label { name: s("ui"), description: s("") }],
            created_at: Some(s("2024-05-01 10:00:00 UTC")),
        },
        simple(3, "First"),
    ];
    let done = run(list(100, owner("acme")), None, vec![Ok(ApiResponse::Issues(issues))], None);
    assert_eq!(
        done.lines,
        vec![
            s(" 2 open Issues from 2 page:"),
            s(""),
            s(TOP),
            s(" Issue 12: Second;"),
            s(" Body: b"),
            s(" labels:"),
            s("   bug: broken"),
            s("   ui: "),
            s(" Created at: 2024-05-01 10:00:00 UTC"),
            s(BOTTOM),
            s(TOP),
            s(" Issue 3: First;"),
            s(" Body: text"),
            s(" labels:"),
            s(BOTTOM),
        ]
    );
}

#[test]
fn answer_of_the_wrong_kind_is_a_bad_response() {
    let done = run(list(10, owner("acme")), None, vec![Ok(ApiResponse::Done)], None);
    assert!(done.lines.is_empty());
    match done.result {
        Err(Error::Print(e)) => {
            assert_eq!(e.kind, PrintErrorKind::BadResponse);
            assert_eq!(
                e.message(),
                "tried print, but the github response turned out to be invalid.\nDescription: Response is not of the expected kind"
            );
        }
        other => panic!("{other:?}"),
    }
}

#[test]
fn get_asks_for_the_issue_and_then_for_its_comments() {
    let args = issue(IssueCommand::Get { owner: owner("acme"), repo: name("widgets"), number: 5 });
    let the_issue = Issue {
        number: 5,
        title: s("Crash"),
        state: s("open"),
        body: s("It crashes"),
        labels: vec![
            LabelsOneOf::String(s("plain")),
            LabelsOneOf::LabelsData(Label { name: s("bug"), description: s("broken") }),
        ],
        created_at: None,
    };
    let comments = vec![IssueComment { user: user("ann"), body: s("me too") }];
    let done = run(
        args,
        None,
        vec![Ok(ApiResponse::Issue(the_issue)), Ok(ApiResponse::Comments(comments))],
        None,
    );
    assert_eq!(
        done.requests,
        vec![
            ApiRequest::IssuesGet { owner: s("acme"), repo: s("widgets"), issue_number: 5 },
            ApiRequest::IssuesListAllComments { owner: s("acme"), repo: s("widgets"), issue_number: 5 },
        ]
    );
    assert_eq!(
        done.lines,
        vec![
            s(TOP),
            s(" Issue 5: Crash;"),
            s(" State: open"),
            s(" Body: It crashes"),
            s(" labels:"),
            s("   Name: bug"),
            s("   Description: broken"),
            s(BOTTOM),
            s(TOP),
            s(" Comments:"),
            s(BOTTOM),
            s(TOP),
            s(" Who create: ann"),
            s(" Body: me too"),
            s(BOTTOM),
        ]
    );
    assert_eq!(done.result, Ok(()));
}

#[test]
fn get_with_failing_issue_request_asks_for_no_comments() {
    let args = issue(IssueCommand::Get { owner: owner("acme"), repo: name("widgets"), number: 5 });
    let done = run(args, None, vec![failure("not found")], None);
    assert_eq!(done.requests.len(), 1);
    assert_eq!(done.result, Err(Error::Api(ApiError::new(s("not found")))));
}

#[test]
fn comment_without_author_is_fatal() {
    let args = comment(CommentCommand::GetAll {
        owner: owner("acme"),
        repo: name("widgets"),
        number: 9,
        target: CommentTarget::PullRequest,
    });
    let comments = vec![
        IssueComment { user: user("ann"), body: s("one") },
        IssueComment { user: None, body: s("two") },
        IssueComment { user: user("bob"), body: s("three") },
    ];
    let done = run(args, None, vec![Ok(ApiResponse::Comments(comments))], None);
    assert_eq!(done.requests.len(), 1);
    assert_eq!(
        done.lines,
        vec![s(TOP), s(" Comments:"), s(BOTTOM), s(TOP), s(" Who create: ann"), s(" Body: one"), s(BOTTOM), s(TOP)]
    );
    match done.result {
        Err(Error::Print(e)) => {
            assert_eq!(e.kind, PrintErrorKind::BadResponse);
            assert_eq!(e.description, "User who create comment not find");
        }
        other => panic!("{other:?}"),
    }
}

fn review(login: Option<&str>, line: i64) -> PullRequestReviewComment {
    PullRequestReviewComment {
        user: login.map(|l| SimpleUser { login: s(l) }),
        body: s("nit"),
        line,
        path: s("src/lib.rs"),
    }
}

#[test]
fn comments_of_a_pull_request_include_review_comments() {
    let args = comment(CommentCommand::GetAll {
        owner: owner("acme"),
        repo: name("widgets"),
        number: 9,
        target: CommentTarget::PullRequest,
    });
    let done = run(
        args,
        None,
        vec![Ok(ApiResponse::Comments(vec![])), Ok(ApiResponse::ReviewComments(vec![review(Some("ann"), 42)]))],
        None,
    );
    assert_eq!(
        done.requests,
        vec![
            ApiRequest::IssuesListAllComments { owner: s("acme"), repo: s("widgets"), issue_number: 9 },
            ApiRequest::PullsListAllReviewComments {
                owner: s("acme"),
                repo: s("widgets"),
                pull_number: 9,
                sort: Sort::Created,
                direction: Order::Asc,
            },
        ]
    );
    assert_eq!(
        done.lines,
        vec![
            s(TOP),
            s(" Comments:"),
            s(BOTTOM),
            s(TOP),
            s(" Review comments:"),
            s(BOTTOM),
            s(TOP),
            s(" Who create: ann"),
            s(" Body: nit"),
            s(" For line: 42"),
            s(" In file: src/lib.rs"),
            s(BOTTOM),
        ]
    );
    assert_eq!(done.result, Ok(()));
}

#[test]
fn no_review_comments_are_not_shown() {
    let args = comment(CommentCommand::GetAll {
        owner: owner("acme"),
        repo: name("widgets"),
        number: 9,
        target: CommentTarget::PullRequest,
    });
    let done = run(
        args,
        None,
        vec![Ok(ApiResponse::Comments(vec![])), Ok(ApiResponse::ReviewComments(vec![]))],
        None,
    );
    assert_eq!(done.lines, vec![s(TOP), s(" Comments:"), s(BOTTOM)]);
    assert_eq!(done.result, Ok(()));
}

#[test]
fn comments_of_an_issue_ask_for_no_review_comments() {
    let args = comment(CommentCommand::GetAll {
        owner: owner("acme"),
        repo: name("widgets"),
        number: 9,
        target: CommentTarget::Issue,
    });
    let done = run(args, None, vec![Ok(ApiResponse::Comments(vec![]))], None);
    assert_eq!(done.requests.len(), 1);
    assert_eq!(done.result, Ok(()));
}

#[test]
fn review_comments_with_sort_and_order() {
    let args = comment(CommentCommand::GetAllFromReview {
        owner: None,
        repo: None,
        number: 4,
        sort: Sorts(Sort::Updated),
        order: Orders(Order::Desc),
    });
    let done = run(
        args,
        Some("https://github.com/acme/widgets.git"),
        vec![Ok(ApiResponse::ReviewComments(vec![review(None, 1)]))],
        None,
    );
    assert_eq!(done.lookups, 1);
    assert_eq!(
        done.requests,
        vec![ApiRequest::PullsListAllReviewComments {
            owner: s("acme"),
            repo: s("widgets"),
            pull_number: 4,
            sort: Sort::Updated,
            direction: Order::Desc,
        }]
    );
    assert_eq!(done.lines, vec![s(TOP), s(" Review comments:"), s(BOTTOM), s(TOP)]);
    assert!(matches!(done.result, Err(Error::Print(_))));
}

#[test]
fn comment_create_confirms() {
    let args = comment(CommentCommand::Create { owner: owner("acme"), repo: name("widgets"), number: 7, body: s("hi") });
    let done = run(args, None, vec![Ok(ApiResponse::Done)], None);
    assert_eq!(done.requests, vec![comment_request("hi")]);
    assert_eq!(done.lines, vec![s("Comment create successed")]);
}

#[test]
fn update_leaves_out_what_is_absent() {
    let args = issue(IssueCommand::Update {
        owner: owner("acme"),
        repo: name("widgets"),
        number: 8,
        title: None,
        body: None,
        assignees: None,
        state: States(State::Open),
        labels: None,
    });
    let done = run(args, None, vec![Ok(ApiResponse::Done)], None);
    assert_eq!(
        done.requests,
        vec![ApiRequest::IssuesUpdate {
            owner: s("acme"),
            repo: s("widgets"),
            issue_number: 8,
            body: IssuesUpdateRequest {
                assignee: s(""),
                assignees: vec![],
                body: s(""),
                labels: vec![],
                milestone: None,
                state: Some(State::Open),
                title: None,
            },
        }]
    );
    assert_eq!(done.lines, vec![s("Success")]);
}

#[test]
fn update_sends_what_is_given() {
    let args = issue(IssueCommand::Update {
        owner: owner("acme"),
        repo: name("widgets"),
        number: 8,
        title: Some(s("New")),
        body: Some(s("Text")),
        assignees: Some(s("ann")),
        state: States(State::Closed),
        labels: Some(s("a,b")),
    });
    let done = run(args, None, vec![Ok(ApiResponse::Done)], None);
    match &done.requests[0] {
        ApiRequest::IssuesUpdate { body, issue_number, .. } => {
            assert_eq!(*issue_number, 8);
            assert_eq!(body.title, Some(s("New")));
            assert_eq!(body.body, "Text");
            assert_eq!(body.assignees, vec![s("ann")]);
            assert_eq!(body.labels, vec![s("a"), s("b")]);
            assert_eq!(body.state, Some(State::Closed));
        }
        other => panic!("{other:?}"),
    }
}

fn release_record() -> Release {
    Release {
        tag_name: s("v1"),
        id: 77,
        name: s("First"),
        body: s("notes"),
        target_commitish: s("main"),
        url: s("https://api/releases/77"),
        upload_url: s("https://uploads/77"),
    }
}

#[test]
fn release_create_shows_the_address_of_the_tag() {
    let args = release(ReleaseCommand::Create {
        owner: RepoOwner::parse("The Drot Team").unwrap(),
        repo: RepoName::parse("widgets").unwrap(),
        tag_name: s(" v1.0 "),
        target_commitish: s("abc123"),
        name: s("First"),
        body: s("notes"),
        discussion_category_name: s(""),
        draft: Some(false),
        prerelease: None,
    });
    let done = run(args, None, vec![Ok(ApiResponse::Release(release_record()))], None);
    assert_eq!(
        done.requests,
        vec![ApiRequest::ReposCreateRelease {
            owner: s("The Drot Team"),
            repo: s("widgets"),
            body: ReposCreateReleaseRequest {
                body: s("notes"),
                discussion_category_name: s(""),
                draft: Some(false),
                name: s("First"),
                prerelease: None,
                tag_name: s(" v1.0 "),
                target_commitish: s("abc123"),
            },
        }]
    );
    assert_eq!(
        done.lines,
        vec![s(TOP), s(" New release : https://github.com/The-Drot-Team/widgets/releases/tag/v1.0"), s(BOTTOM)]
    );
    assert_eq!(done.result, Ok(()));
}

#[test]
fn release_lookups() {
    let o = || RepoOwner::parse("acme").unwrap();
    let n = || RepoName::parse("widgets").unwrap();
    let shown = vec![
        s(TOP),
        s(" Release tag: v1"),
        s(" Release id: 77"),
        s(" Release title: First"),
        s(" Release body: notes"),
        s(" Release tag_commit: main"),
        s(" Release url: https://api/releases/77"),
        s(" Release upload_url: https://uploads/77"),
        s(BOTTOM),
    ];
    let done = run(release(ReleaseCommand::GetLatest { owner: o(), repo: n() }), None, vec![Ok(ApiResponse::Release(release_record()))], None);
    assert_eq!(done.requests, vec![ApiRequest::ReposGetLatestRelease { owner: s("acme"), repo: s("widgets") }]);
    assert_eq!(done.lines, shown);
    let done = run(release(ReleaseCommand::GetByTag { owner: o(), repo: n(), tag: s("v1") }), None, vec![Ok(ApiResponse::Release(release_record()))], None);
    assert_eq!(done.requests, vec![ApiRequest::ReposGetReleaseByTag { owner: s("acme"), repo: s("widgets"), tag: s("v1") }]);
    assert_eq!(done.lines, shown);
    let done = run(release(ReleaseCommand::GetById { owner: o(), repo: n(), id: 77 }), None, vec![Ok(ApiResponse::Release(release_record()))], None);
    assert_eq!(done.requests, vec![ApiRequest::ReposGetRelease { owner: s("acme"), repo: s("widgets"), release_id: 77 }]);
    assert_eq!(done.lines, shown);
}

fn in_org() -> Args {
    repo(RepoCommand::CreateInOrg {
        allow_auto_merge: Some(true),
        allow_merge_commit: None,
        allow_rebase_merge: None,
        allow_squash_merge: Some(false),
        auto_init: Some(true),
        delete_branch_on_merge: None,
        description: s("d"),
        gitignore_template: s("Rust"),
        has_issues: Some(true),
        has_projects: None,
        has_wiki: None,
        homepage: s("h"),
        is_template: None,
        license_template: s("mit"),
        name: RepoName::parse("widgets").unwrap(),
        org: RepoOwner::parse("acme").unwrap(),
        team_name: s("core"),
        visibility: Visibilities(ReposCreateInOrgRequestVisibility::Private),
    })
}

#[test]
fn create_in_org_with_failing_team_lookup_creates_nothing() {
    let done = run(in_org(), None, vec![failure("no such team")], None);
    assert_eq!(done.requests, vec![ApiRequest::TeamsGetByName { org: s("acme"), team_slug: s("core") }]);
    assert_eq!(done.result, Err(Error::Api(ApiError::new(s("no such team")))));
}

#[test]
fn create_in_org_uses_the_team_that_was_found() {
    let done = run(in_org(), None, vec![Ok(ApiResponse::Team(FullTeam { id: 4242 })), Ok(ApiResponse::Done)], None);
    assert_eq!(done.requests.len(), 2);
    assert_eq!(
        done.requests[1],
        ApiRequest::ReposCreateInOrg {
            org: s("acme"),
            body: ReposCreateInOrgRequest {
                allow_auto_merge: Some(true),
                allow_merge_commit: None,
                allow_rebase_merge: None,
                allow_squash_merge: Some(false),
                auto_init: Some(true),
                delete_branch_on_merge: None,
                description: s("d"),
                gitignore_template: s("Rust"),
                has_issues: Some(true),
                has_projects: None,
                has_wiki: None,
                homepage: s("h"),
                is_template: None,
                license_template: s("mit"),
                name: s("widgets"),
                private: None,
                team_id: 4242,
                visibility: Some(ReposCreateInOrgRequestVisibility::Private),
            },
        }
    );
    assert_eq!(done.lines, vec![s(TOP), s(" New repo : git@github.com:acme/widgets.git"), s(BOTTOM)]);
    assert_eq!(done.result, Ok(()));
}

#[test]
fn create_for_the_signed_in_user() {
    let args = repo(RepoCommand::CreateForAuthenticatedUser {
        allow_auto_merge: None,
        allow_merge_commit: Some(true),
        allow_rebase_merge: None,
        allow_squash_merge: None,
        auto_init: None,
        delete_branch_on_merge: Some(true),
        description: s("d"),
        gitignore_template: s(""),
        has_issues: None,
        has_projects: Some(false),
        has_wiki: None,
        homepage: s(""),
        is_template: Some(true),
        license_template: s(""),
        name: s("widgets"),
        private: Some(true),
    });
    let done = run(args, None, vec![Ok(ApiResponse::Done)], None);
    assert_eq!(done.lookups, 0);
    assert_eq!(
        done.requests,
        vec![ApiRequest::ReposCreateForAuthenticatedUser {
            body: ReposCreateRequest {
                allow_auto_merge: None,
                allow_merge_commit: Some(true),
                allow_rebase_merge: None,
                allow_squash_merge: None,
                auto_init: None,
                delete_branch_on_merge: Some(true),
                description: s("d"),
                gitignore_template: s(""),
                has_downloads: None,
                has_issues: None,
                has_projects: Some(false),
                has_wiki: None,
                homepage: s(""),
                is_template: Some(true),
                license_template: s(""),
                name: s("widgets"),
                private: Some(true),
                team_id: 1,
            },
        }]
    );
    assert_eq!(done.lines, vec![s("Success")]);
}

#[test]
fn create_from_a_template() {
    let args = repo(RepoCommand::CreateUsingTemplate {
        template_owner: RepoOwner::parse("tpl").unwrap(),
        template_name: RepoName::parse("base").unwrap(),
        name: RepoName::parse("widgets").unwrap(),
        owner: RepoOwner::parse("acme").unwrap(),
        description: s("d"),
        private: Some(true),
        include_all_branches: None,
    });
    let done = run(args, None, vec![Ok(ApiResponse::Done)], None);
    assert_eq!(
        done.requests,
        vec![ApiRequest::ReposCreateUsingTemplate {
            template_owner: s("tpl"),
            template_repo: s("base"),
            body: ReposCreateUsingTemplateRequest {
                description: s("d"),
                include_all_branches: None,
                name: s("widgets"),
                owner: s("acme"),
                private: Some(true),
            },
        }]
    );
    assert_eq!(done.lines, vec![s(TOP), s(" New repo : git@github.com:acme/widgets.git"), s(BOTTOM)]);
}

#[test]
fn fork() {
    let args = repo(RepoCommand::CreateFork {
        name: RepoName::parse("widgets").unwrap(),
        owner: RepoOwner::parse("acme").unwrap(),
        org: s("mine"),
    });
    let done = run(args, None, vec![Ok(ApiResponse::Done)], None);
    assert_eq!(
        done.requests,
        vec![ApiRequest::ReposCreateFork {
            owner: s("acme"),
            repo: s("widgets"),
            body: ReposCreateForkRequest { organization: s("mine") },
        }]
    );
    assert_eq!(done.lines, vec![s("Success")]);
}

fn repository(id: i64, full_name: &str) -> MinimalRepository {
    MinimalRepository { id, full_name: s(full_name), language: s("Rust"), url: s("https://x"), description: s("d") }
}

#[test]
fn repositories_of_an_organisation() {
    let args = repo(RepoCommand::GetAllFromOrg {
        org: s(" acme "),
        order: Orders(Order::Desc),
        sort_value: ReposListOrgSorts(ReposListOrgSort::Updated),
        type_value: ReposListOrgTypes(ReposListOrgType::All),
    });
    let done = run(args, None, vec![Ok(ApiResponse::Repositories(vec![repository(1, "acme/widgets")]))], None);
    assert_eq!(
        done.requests,
        vec![ApiRequest::ReposListAllForOrg {
            org: s("acme"),
            type_value: ReposListOrgType::All,
            sort: ReposListOrgSort::Updated,
            direction: Order::Desc,
        }]
    );
    assert_eq!(
        done.lines,
        vec![
            s(" Found 1 repos in  acme  org"),
            s(TOP),
            s(" Repo 1: acme/widgets"),
            s(" Language: Rust"),
            s(" Url: https://x"),
            s(" Description: d"),
            s(BOTTOM),
        ]
    );
}

#[test]
fn repositories_of_a_user() {
    let args = repo(RepoCommand::GetAllFromUser {
        owner: s("ann"),
        order: Orders(Order::Asc),
        sort_value: ReposListOrgSorts(ReposListOrgSort::FullName),
        type_value: ReposListUserTypes(ReposListUserType::Owner),
    });
    let done = run(args, None, vec![Ok(ApiResponse::Repositories(vec![]))], None);
    assert_eq!(
        done.requests,
        vec![ApiRequest::ReposListAllForUser {
            username: s("ann"),
            type_value: ReposListUserType::Owner,
            sort: ReposListOrgSort::FullName,
            direction: Order::Asc,
        }]
    );
    assert_eq!(done.lines, vec![s(" Found 0 repos in ann user")]);
}

fn from_list() -> Args {
    issue(IssueCommand::GetFromList {
        owner: owner("acme"),
        repo: name("widgets"),
        creator: s(""),
        assignee: s("*"),
        state: IssuesListStates(IssuesListState::All),
        labels: s(""),
        numb_of_page: 1,
        iss_on_page: 30,
    })
}

#[test]
fn pick_an_issue_from_a_list() {
    let issues = vec![simple(3, "First"), simple(-12, "Odd"), simple(3, "Shadowed")];
    let done = run(
        from_list(),
        None,
        vec![Ok(ApiResponse::Issues(issues)), Ok(ApiResponse::Comments(vec![]))],
        Some("(3) Title: First"),
    );
    assert_eq!(
        done.offered,
        Some(vec![s("(3) Title: First"), s("(-12) Title: Odd"), s("(3) Title: Shadowed")])
    );
    assert_eq!(done.requests.len(), 2);
    assert_eq!(
        done.requests[1],
        ApiRequest::IssuesListAllComments { owner: s("acme"), repo: s("widgets"), issue_number: 3 }
    );
    assert_eq!(
        done.lines,
        vec![
            s(TOP),
            s(" Issue 3: First;"),
            s(" Body: text"),
            s(" labels:"),
            s(BOTTOM),
            s(TOP),
            s(" Comments:"),
            s(BOTTOM),
        ]
    );
    assert_eq!(done.result, Ok(()));
}

#[test]
fn pick_nothing() {
    for choice in [None, Some("no bracket"), Some("(99) Title: Unknown")] {
        let done = run(from_list(), None, vec![Ok(ApiResponse::Issues(vec![simple(3, "First")]))], choice);
        assert_eq!(done.requests.len(), 1);
        assert_eq!(done.lines, vec![s("Issue not choosed or not find")]);
        assert_eq!(done.result, Ok(()));
    }
}

#[test]
fn pick_without_a_number() {
    for choice in ["(x) Title", ")", "()", "(99999999999999999999) Title"] {
        let done = run(from_list(), None, vec![Ok(ApiResponse::Issues(vec![simple(3, "First")]))], Some(choice));
        assert_eq!(done.requests.len(), 1);
        assert_eq!(done.result, Err(Error::Validation(ValidationError::InvalidNumber)), "{choice}");
    }
}
