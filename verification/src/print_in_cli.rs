//! How results are laid out for display. Every function here returns the
//! lines to print, in order; none prints.

use crate::error::{PrintError, PrintErrorKind};
use crate::number::{decimal, push_decimal, push_digits};
use crate::set_vars::IssuesListStates;
use crate::text::{replace_char, replace_in, views};
use crate::types::{
    Issue, IssueComment, IssueSimple, IssuesListState, Label, LabelsOneOf, MinimalRepository,
    PullRequestReviewComment, Release,
};
use vstd::prelude::*;
use vstd::string::*;

verus! {

/// The line that opens a frame.
pub open spec fn top() -> Seq<char> {
    "╭────────────────────────────────────────────────────────────────────────────────────────────────"@
}

/// The line that closes a frame.
pub open spec fn bottom() -> Seq<char> {
    "╰────────────────────────────────────────────────────────────────────────────────────────────────"@
}

/// The lines for a release.
pub open spec fn release_lines(r: Release) -> Seq<Seq<char>> {
    seq![
        top(),
        " Release tag: "@ + r.tag_name@,
        " Release id: "@ + decimal(r.id as int),
        " Release title: "@ + r.name@,
        " Release body: "@ + r.body@,
        " Release tag_commit: "@ + r.target_commitish@,
        " Release url: "@ + r.url@,
        " Release upload_url: "@ + r.upload_url@,
        bottom(),
    ]
}

/// One line for each label of a listed issue.
pub open spec fn label_lines(labels: Seq<Label>) -> Seq<Seq<char>>
    decreases labels.len(),
{
    if labels.len() == 0 {
        Seq::empty()
    } else {
        label_lines(labels.drop_last()).push(
            "   "@ + labels.last().name@ + ": "@ + labels.last().description@,
        )
    }
}

/// The line for the moment of creation, where it is known.
pub open spec fn created_lines(created_at: Option<String>) -> Seq<Seq<char>> {
    match created_at {
        Some(time) => seq![" Created at: "@ + time@],
        None => Seq::empty(),
    }
}

/// The frame for an issue of a listing.
pub open spec fn simple_issue_lines(issue: IssueSimple) -> Seq<Seq<char>> {
    seq![
        top(),
        " Issue "@ + decimal(issue.number as int) + ": "@ + issue.title@ + ";"@,
        " Body: "@ + issue.body@,
        " labels:"@,
    ] + label_lines(issue.labels@) + created_lines(issue.created_at) + seq![bottom()]
}

/// The frames for the issues of a listing, one after the other.
pub open spec fn issue_frames(list: Seq<IssueSimple>) -> Seq<Seq<char>>
    decreases list.len(),
{
    if list.len() == 0 {
        Seq::empty()
    } else {
        issue_frames(list.drop_last()) + simple_issue_lines(list.last())
    }
}

/// The lines for one page of a listing of issues: how many there are, of
/// which state and on which page, an empty line, and the frames.
pub open spec fn issues_lines(list: Seq<IssueSimple>, state: IssuesListStates, page: i64) -> Seq<
    Seq<char>,
> {
    seq![
        " "@ + decimal(list.len() as int) + " "@ + IssuesListStates::word(state.0) + " Issues from "@
            + decimal(page as int) + " page:"@,
        Seq::<char>::empty(),
    ] + issue_frames(list)
}

/// Two lines for each label that an issue carries in full, and none for a
/// label of which only the name is known.
pub open spec fn issue_label_lines(labels: Seq<LabelsOneOf>) -> Seq<Seq<char>>
    decreases labels.len(),
{
    if labels.len() == 0 {
        Seq::empty()
    } else {
        let before = issue_label_lines(labels.drop_last());
        match labels.last() {
            LabelsOneOf::LabelsData(data) => before + seq![
                "   Name: "@ + data.name@,
                "   Description: "@ + data.description@,
            ],
            LabelsOneOf::String(_) => before,
        }
    }
}

/// The frame for one issue.
pub open spec fn issue_lines(issue: Issue) -> Seq<Seq<char>> {
    seq![
        top(),
        " Issue "@ + decimal(issue.number as int) + ": "@ + issue.title@ + ";"@,
        " State: "@ + issue.state@,
        " Body: "@ + issue.body@,
        " labels:"@,
    ] + issue_label_lines(issue.labels@) + created_lines(issue.created_at) + seq![bottom()]
}

/// The frame for an address: what it is the address of, and the address with
/// `-` in place of every space.
pub open spec fn url_lines(result: Seq<char>, description: Seq<char>) -> Seq<Seq<char>> {
    seq![top(), " "@ + description + " : "@ + replace_char(result, ' ', '-'), bottom()]
}

/// The frame for a repository.
pub open spec fn repo_lines(repo: MinimalRepository) -> Seq<Seq<char>> {
    seq![
        top(),
        " Repo "@ + decimal(repo.id as int) + ": "@ + repo.full_name@,
        " Language: "@ + repo.language@,
        " Url: "@ + repo.url@,
        " Description: "@ + repo.description@,
        bottom(),
    ]
}

/// The frames for the repositories of a listing, one after the other.
pub open spec fn repo_frames(repos: Seq<MinimalRepository>) -> Seq<Seq<char>>
    decreases repos.len(),
{
    if repos.len() == 0 {
        Seq::empty()
    } else {
        repo_frames(repos.drop_last()) + repo_lines(repos.last())
    }
}

/// The lines for a listing of repositories: how many were found and whose
/// they are, then the frames.
pub open spec fn repos_lines(
    repos: Seq<MinimalRepository>,
    owner: Seq<char>,
    owner_type: Seq<char>,
) -> Seq<Seq<char>> {
    seq![
        " Found "@ + decimal(repos.len() as int) + " repos in "@ + owner + " "@ + owner_type,
    ] + repo_frames(repos)
}

/// What is displayed of something, and whether all of it could be displayed.
pub struct Shown {
    pub lines: Seq<Seq<char>>,
    pub complete: bool,
}

/// The frame for a comment.
pub open spec fn comment_lines(login: Seq<char>, body: Seq<char>) -> Seq<Seq<char>> {
    seq![top(), " Who create: "@ + login, " Body: "@ + body, bottom()]
}

/// The frames for comments, one after the other. The display stops at the
/// first comment whose author is missing, when that comment's frame has just
/// been opened.
pub open spec fn comment_frames(list: Seq<IssueComment>) -> Shown
    decreases list.len(),
{
    if list.len() == 0 {
        Shown { lines: Seq::empty(), complete: true }
    } else {
        let before = comment_frames(list.drop_last());
        if !before.complete {
            before
        } else {
            match list.last().user {
                Some(user) => Shown {
                    lines: before.lines + comment_lines(user.login@, list.last().body@),
                    complete: true,
                },
                None => Shown { lines: before.lines.push(top()), complete: false },
            }
        }
    }
}

/// What is displayed of a list of comments: a framed heading, then the
/// comments.
pub open spec fn comments_shown(list: Seq<IssueComment>) -> Shown {
    Shown {
        lines: seq![top(), " Comments:"@, bottom()] + comment_frames(list).lines,
        complete: comment_frames(list).complete,
    }
}

/// The frame for a review comment.
pub open spec fn review_comment_lines(
    login: Seq<char>,
    body: Seq<char>,
    line: i64,
    path: Seq<char>,
) -> Seq<Seq<char>> {
    seq![
        top(),
        " Who create: "@ + login,
        " Body: "@ + body,
        " For line: "@ + decimal(line as int),
        " In file: "@ + path,
        bottom(),
    ]
}

/// The frames for review comments, one after the other. The display stops
/// at the first comment whose author is missing, when that comment's frame
/// has just been opened.
pub open spec fn review_comment_frames(list: Seq<PullRequestReviewComment>) -> Shown
    decreases list.len(),
{
    if list.len() == 0 {
        Shown { lines: Seq::empty(), complete: true }
    } else {
        let before = review_comment_frames(list.drop_last());
        if !before.complete {
            before
        } else {
            match list.last().user {
                Some(user) => Shown {
                    lines: before.lines + review_comment_lines(
                        user.login@,
                        list.last().body@,
                        list.last().line,
                        list.last().path@,
                    ),
                    complete: true,
                },
                None => Shown { lines: before.lines.push(top()), complete: false },
            }
        }
    }
}

/// What is displayed of a list of review comments: a framed heading, then
/// the comments.
pub open spec fn review_comments_shown(list: Seq<PullRequestReviewComment>) -> Shown {
    Shown {
        lines: seq![top(), " Review comments:"@, bottom()] + review_comment_frames(list).lines,
        complete: review_comment_frames(list).complete,
    }
}

/// The description of the error for a comment without an author.
pub open spec fn missing_author() -> Seq<char> {
    "User who create comment not find"@
}

/// Comments are displayed in full if and only if each has an author.
pub proof fn lemma_comments_complete(list: Seq<IssueComment>)
    ensures
        comment_frames(list).complete <==> forall|i: int|
            0 <= i < list.len() ==> (#[trigger] list[i]).user is Some,
    decreases list.len(),
{
    if list.len() > 0 {
        let init = list.drop_last();
        lemma_comments_complete(init);
        if comment_frames(list).complete {
            assert forall|i: int| 0 <= i < list.len() implies (#[trigger] list[i]).user is Some by {
                if i < init.len() {
                    assert(init[i] == list[i]);
                }
            }
        } else {
            if comment_frames(init).complete {
                assert(list[list.len() - 1].user is None);
            } else {
                let i = choose|i: int| 0 <= i < init.len() && !((#[trigger] init[i]).user is Some);
                assert(list[i] == init[i]);
            }
        }
    }
}

/// Review comments are displayed in full if and only if each has an author.
pub proof fn lemma_review_comments_complete(list: Seq<PullRequestReviewComment>)
    ensures
        review_comment_frames(list).complete <==> forall|i: int|
            0 <= i < list.len() ==> (#[trigger] list[i]).user is Some,
    decreases list.len(),
{
    if list.len() > 0 {
        let init = list.drop_last();
        lemma_review_comments_complete(init);
        if review_comment_frames(list).complete {
            assert forall|i: int| 0 <= i < list.len() implies (#[trigger] list[i]).user is Some by {
                if i < init.len() {
                    assert(init[i] == list[i]);
                }
            }
        } else {
            if review_comment_frames(init).complete {
                assert(list[list.len() - 1].user is None);
            } else {
                let i = choose|i: int| 0 <= i < init.len() && !((#[trigger] init[i]).user is Some);
                assert(list[i] == init[i]);
            }
        }
    }
}

fn top_line() -> (r: String)
    ensures
        r@ == top(),
{
    "╭────────────────────────────────────────────────────────────────────────────────────────────────".to_owned()
}

fn bottom_line() -> (r: String)
    ensures
        r@ == bottom(),
{
    "╰────────────────────────────────────────────────────────────────────────────────────────────────".to_owned()
}

/// Appends a line.
fn put(lines: &mut Vec<String>, line: String)
    ensures
        views(final(lines)@) == views(old(lines)@).push(line@),
{
    lines.push(line);
    assert(views(lines@) =~= views(old(lines)@).push(line@));
}

/// Appends the line made of `label` and `value`.
fn put_text(lines: &mut Vec<String>, label: &str, value: &str)
    ensures
        views(final(lines)@) == views(old(lines)@).push(label@ + value@),
{
    let mut line = label.to_owned();
    line.append(value);
    put(lines, line);
}

/// Appends the line made of `label` and the number `value`.
fn put_number(lines: &mut Vec<String>, label: &str, value: i64)
    ensures
        views(final(lines)@) == views(old(lines)@).push(label@ + decimal(value as int)),
{
    let mut line = label.to_owned();
    push_decimal(&mut line, value);
    put(lines, line);
}

/// The lines that show a release.
pub fn print_release(result: &Release) -> (lines: Vec<String>)
    ensures
        views(lines@) == release_lines(*result),
{
    let mut lines: Vec<String> = Vec::new();
    assert(views(lines@) =~= Seq::<Seq<char>>::empty());
    put(&mut lines, top_line());
    put_text(&mut lines, " Release tag: ", result.tag_name.as_str());
    put_number(&mut lines, " Release id: ", result.id);
    put_text(&mut lines, " Release title: ", result.name.as_str());
    put_text(&mut lines, " Release body: ", result.body.as_str());
    put_text(&mut lines, " Release tag_commit: ", result.target_commitish.as_str());
    put_text(&mut lines, " Release url: ", result.url.as_str());
    put_text(&mut lines, " Release upload_url: ", result.upload_url.as_str());
    put(&mut lines, bottom_line());
    assert(views(lines@) =~= release_lines(*result));
    lines
}

fn put_labels(lines: &mut Vec<String>, labels: &Vec<Label>)
    ensures
        views(final(lines)@) == views(old(lines)@) + label_lines(labels@),
{
    let mut i: usize = 0;
    assert(labels@.take(0) =~= Seq::<Label>::empty());
    assert(views(lines@) =~= views(old(lines)@) + label_lines(labels@.take(0)));
    while i < labels.len()
        invariant
            i <= labels@.len(),
            views(lines@) == views(old(lines)@) + label_lines(labels@.take(i as int)),
        decreases labels@.len() - i,
    {
        let ghost before = views(lines@);
        let mut line = "   ".to_owned();
        line.append(labels[i].name.as_str());
        line.append(": ");
        line.append(labels[i].description.as_str());
        put(lines, line);
        proof {
            let next = labels@.take(i + 1);
            assert(next.drop_last() =~= labels@.take(i as int));
            assert(next.last() == labels@[i as int]);
            assert(views(lines@) =~= views(old(lines)@) + label_lines(next));
        }
        i += 1;
    }
    assert(labels@.take(labels@.len() as int) =~= labels@);
}

fn put_created(lines: &mut Vec<String>, created_at: &Option<String>)
    ensures
        views(final(lines)@) == views(old(lines)@) + created_lines(*created_at),
{
    match created_at {
        Some(time) => {
            put_text(lines, " Created at: ", time.as_str());
            assert(views(lines@) =~= views(old(lines)@) + created_lines(*created_at));
        },
        None => {
            assert(views(lines@) =~= views(old(lines)@) + created_lines(*created_at));
        },
    }
}

fn put_simple_issue(lines: &mut Vec<String>, issue: &IssueSimple)
    ensures
        views(final(lines)@) == views(old(lines)@) + simple_issue_lines(*issue),
{
    put(lines, top_line());
    let mut head = " Issue ".to_owned();
    push_decimal(&mut head, issue.number);
    head.append(": ");
    head.append(issue.title.as_str());
    head.append(";");
    put(lines, head);
    put_text(lines, " Body: ", issue.body.as_str());
    put(lines, " labels:".to_owned());
    put_labels(lines, &issue.labels);
    put_created(lines, &issue.created_at);
    put(lines, bottom_line());
    assert(views(lines@) =~= views(old(lines)@) + simple_issue_lines(*issue));
}

/// The lines that show an issue of a listing.
pub fn print_simple_issue(issue: &IssueSimple) -> (lines: Vec<String>)
    ensures
        views(lines@) == simple_issue_lines(*issue),
{
    let mut lines: Vec<String> = Vec::new();
    assert(views(lines@) =~= Seq::<Seq<char>>::empty());
    put_simple_issue(&mut lines, issue);
    assert(views(lines@) =~= simple_issue_lines(*issue));
    lines
}

/// The word for a state of a listing, as `octorust` writes it: its
/// `Display` for `IssuesListState` gives `all`, `closed` and `open` for the
/// three states.
#[verifier::external_body]
fn state_word(state: IssuesListState) -> (r: String)
    ensures
        r@ == IssuesListStates::word(state),
{
    let state = match state {
        IssuesListState::All => octorust::types::IssuesListState::All,
        IssuesListState::Closed => octorust::types::IssuesListState::Closed,
        IssuesListState::Open => octorust::types::IssuesListState::Open,
    };
    state.to_string()
}

/// Appends the number of items of a list.
fn push_count(s: &mut String, len: usize)
    ensures
        final(s)@ == old(s)@ + decimal(len as int),
{
    push_digits(s, len as u64);
}

/// The lines that show one page of a listing of issues.
pub fn print_issues(list_issues: &Vec<IssueSimple>, state: IssuesListStates, numb_of_page: i64) -> (lines:
    Vec<String>)
    ensures
        views(lines@) == issues_lines(list_issues@, state, numb_of_page),
{
    let mut lines: Vec<String> = Vec::new();
    assert(views(lines@) =~= Seq::<Seq<char>>::empty());
    let mut head = " ".to_owned();
    push_count(&mut head, list_issues.len());
    head.append(" ");
    head.append(state_word(state.0).as_str());
    head.append(" Issues from ");
    push_decimal(&mut head, numb_of_page);
    head.append(" page:");
    put(&mut lines, head);
    put(&mut lines, String::new());
    let ghost start = views(lines@);
    let mut i: usize = 0;
    assert(list_issues@.take(0) =~= Seq::<IssueSimple>::empty());
    assert(views(lines@) =~= start + issue_frames(list_issues@.take(0)));
    while i < list_issues.len()
        invariant
            i <= list_issues@.len(),
            views(lines@) == start + issue_frames(list_issues@.take(i as int)),
        decreases list_issues@.len() - i,
    {
        put_simple_issue(&mut lines, &list_issues[i]);
        proof {
            let next = list_issues@.take(i + 1);
            assert(next.drop_last() =~= list_issues@.take(i as int));
            assert(next.last() == list_issues@[i as int]);
            assert(views(lines@) =~= start + issue_frames(next));
        }
        i += 1;
    }
    assert(list_issues@.take(list_issues@.len() as int) =~= list_issues@);
    assert(start =~= seq![
        " "@ + decimal(list_issues@.len() as int) + " "@ + IssuesListStates::word(state.0)
            + " Issues from "@ + decimal(numb_of_page as int) + " page:"@,
        Seq::<char>::empty(),
    ]);
    lines
}

fn put_issue_labels(lines: &mut Vec<String>, labels: &Vec<LabelsOneOf>)
    ensures
        views(final(lines)@) == views(old(lines)@) + issue_label_lines(labels@),
{
    let mut i: usize = 0;
    assert(labels@.take(0) =~= Seq::<LabelsOneOf>::empty());
    assert(views(lines@) =~= views(old(lines)@) + issue_label_lines(labels@.take(0)));
    while i < labels.len()
        invariant
            i <= labels@.len(),
            views(lines@) == views(old(lines)@) + issue_label_lines(labels@.take(i as int)),
        decreases labels@.len() - i,
    {
        proof {
            let next = labels@.take(i + 1);
            assert(next.drop_last() =~= labels@.take(i as int));
            assert(next.last() == labels@[i as int]);
        }
        match &labels[i] {
            LabelsOneOf::LabelsData(data) => {
                put_text(lines, "   Name: ", data.name.as_str());
                put_text(lines, "   Description: ", data.description.as_str());
                assert(views(lines@) =~= views(old(lines)@) + issue_label_lines(
                    labels@.take(i + 1),
                ));
            },
            LabelsOneOf::String(_) => {},
        }
        i += 1;
    }
    assert(labels@.take(labels@.len() as int) =~= labels@);
}

/// The lines that show one issue.
pub fn print_issue(issue: &Issue) -> (lines: Vec<String>)
    ensures
        views(lines@) == issue_lines(*issue),
{
    let mut lines: Vec<String> = Vec::new();
    assert(views(lines@) =~= Seq::<Seq<char>>::empty());
    put(&mut lines, top_line());
    let mut head = " Issue ".to_owned();
    push_decimal(&mut head, issue.number);
    head.append(": ");
    head.append(issue.title.as_str());
    head.append(";");
    put(&mut lines, head);
    put_text(&mut lines, " State: ", issue.state.as_str());
    put_text(&mut lines, " Body: ", issue.body.as_str());
    put(&mut lines, " labels:".to_owned());
    put_issue_labels(&mut lines, &issue.labels);
    put_created(&mut lines, &issue.created_at);
    put(&mut lines, bottom_line());
    assert(views(lines@) =~= issue_lines(*issue));
    lines
}

/// The lines that show an address and what it is the address of.
pub fn print_url(result: &str, description: &str) -> (lines: Vec<String>)
    ensures
        views(lines@) == url_lines(result@, description@),
{
    let mut lines: Vec<String> = Vec::new();
    assert(views(lines@) =~= Seq::<Seq<char>>::empty());
    put(&mut lines, top_line());
    let mut line = " ".to_owned();
    line.append(description);
    line.append(" : ");
    line.append(replace_in(result, ' ', '-').as_str());
    put(&mut lines, line);
    put(&mut lines, bottom_line());
    assert(views(lines@) =~= url_lines(result@, description@));
    lines
}

fn put_repo(lines: &mut Vec<String>, repo: &MinimalRepository)
    ensures
        views(final(lines)@) == views(old(lines)@) + repo_lines(*repo),
{
    put(lines, top_line());
    let mut head = " Repo ".to_owned();
    push_decimal(&mut head, repo.id);
    head.append(": ");
    head.append(repo.full_name.as_str());
    put(lines, head);
    put_text(lines, " Language: ", repo.language.as_str());
    put_text(lines, " Url: ", repo.url.as_str());
    put_text(lines, " Description: ", repo.description.as_str());
    put(lines, bottom_line());
    assert(views(lines@) =~= views(old(lines)@) + repo_lines(*repo));
}

/// The lines that show a listing of repositories.
pub fn print_repos(repos: &Vec<MinimalRepository>, owner: &str, owner_type: &str) -> (lines: Vec<
    String,
>)
    ensures
        views(lines@) == repos_lines(repos@, owner@, owner_type@),
{
    let mut lines: Vec<String> = Vec::new();
    assert(views(lines@) =~= Seq::<Seq<char>>::empty());
    let mut head = " Found ".to_owned();
    push_count(&mut head, repos.len());
    head.append(" repos in ");
    head.append(owner);
    head.append(" ");
    head.append(owner_type);
    put(&mut lines, head);
    let ghost start = views(lines@);
    let mut i: usize = 0;
    assert(repos@.take(0) =~= Seq::<MinimalRepository>::empty());
    assert(views(lines@) =~= start + repo_frames(repos@.take(0)));
    while i < repos.len()
        invariant
            i <= repos@.len(),
            views(lines@) == start + repo_frames(repos@.take(i as int)),
        decreases repos@.len() - i,
    {
        put_repo(&mut lines, &repos[i]);
        proof {
            let next = repos@.take(i + 1);
            assert(next.drop_last() =~= repos@.take(i as int));
            assert(next.last() == repos@[i as int]);
            assert(views(lines@) =~= start + repo_frames(next));
        }
        i += 1;
    }
    assert(repos@.take(repos@.len() as int) =~= repos@);
    assert(start =~= seq![
        " Found "@ + decimal(repos@.len() as int) + " repos in "@ + owner@ + " "@ + owner_type@,
    ]);
    lines
}

/// Whether nothing went wrong, or the error for a missing author.
pub open spec fn is_verdict(r: Result<(), PrintError>, complete: bool) -> bool {
    match r {
        Ok(_) => complete,
        Err(e) => !complete && e.kind == PrintErrorKind::BadResponse && e.description@
            == missing_author(),
    }
}

fn no_author() -> (e: PrintError)
    ensures
        e.kind == PrintErrorKind::BadResponse,
        e.description@ == missing_author(),
{
    PrintError::bad_response("User who create comment not find".to_owned())
}

/// The lines that show a list of comments, as far as they can be shown, and
/// the error for the first comment that has no author.
pub fn print_comments(list_comments: &Vec<IssueComment>) -> (r: (Vec<String>, Result<
    (),
    PrintError,
>))
    ensures
        views(r.0@) == comments_shown(list_comments@).lines,
        is_verdict(r.1, comments_shown(list_comments@).complete),
{
    let mut lines: Vec<String> = Vec::new();
    assert(views(lines@) =~= Seq::<Seq<char>>::empty());
    put(&mut lines, top_line());
    put(&mut lines, " Comments:".to_owned());
    put(&mut lines, bottom_line());
    let ghost start = views(lines@);
    assert(start =~= seq![top(), " Comments:"@, bottom()]);
    let mut i: usize = 0;
    assert(list_comments@.take(0) =~= Seq::<IssueComment>::empty());
    assert(views(lines@) =~= start + comment_frames(list_comments@.take(0)).lines);
    while i < list_comments.len()
        invariant
            i <= list_comments@.len(),
            start == seq![top(), " Comments:"@, bottom()],
            comment_frames(list_comments@.take(i as int)).complete,
            views(lines@) == start + comment_frames(list_comments@.take(i as int)).lines,
        decreases list_comments@.len() - i,
    {
        let ghost next = list_comments@.take(i + 1);
        proof {
            assert(next.drop_last() =~= list_comments@.take(i as int));
            assert(next.last() == list_comments@[i as int]);
        }
        put(&mut lines, top_line());
        match &list_comments[i].user {
            Some(user) => {
                put_text(&mut lines, " Who create: ", user.login.as_str());
                put_text(&mut lines, " Body: ", list_comments[i].body.as_str());
                put(&mut lines, bottom_line());
                assert(views(lines@) =~= start + comment_frames(next).lines);
            },
            None => {
                assert(views(lines@) =~= start + comment_frames(next).lines);
                proof {
                    lemma_comment_frames_stop(list_comments@, i + 1);
                }
                return (lines, Err(no_author()));
            },
        }
        i += 1;
    }
    assert(list_comments@.take(list_comments@.len() as int) =~= list_comments@);
    (lines, Ok(()))
}

/// Once the display has stopped, further comments change nothing.
proof fn lemma_comment_frames_stop(list: Seq<IssueComment>, k: int)
    requires
        0 <= k <= list.len(),
        !comment_frames(list.take(k)).complete,
    ensures
        comment_frames(list) == comment_frames(list.take(k)),
    decreases list.len() - k,
{
    if k < list.len() {
        let next = list.take(k + 1);
        assert(next.drop_last() =~= list.take(k));
        lemma_comment_frames_stop(list, k + 1);
    } else {
        assert(list.take(k) =~= list);
    }
}

/// Once the display has stopped, further review comments change nothing.
proof fn lemma_review_comment_frames_stop(list: Seq<PullRequestReviewComment>, k: int)
    requires
        0 <= k <= list.len(),
        !review_comment_frames(list.take(k)).complete,
    ensures
        review_comment_frames(list) == review_comment_frames(list.take(k)),
    decreases list.len() - k,
{
    if k < list.len() {
        let next = list.take(k + 1);
        assert(next.drop_last() =~= list.take(k));
        lemma_review_comment_frames_stop(list, k + 1);
    } else {
        assert(list.take(k) =~= list);
    }
}

/// The lines that show a list of review comments, as far as they can be
/// shown, and the error for the first comment that has no author.
pub fn print_review_comments(list_comments: &Vec<PullRequestReviewComment>) -> (r: (
    Vec<String>,
    Result<(), PrintError>,
))
    ensures
        views(r.0@) == review_comments_shown(list_comments@).lines,
        is_verdict(r.1, review_comments_shown(list_comments@).complete),
{
    let mut lines: Vec<String> = Vec::new();
    assert(views(lines@) =~= Seq::<Seq<char>>::empty());
    put(&mut lines, top_line());
    put(&mut lines, " Review comments:".to_owned());
    put(&mut lines, bottom_line());
    let ghost start = views(lines@);
    assert(start =~= seq![top(), " Review comments:"@, bottom()]);
    let mut i: usize = 0;
    assert(list_comments@.take(0) =~= Seq::<PullRequestReviewComment>::empty());
    assert(views(lines@) =~= start + review_comment_frames(list_comments@.take(0)).lines);
    while i < list_comments.len()
        invariant
            i <= list_comments@.len(),
            start == seq![top(), " Review comments:"@, bottom()],
            review_comment_frames(list_comments@.take(i as int)).complete,
            views(lines@) == start + review_comment_frames(list_comments@.take(i as int)).lines,
        decreases list_comments@.len() - i,
    {
        let ghost next = list_comments@.take(i + 1);
        proof {
            assert(next.drop_last() =~= list_comments@.take(i as int));
            assert(next.last() == list_comments@[i as int]);
        }
        put(&mut lines, top_line());
        match &list_comments[i].user {
            Some(user) => {
                put_text(&mut lines, " Who create: ", user.login.as_str());
                put_text(&mut lines, " Body: ", list_comments[i].body.as_str());
                put_number(&mut lines, " For line: ", list_comments[i].line);
                put_text(&mut lines, " In file: ", list_comments[i].path.as_str());
                put(&mut lines, bottom_line());
                assert(views(lines@) =~= start + review_comment_frames(next).lines);
            },
            None => {
                assert(views(lines@) =~= start + review_comment_frames(next).lines);
                proof {
                    lemma_review_comment_frames_stop(list_comments@, i + 1);
                }
                return (lines, Err(no_author()));
            },
        }
        i += 1;
    }
    assert(list_comments@.take(list_comments@.len() as int) =~= list_comments@);
    (lines, Ok(()))
}

} // verus!
