//! The words that arguments are written in, and the values they stand for.
//! Each enumeration has one parser; a word that it does not know is refused.

use crate::error::{Choice, ValidationError};
use crate::text::{same_text, trim, trim_str};
use crate::types::{
    IssuesListState, Order, ReposCreateInOrgRequestVisibility, ReposListOrgSort,
    ReposListOrgType, ReposListUserType, Sort, State,
};
use vstd::prelude::*;

verus! {

#[derive(Debug, Clone, Copy, PartialEq, Eq, Structural)]
pub struct Orders(pub Order);

#[derive(Debug, Clone, Copy, PartialEq, Eq, Structural)]
pub struct Sorts(pub Sort);

#[derive(Debug, Clone, Copy, PartialEq, Eq, Structural)]
pub struct ReposListOrgSorts(pub ReposListOrgSort);

#[derive(Debug, Clone, Copy, PartialEq, Eq, Structural)]
pub struct ReposListUserTypes(pub ReposListUserType);

#[derive(Debug, Clone, Copy, PartialEq, Eq, Structural)]
pub struct ReposListOrgTypes(pub ReposListOrgType);

#[derive(Debug, Clone, Copy, PartialEq, Eq, Structural)]
pub struct Visibilities(pub ReposCreateInOrgRequestVisibility);

#[derive(Debug, Clone, Copy, PartialEq, Eq, Structural)]
pub struct States(pub State);

#[derive(Debug, Clone, Copy, PartialEq, Eq, Structural)]
pub struct IssuesListStates(pub IssuesListState);

/// What a listing of comments is about.
#[derive(Debug, Clone, Copy, PartialEq, Eq, Structural)]
pub enum CommentTarget {
    Issue,
    PullRequest,
}

impl Orders {
    /// The order that a word stands for.
    pub open spec fn of(s: Seq<char>) -> Option<Order> {
        if s == "asc"@ {
            Some(Order::Asc)
        } else if s == "desc"@ {
            Some(Order::Desc)
        } else {
            None
        }
    }

    /// Reads an order: `asc` or `desc`.
    pub fn parse(s: &str) -> (r: Result<Orders, ValidationError>)
        ensures
            match r {
                Ok(v) => Self::of(s@) == Some(v.0),
                Err(e) => Self::of(s@) is None && e == ValidationError::UnknownValue(
                    Choice::Order,
                ),
            },
    {
        if same_text(s, "asc") {
            Ok(Orders(Order::Asc))
        } else if same_text(s, "desc") {
            Ok(Orders(Order::Desc))
        } else {
            Err(ValidationError::UnknownValue(Choice::Order))
        }
    }
}

impl Sorts {
    /// The sort key that a word stands for.
    pub open spec fn of(s: Seq<char>) -> Option<Sort> {
        if s == "created"@ {
            Some(Sort::Created)
        } else if s == "updated"@ {
            Some(Sort::Updated)
        } else {
            None
        }
    }

    /// Reads a sort key: `created` or `updated`.
    pub fn parse(s: &str) -> (r: Result<Sorts, ValidationError>)
        ensures
            match r {
                Ok(v) => Self::of(s@) == Some(v.0),
                Err(e) => Self::of(s@) is None && e == ValidationError::UnknownValue(Choice::Sort),
            },
    {
        if same_text(s, "created") {
            Ok(Sorts(Sort::Created))
        } else if same_text(s, "updated") {
            Ok(Sorts(Sort::Updated))
        } else {
            Err(ValidationError::UnknownValue(Choice::Sort))
        }
    }
}

impl ReposListOrgSorts {
    /// The sort key that a word stands for.
    pub open spec fn of(s: Seq<char>) -> Option<ReposListOrgSort> {
        if s == "created"@ {
            Some(ReposListOrgSort::Created)
        } else if s == "fullname"@ {
            Some(ReposListOrgSort::FullName)
        } else if s == "pushed"@ {
            Some(ReposListOrgSort::Pushed)
        } else if s == "updated"@ {
            Some(ReposListOrgSort::Updated)
        } else {
            None
        }
    }

    /// Reads a sort key: `created`, `fullname`, `pushed` or `updated`.
    pub fn parse(s: &str) -> (r: Result<ReposListOrgSorts, ValidationError>)
        ensures
            match r {
                Ok(v) => Self::of(s@) == Some(v.0),
                Err(e) => Self::of(s@) is None && e == ValidationError::UnknownValue(
                    Choice::ReposListOrgSort,
                ),
            },
    {
        if same_text(s, "created") {
            Ok(ReposListOrgSorts(ReposListOrgSort::Created))
        } else if same_text(s, "fullname") {
            Ok(ReposListOrgSorts(ReposListOrgSort::FullName))
        } else if same_text(s, "pushed") {
            Ok(ReposListOrgSorts(ReposListOrgSort::Pushed))
        } else if same_text(s, "updated") {
            Ok(ReposListOrgSorts(ReposListOrgSort::Updated))
        } else {
            Err(ValidationError::UnknownValue(Choice::ReposListOrgSort))
        }
    }
}

impl ReposListUserTypes {
    /// The kind of repositories that a word stands for.
    pub open spec fn of(s: Seq<char>) -> Option<ReposListUserType> {
        if s == "all"@ {
            Some(ReposListUserType::All)
        } else if s == "member"@ {
            Some(ReposListUserType::Member)
        } else if s == "owner"@ {
            Some(ReposListUserType::Owner)
        } else {
            None
        }
    }

    /// Reads a kind of repositories: `all`, `member` or `owner`.
    pub fn parse(s: &str) -> (r: Result<ReposListUserTypes, ValidationError>)
        ensures
            match r {
                Ok(v) => Self::of(s@) == Some(v.0),
                Err(e) => Self::of(s@) is None && e == ValidationError::UnknownValue(
                    Choice::ReposListUserType,
                ),
            },
    {
        if same_text(s, "all") {
            Ok(ReposListUserTypes(ReposListUserType::All))
        } else if same_text(s, "member") {
            Ok(ReposListUserTypes(ReposListUserType::Member))
        } else if same_text(s, "owner") {
            Ok(ReposListUserTypes(ReposListUserType::Owner))
        } else {
            Err(ValidationError::UnknownValue(Choice::ReposListUserType))
        }
    }
}

impl ReposListOrgTypes {
    /// The kind of repositories that a word stands for.
    pub open spec fn of(s: Seq<char>) -> Option<ReposListOrgType> {
        if s == "all"@ {
            Some(ReposListOrgType::All)
        } else if s == "forks"@ {
            Some(ReposListOrgType::Forks)
        } else if s == "internal"@ {
            Some(ReposListOrgType::Internal)
        } else if s == "member"@ {
            Some(ReposListOrgType::Member)
        } else if s == "private"@ {
            Some(ReposListOrgType::Private)
        } else if s == "public"@ {
            Some(ReposListOrgType::Public)
        } else if s == "sources"@ {
            Some(ReposListOrgType::Sources)
        } else {
            None
        }
    }

    /// Reads a kind of repositories: `all`, `forks`, `internal`, `member`,
    /// `private`, `public` or `sources`.
    pub fn parse(s: &str) -> (r: Result<ReposListOrgTypes, ValidationError>)
        ensures
            match r {
                Ok(v) => Self::of(s@) == Some(v.0),
                Err(e) => Self::of(s@) is None && e == ValidationError::UnknownValue(
                    Choice::ReposListOrgType,
                ),
            },
    {
        if same_text(s, "all") {
            Ok(ReposListOrgTypes(ReposListOrgType::All))
        } else if same_text(s, "forks") {
            Ok(ReposListOrgTypes(ReposListOrgType::Forks))
        } else if same_text(s, "internal") {
            Ok(ReposListOrgTypes(ReposListOrgType::Internal))
        } else if same_text(s, "member") {
            Ok(ReposListOrgTypes(ReposListOrgType::Member))
        } else if same_text(s, "private") {
            Ok(ReposListOrgTypes(ReposListOrgType::Private))
        } else if same_text(s, "public") {
            Ok(ReposListOrgTypes(ReposListOrgType::Public))
        } else if same_text(s, "sources") {
            Ok(ReposListOrgTypes(ReposListOrgType::Sources))
        } else {
            Err(ValidationError::UnknownValue(Choice::ReposListOrgType))
        }
    }
}

impl Visibilities {
    /// The visibility that a word stands for. The empty word leaves the
    /// visibility to the service.
    pub open spec fn of(s: Seq<char>) -> Option<ReposCreateInOrgRequestVisibility> {
        if s == ""@ {
            Some(ReposCreateInOrgRequestVisibility::Noop)
        } else if s == "private"@ {
            Some(ReposCreateInOrgRequestVisibility::Private)
        } else if s == "public"@ {
            Some(ReposCreateInOrgRequestVisibility::Public)
        } else if s == "internal"@ {
            Some(ReposCreateInOrgRequestVisibility::Internal)
        } else {
            None
        }
    }

    /// Reads a visibility: the empty word, `private`, `public` or
    /// `internal`.
    pub fn parse(s: &str) -> (r: Result<Visibilities, ValidationError>)
        ensures
            match r {
                Ok(v) => Self::of(s@) == Some(v.0),
                Err(e) => Self::of(s@) is None && e == ValidationError::UnknownValue(
                    Choice::Visibility,
                ),
            },
    {
        if same_text(s, "") {
            Ok(Visibilities(ReposCreateInOrgRequestVisibility::Noop))
        } else if same_text(s, "private") {
            Ok(Visibilities(ReposCreateInOrgRequestVisibility::Private))
        } else if same_text(s, "public") {
            Ok(Visibilities(ReposCreateInOrgRequestVisibility::Public))
        } else if same_text(s, "internal") {
            Ok(Visibilities(ReposCreateInOrgRequestVisibility::Internal))
        } else {
            Err(ValidationError::UnknownValue(Choice::Visibility))
        }
    }
}

impl States {
    /// The state that a word stands for.
    pub open spec fn of(s: Seq<char>) -> Option<State> {
        if s == "open"@ {
            Some(State::Open)
        } else if s == "closed"@ {
            Some(State::Closed)
        } else {
            None
        }
    }

    /// Reads the state of an issue: `open` or `closed`.
    pub fn parse(s: &str) -> (r: Result<States, ValidationError>)
        ensures
            match r {
                Ok(v) => Self::of(s@) == Some(v.0),
                Err(e) => Self::of(s@) is None && e == ValidationError::UnknownValue(
                    Choice::State,
                ),
            },
    {
        if same_text(s, "open") {
            Ok(States(State::Open))
        } else if same_text(s, "closed") {
            Ok(States(State::Closed))
        } else {
            Err(ValidationError::UnknownValue(Choice::State))
        }
    }
}

impl IssuesListStates {
    /// The word for a state.
    pub open spec fn word(state: IssuesListState) -> Seq<char> {
        match state {
            IssuesListState::Open => "open"@,
            IssuesListState::Closed => "closed"@,
            IssuesListState::All => "all"@,
        }
    }

    /// The state that a word stands for.
    pub open spec fn of(s: Seq<char>) -> Option<IssuesListState> {
        if s == "open"@ {
            Some(IssuesListState::Open)
        } else if s == "closed"@ {
            Some(IssuesListState::Closed)
        } else if s == "all"@ {
            Some(IssuesListState::All)
        } else {
            None
        }
    }

    /// Reads the states that a listing of issues asks for: `open`, `closed`
    /// or `all`.
    pub fn parse(s: &str) -> (r: Result<IssuesListStates, ValidationError>)
        ensures
            match r {
                Ok(v) => Self::of(s@) == Some(v.0),
                Err(e) => Self::of(s@) is None && e == ValidationError::UnknownValue(
                    Choice::IssuesListState,
                ),
            },
    {
        if same_text(s, "open") {
            Ok(IssuesListStates(IssuesListState::Open))
        } else if same_text(s, "closed") {
            Ok(IssuesListStates(IssuesListState::Closed))
        } else if same_text(s, "all") {
            Ok(IssuesListStates(IssuesListState::All))
        } else {
            Err(ValidationError::UnknownValue(Choice::IssuesListState))
        }
    }

    /// The word for the state.
    pub fn to_string(&self) -> (r: String)
        ensures
            r@ == Self::word(self.0),
    {
        match self.0 {
            IssuesListState::Open => "open".to_owned(),
            IssuesListState::Closed => "closed".to_owned(),
            IssuesListState::All => "all".to_owned(),
        }
    }
}

/// Reading the word for a state gives the state back.
pub proof fn lemma_list_state_round_trip(state: IssuesListState)
    ensures
        IssuesListStates::of(IssuesListStates::word(state)) == Some(state),
{
    reveal_strlit("open");
    reveal_strlit("closed");
    reveal_strlit("all");
    assert("open"@.len() == 4);
    assert("closed"@.len() == 6);
    assert("all"@.len() == 3);
}

impl CommentTarget {
    /// The target that a word stands for.
    pub open spec fn of(s: Seq<char>) -> Option<CommentTarget> {
        if s == "issue"@ {
            Some(CommentTarget::Issue)
        } else if s == "pull-request"@ {
            Some(CommentTarget::PullRequest)
        } else {
            None
        }
    }

    /// Reads the target of a listing of comments: `issue` or
    /// `pull-request`.
    pub fn parse(s: &str) -> (r: Result<CommentTarget, ValidationError>)
        ensures
            match r {
                Ok(v) => Self::of(s@) == Some(v),
                Err(e) => Self::of(s@) is None && e == ValidationError::UnknownValue(
                    Choice::CommentTarget,
                ),
            },
    {
        if same_text(s, "issue") {
            Ok(CommentTarget::Issue)
        } else if same_text(s, "pull-request") {
            Ok(CommentTarget::PullRequest)
        } else {
            Err(ValidationError::UnknownValue(Choice::CommentTarget))
        }
    }
}

/// Whether a text asks to leave a field as it is: the word `None`, with or
/// without whitespace around it.
pub open spec fn is_unset(s: Seq<char>) -> bool {
    trim(s) == "None"@
}

/// The text, unless it asks to leave the field as it is.
pub fn set_option_string(some_string: &String) -> (r: Option<&String>)
    ensures
        r == (if is_unset(some_string@) {
            None
        } else {
            Some(some_string)
        }),
{
    if same_text(trim_str(some_string.as_str()), "None") {
        None
    } else {
        Some(some_string)
    }
}

/// The page sizes that a listing accepts.
pub open spec fn is_page_size(n: int) -> bool {
    1 <= n <= 100
}

/// Checks the number of results on a page: from 1 to 100, and nothing is
/// clamped.
pub fn check_page_size(n: i64) -> (r: Result<i64, ValidationError>)
    ensures
        r == (if is_page_size(n as int) {
            Ok::<i64, ValidationError>(n)
        } else {
            Err::<i64, ValidationError>(ValidationError::PageSizeOutOfRange)
        }),
{
    if 1 <= n && n <= 100 {
        Ok(n)
    } else {
        Err(ValidationError::PageSizeOutOfRange)
    }
}

} // verus!
