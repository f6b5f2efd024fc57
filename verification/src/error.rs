//! The errors of the library. Each layer returns one of them; nothing in the
//! library ends the process.

use vstd::prelude::*;
use vstd::string::*;

verus! {

/// What a text was meant for.
#[derive(Debug, Clone, Copy, PartialEq, Eq, Structural)]
pub enum Field {
    RepoOwner,
    RepoName,
    IssueTitle,
}

/// The closed sets of words that an argument may be taken from.
#[derive(Debug, Clone, Copy, PartialEq, Eq, Structural)]
pub enum Choice {
    Order,
    Sort,
    ReposListOrgSort,
    ReposListUserType,
    ReposListOrgType,
    Visibility,
    State,
    IssuesListState,
    CommentTarget,
}

/// An argument that is not well formed.
#[derive(Debug, Clone, Copy, PartialEq, Eq, Structural)]
pub enum ValidationError {
    /// The text is empty; for an owner or a name, nothing is left of it once
    /// it is trimmed.
    EmptyField(Field),
    /// The text holds a `/`.
    InvalidCharacter(Field),
    /// A page size below 1 or above 100.
    PageSizeOutOfRange,
    /// The word is none of those that the enumeration knows.
    UnknownValue(Choice),
    /// A repository path without a `/` between owner and name.
    InvalidUrl,
    /// A text that should be a number and is none.
    InvalidNumber,
}

/// The target repository could not be determined.
#[derive(Debug, Clone, Copy, PartialEq, Eq, Structural)]
pub enum ResolutionError {
    MissingOwner,
    MissingName,
    GitNotFound,
    UnparsableRemoteUrl,
}

/// A failure that the remote service reported, with its own words.
#[derive(Debug, Clone, PartialEq, Eq)]
pub struct ApiError {
    pub message: String,
}

/// What went wrong while a response was laid out for display.
#[derive(Debug, Clone, Copy, PartialEq, Eq, Structural)]
pub enum PrintErrorKind {
    /// The response lacks something that the display needs.
    BadResponse,
}

/// A response that cannot be displayed.
#[derive(Debug, Clone, PartialEq, Eq)]
pub struct PrintError {
    pub kind: PrintErrorKind,
    pub description: String,
}

/// Any failure of a command.
#[derive(Debug, Clone, PartialEq, Eq)]
pub enum Error {
    Validation(ValidationError),
    Resolution(ResolutionError),
    Api(ApiError),
    Print(PrintError),
}

impl Field {
    pub open spec fn label(self) -> Seq<char> {
        match self {
            Field::RepoOwner => "Repo owner"@,
            Field::RepoName => "Repo name"@,
            Field::IssueTitle => "Issue title"@,
        }
    }
}

impl Choice {
    pub open spec fn text(self) -> Seq<char> {
        match self {
            Choice::Order => "Bad input. Order can be only 'asc' or 'desc'"@,
            Choice::Sort => "Bad input. Sort can be only 'created' or 'updated'"@,
            Choice::ReposListOrgSort =>
                "Bad input. Sort can be only 'created', 'fullname', 'pushed' or 'updated'"@,
            Choice::ReposListUserType => "Bad input. Type can be only 'all', 'member' or 'owner'"@,
            Choice::ReposListOrgType =>
                "Bad input. Type can be only 'all', 'forks', 'internal', 'member', 'private', 'public' or 'sources'"@,
            Choice::Visibility =>
                "Bad input. Visibility can be only '', 'public', 'private' or 'internal'"@,
            Choice::State => "Bad input. State can be only 'open' or 'closed'"@,
            Choice::IssuesListState => "Bad input. State can be only 'open', 'all', 'closed'"@,
            Choice::CommentTarget =>
                "Bad input. Comment target can be only 'issue' or 'pull-request'"@,
        }
    }

    /// The words that tell the user which values are accepted.
    pub fn message(self) -> (r: &'static str)
        ensures
            r@ == self.text(),
    {
        match self {
            Choice::Order => "Bad input. Order can be only 'asc' or 'desc'",
            Choice::Sort => "Bad input. Sort can be only 'created' or 'updated'",
            Choice::ReposListOrgSort =>
                "Bad input. Sort can be only 'created', 'fullname', 'pushed' or 'updated'",
            Choice::ReposListUserType => "Bad input. Type can be only 'all', 'member' or 'owner'",
            Choice::ReposListOrgType =>
                "Bad input. Type can be only 'all', 'forks', 'internal', 'member', 'private', 'public' or 'sources'",
            Choice::Visibility =>
                "Bad input. Visibility can be only '', 'public', 'private' or 'internal'",
            Choice::State => "Bad input. State can be only 'open' or 'closed'",
            Choice::IssuesListState => "Bad input. State can be only 'open', 'all', 'closed'",
            Choice::CommentTarget =>
                "Bad input. Comment target can be only 'issue' or 'pull-request'",
        }
    }
}

impl ValidationError {
    pub open spec fn text(self) -> Seq<char> {
        match self {
            ValidationError::EmptyField(field) => field.label() + " cannot be empty"@,
            ValidationError::InvalidCharacter(field) => field.label() + " cannot contain '/'"@,
            ValidationError::PageSizeOutOfRange => "Results on page must be between 1 and 100"@,
            ValidationError::UnknownValue(choice) => choice.text(),
            ValidationError::InvalidUrl => "This url isn't valid"@,
            ValidationError::InvalidNumber => "Can't read the number of the issue"@,
        }
    }

    /// The error in words.
    pub fn message(&self) -> (r: String)
        ensures
            r@ == self.text(),
    {
        match self {
            ValidationError::EmptyField(field) => {
                let mut r = field_label(*field);
                r.append(" cannot be empty");
                r
            },
            ValidationError::InvalidCharacter(field) => {
                let mut r = field_label(*field);
                r.append(" cannot contain '/'");
                r
            },
            ValidationError::PageSizeOutOfRange => {
                "Results on page must be between 1 and 100".to_owned()
            },
            ValidationError::UnknownValue(choice) => choice.message().to_owned(),
            ValidationError::InvalidUrl => "This url isn't valid".to_owned(),
            ValidationError::InvalidNumber => "Can't read the number of the issue".to_owned(),
        }
    }
}

fn field_label(field: Field) -> (r: String)
    ensures
        r@ == field.label(),
{
    match field {
        Field::RepoOwner => "Repo owner".to_owned(),
        Field::RepoName => "Repo name".to_owned(),
        Field::IssueTitle => "Issue title".to_owned(),
    }
}

impl ResolutionError {
    pub open spec fn text(self) -> Seq<char> {
        match self {
            ResolutionError::MissingOwner => "Not found repo owner"@,
            ResolutionError::MissingName => "Not found repo name"@,
            ResolutionError::GitNotFound => "Git repository not found in this directory"@,
            ResolutionError::UnparsableRemoteUrl => "Can't parse string"@,
        }
    }

    /// The error in words.
    pub fn message(&self) -> (r: String)
        ensures
            r@ == self.text(),
    {
        match self {
            ResolutionError::MissingOwner => "Not found repo owner".to_owned(),
            ResolutionError::MissingName => "Not found repo name".to_owned(),
            ResolutionError::GitNotFound => "Git repository not found in this directory".to_owned(),
            ResolutionError::UnparsableRemoteUrl => "Can't parse string".to_owned(),
        }
    }
}

impl ApiError {
    pub fn new(message: String) -> (r: ApiError)
        ensures
            r.message == message,
    {
        ApiError { message }
    }

    /// The service's own words, as they came.
    pub fn message(&self) -> (r: String)
        ensures
            r@ == self.message@,
    {
        self.message.clone()
    }
}

impl PrintError {
    /// A response that lacks what `description` names.
    pub fn bad_response(description: String) -> (r: PrintError)
        ensures
            r.kind == PrintErrorKind::BadResponse,
            r.description == description,
    {
        PrintError { kind: PrintErrorKind::BadResponse, description }
    }

    pub open spec fn text(self) -> Seq<char> {
        match self.kind {
            PrintErrorKind::BadResponse =>
                "tried print, but the github response turned out to be invalid.\nDescription: "@
                    + self.description@,
        }
    }

    /// The error in words.
    pub fn message(&self) -> (r: String)
        ensures
            r@ == self.text(),
    {
        match self.kind {
            PrintErrorKind::BadResponse => {
                let mut r =
                    "tried print, but the github response turned out to be invalid.\nDescription: ".to_owned();
                r.append(self.description.as_str());
                r
            },
        }
    }
}

impl Error {
    pub open spec fn text(self) -> Seq<char> {
        match self {
            Error::Validation(e) => e.text(),
            Error::Resolution(e) => e.text(),
            Error::Api(e) => e.message@,
            Error::Print(e) => e.text(),
        }
    }

    /// The error in words, as it is reported to the user.
    pub fn message(&self) -> (r: String)
        ensures
            r@ == self.text(),
    {
        match self {
            Error::Validation(e) => e.message(),
            Error::Resolution(e) => e.message(),
            Error::Api(e) => e.message(),
            Error::Print(e) => e.message(),
        }
    }
}

} // verus!
