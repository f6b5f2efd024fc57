use github_cli::error::{Choice, Error, ValidationError};
use github_cli::set_vars::{
    check_page_size, set_option_string, CommentTarget, IssuesListStates, Orders,
    ReposListOrgSorts, ReposListOrgTypes, ReposListUserTypes, Sorts, States, Visibilities,
};
use github_cli::types::{
    IssuesListState, Order, ReposCreateInOrgRequestVisibility, ReposListOrgSort,
    ReposListOrgType, ReposListUserType, Sort, State,
};

#[test]
fn orders() {
    assert_eq!(Orders::parse("asc"), Ok(Orders(Order::Asc)));
    assert_eq!(Orders::parse("desc"), Ok(Orders(Order::Desc)));
    for bad in ["", "ASC", "asc ", "ascending", "noop"] {
        let e = Orders::parse(bad).unwrap_err();
        assert_eq!(e, ValidationError::UnknownValue(Choice::Order));
        assert_eq!(e.message(), "Bad input. Order can be only 'asc' or 'desc'");
    }
}

#[test]
fn sorts() {
    assert_eq!(Sorts::parse("created"), Ok(Sorts(Sort::Created)));
    assert_eq!(Sorts::parse("updated"), Ok(Sorts(Sort::Updated)));
    let e = Sorts::parse("pushed").unwrap_err();
    assert_eq!(e, ValidationError::UnknownValue(Choice::Sort));
    assert_eq!(e.message(), "Bad input. Sort can be only 'created' or 'updated'");
}

#[test]
fn repos_list_org_sorts() {
    assert_eq!(ReposListOrgSorts::parse("created"), Ok(ReposListOrgSorts(ReposListOrgSort::Created)));
    assert_eq!(ReposListOrgSorts::parse("fullname"), Ok(ReposListOrgSorts(ReposListOrgSort::FullName)));
    assert_eq!(ReposListOrgSorts::parse("pushed"), Ok(ReposListOrgSorts(ReposListOrgSort::Pushed)));
    assert_eq!(ReposListOrgSorts::parse("updated"), Ok(ReposListOrgSorts(ReposListOrgSort::Updated)));
    let e = ReposListOrgSorts::parse("full_name").unwrap_err();
    assert_eq!(e, ValidationError::UnknownValue(Choice::ReposListOrgSort));
    assert_eq!(e.message(), "Bad input. Sort can be only 'created', 'fullname', 'pushed' or 'updated'");
}

#[test]
fn repos_list_user_types() {
    assert_eq!(ReposListUserTypes::parse("all"), Ok(ReposListUserTypes(ReposListUserType::All)));
    assert_eq!(ReposListUserTypes::parse("member"), Ok(ReposListUserTypes(ReposListUserType::Member)));
    assert_eq!(ReposListUserTypes::parse("owner"), Ok(ReposListUserTypes(ReposListUserType::Owner)));
    let e = ReposListUserTypes::parse("private").unwrap_err();
    assert_eq!(e, ValidationError::UnknownValue(Choice::ReposListUserType));
    assert_eq!(e.message(), "Bad input. Type can be only 'all', 'member' or 'owner'");
}

#[test]
fn repos_list_org_types() {
    let cases = [
        ("all", ReposListOrgType::All),
        ("forks", ReposListOrgType::Forks),
        ("internal", ReposListOrgType::Internal),
        ("member", ReposListOrgType::Member),
        ("private", ReposListOrgType::Private),
        ("public", ReposListOrgType::Public),
        ("sources", ReposListOrgType::Sources),
    ];
    for (word, value) in cases {
        assert_eq!(ReposListOrgTypes::parse(word), Ok(ReposListOrgTypes(value)));
    }
    let e = ReposListOrgTypes::parse("owner").unwrap_err();
    assert_eq!(e, ValidationError::UnknownValue(Choice::ReposListOrgType));
    assert_eq!(
        e.message(),
        "Bad input. Type can be only 'all', 'forks', 'internal', 'member', 'private', 'public' or 'sources'"
    );
}

#[test]
fn visibilities() {
    assert_eq!(Visibilities::parse(""), Ok(Visibilities(ReposCreateInOrgRequestVisibility::Noop)));
    assert_eq!(Visibilities::parse("private"), Ok(Visibilities(ReposCreateInOrgRequestVisibility::Private)));
    assert_eq!(Visibilities::parse("public"), Ok(Visibilities(ReposCreateInOrgRequestVisibility::Public)));
    assert_eq!(Visibilities::parse("internal"), Ok(Visibilities(ReposCreateInOrgRequestVisibility::Internal)));
    let e = Visibilities::parse(" ").unwrap_err();
    assert_eq!(e, ValidationError::UnknownValue(Choice::Visibility));
    assert_eq!(e.message(), "Bad input. Visibility can be only '', 'public', 'private' or 'internal'");
}

#[test]
fn states() {
    assert_eq!(States::parse("open"), Ok(States(State::Open)));
    assert_eq!(States::parse("closed"), Ok(States(State::Closed)));
    let e = States::parse("all").unwrap_err();
    assert_eq!(e, ValidationError::UnknownValue(Choice::State));
    assert_eq!(e.message(), "Bad input. State can be only 'open' or 'closed'");
}

#[test]
fn issues_list_states() {
    assert_eq!(IssuesListStates::parse("open"), Ok(IssuesListStates(IssuesListState::Open)));
    assert_eq!(IssuesListStates::parse("closed"), Ok(IssuesListStates(IssuesListState::Closed)));
    assert_eq!(IssuesListStates::parse("all"), Ok(IssuesListStates(IssuesListState::All)));
    let e = IssuesListStates::parse("Open").unwrap_err();
    assert_eq!(e, ValidationError::UnknownValue(Choice::IssuesListState));
    assert_eq!(e.message(), "Bad input. State can be only 'open', 'all', 'closed'");
}

#[test]
fn issues_list_state_words_round_trip() {
    for state in [IssuesListState::Open, IssuesListState::Closed, IssuesListState::All] {
        let word = IssuesListStates(state).to_string();
        assert_eq!(IssuesListStates::parse(&word), Ok(IssuesListStates(state)));
    }
    assert_eq!(IssuesListStates(IssuesListState::Open).to_string(), "open");
    assert_eq!(IssuesListStates(IssuesListState::Closed).to_string(), "closed");
    assert_eq!(IssuesListStates(IssuesListState::All).to_string(), "all");
}

#[test]
fn comment_targets() {
    assert_eq!(CommentTarget::parse("issue"), Ok(CommentTarget::Issue));
    assert_eq!(CommentTarget::parse("pull-request"), Ok(CommentTarget::PullRequest));
    let e = CommentTarget::parse("pull_request").unwrap_err();
    assert_eq!(e, ValidationError::UnknownValue(Choice::CommentTarget));
    assert_eq!(e.message(), "Bad input. Comment target can be only 'issue' or 'pull-request'");
}

#[test]
fn the_word_none_unsets() {
    for text in ["None", " None", "None\n", "\t None  "] {
        assert_eq!(set_option_string(&text.to_string()), None);
    }
    for text in ["", "none", "Non", "None x", "x None", "No ne"] {
        let owned = text.to_string();
        assert_eq!(set_option_string(&owned), Some(&owned));
    }
}

#[test]
fn page_sizes() {
    assert_eq!(check_page_size(0), Err(ValidationError::PageSizeOutOfRange));
    assert_eq!(check_page_size(101), Err(ValidationError::PageSizeOutOfRange));
    assert_eq!(check_page_size(-5), Err(ValidationError::PageSizeOutOfRange));
    assert_eq!(check_page_size(1), Ok(1));
    assert_eq!(check_page_size(100), Ok(100));
    assert_eq!(check_page_size(30), Ok(30));
    assert_eq!(
        Error::Validation(ValidationError::PageSizeOutOfRange).message(),
        "Results on page must be between 1 and 100"
    );
}
