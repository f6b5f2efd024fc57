use github_cli::error::{Field, ResolutionError, ValidationError};
use github_cli::repo_info::{to_https_url, to_ssh_url, Repo, RepoInfo, RepoName, RepoOwner, RepoSsh, RepoUrl};

fn owner(s: &str) -> RepoOwner {
    RepoOwner::parse(s).unwrap()
}

fn name(s: &str) -> RepoName {
    RepoName::parse(s).unwrap()
}

#[test]
fn valid_new_repo_info() {
    let repo_input = RepoInfo::new(
        Repo::Input,
        Some(owner("aragami3070")),
        Some(name("github-cli")),
        None,
    );
    let repo_current = RepoInfo::new(
        Repo::Current,
        None,
        None,
        Some("git@github.com:aragami3070/github-cli.git"),
    );
    assert_eq!(repo_input.unwrap(), repo_current.unwrap());
}

#[test]
fn valid_repo_owner() {
    assert_eq!(owner("aragami3070").trim(), "aragami3070");
    assert_eq!(owner("SE-legacy").trim(), "SE-legacy");
    assert_eq!(owner("The Drot Team").trim(), "The Drot Team");
}

#[test]
fn valid_repo_name() {
    assert_eq!(name("aragami3070").trim(), "aragami3070");
    assert_eq!(name("SE-legacy").trim(), "SE-legacy");
    assert_eq!(name("The Drot Team").trim(), "The Drot Team");
}

#[test]
fn invalid_repo_owner() {
    let empty = RepoOwner::parse("").unwrap_err();
    assert_eq!(empty, ValidationError::EmptyField(Field::RepoOwner));
    assert_eq!(empty.message(), "Repo owner cannot be empty");
    for input in ["owner/repo", "/owner", "/owner/repo/"] {
        let e = RepoOwner::parse(input).unwrap_err();
        assert_eq!(e, ValidationError::InvalidCharacter(Field::RepoOwner));
        assert_eq!(e.message(), "Repo owner cannot contain '/'");
    }
}

#[test]
fn invalid_repo_name() {
    let empty = RepoName::parse("").unwrap_err();
    assert_eq!(empty, ValidationError::EmptyField(Field::RepoName));
    assert_eq!(empty.message(), "Repo name cannot be empty");
    for input in ["owner/repo", "/owner", "/owner/repo/"] {
        let e = RepoName::parse(input).unwrap_err();
        assert_eq!(e, ValidationError::InvalidCharacter(Field::RepoName));
        assert_eq!(e.message(), "Repo name cannot contain '/'");
    }
}

#[test]
fn whitespace_only_is_empty() {
    assert_eq!(
        RepoOwner::parse(" \t\n").unwrap_err(),
        ValidationError::EmptyField(Field::RepoOwner)
    );
    assert_eq!(
        RepoName::parse("\u{3000}").unwrap_err(),
        ValidationError::EmptyField(Field::RepoName)
    );
}

#[test]
fn slash_wins_over_surrounding_whitespace() {
    assert_eq!(
        RepoOwner::parse("  /  ").unwrap_err(),
        ValidationError::InvalidCharacter(Field::RepoOwner)
    );
}

#[test]
fn parse_round_trips_to_trimmed_text() {
    for s in ["acme", "  acme", "acme  ", "\tac me\n", "\u{a0}x\u{2003}"] {
        let o = owner(s);
        assert_eq!(o.trim(), s.trim());
        assert_eq!(owner(o.trim()), o);
        let n = name(s);
        assert_eq!(n.trim(), s.trim());
    }
}

fn links(o: &str, n: &str) -> (String, String) {
    let repo = RepoInfo::new(Repo::Input, Some(owner(o)), Some(name(n)), None).unwrap();
    (repo.get_url().replace(" ", "-"), repo.get_ssh().replace(" ", "-"))
}

#[test]
fn valid_repo_url() {
    assert_eq!(links("aragami3070", "github-cli").0, "https://github.com/aragami3070/github-cli/");
    assert_eq!(links(" SE-legacy     ", "kg-exam-4sem").0, "https://github.com/SE-legacy/kg-exam-4sem/");
    assert_eq!(
        links("The Drot Team", "      Trash-Hack-Back-end").0,
        "https://github.com/The-Drot-Team/Trash-Hack-Back-end/"
    );
}

#[test]
fn valid_repo_ssh() {
    assert_eq!(links("aragami3070", "github-cli").1, "git@github.com:aragami3070/github-cli.git");
    assert_eq!(links(" SE-legacy     ", "kg-exam-4sem").1, "git@github.com:SE-legacy/kg-exam-4sem.git");
    assert_eq!(
        links("The Drot Team", "      Trash-Hack-Back-end").1,
        "git@github.com:The-Drot-Team/Trash-Hack-Back-end.git"
    );
}

#[test]
fn derived_addresses() {
    assert_eq!(to_https_url(&owner("acme"), &name("widgets")), "https://github.com/acme/widgets/");
    assert_eq!(to_ssh_url(&owner("acme"), &name("widgets")), "git@github.com:acme/widgets.git");
}

#[test]
fn current_mode_reads_ssh_remote() {
    let repo = RepoInfo::new(Repo::Current, None, None, Some("git@github.com:acme/widgets.git")).unwrap();
    assert_eq!(repo.get_owner(), "acme");
    assert_eq!(repo.get_name(), "widgets");
    assert_eq!(repo.get_url(), "https://github.com/acme/widgets/");
    assert_eq!(repo.get_ssh(), "git@github.com:acme/widgets.git");
}

#[test]
fn current_mode_is_the_same_for_both_url_styles() {
    let ssh = RepoInfo::new(Repo::Current, None, None, Some("git@github.com:acme/widgets.git")).unwrap();
    let https = RepoInfo::new(Repo::Current, None, None, Some("https://github.com/acme/widgets")).unwrap();
    assert_eq!(ssh, https);
    let with_suffix =
        RepoInfo::new(Repo::Current, None, None, Some("  https://github.com/acme/widgets.git\n")).unwrap();
    assert_eq!(with_suffix, ssh);
}

#[test]
fn current_mode_ignores_owner_and_name() {
    let repo = RepoInfo::new(
        Repo::Current,
        Some(owner("other")),
        Some(name("thing")),
        Some("https://github.com/acme/widgets"),
    )
    .unwrap();
    assert_eq!(repo.get_owner(), "acme");
    assert_eq!(repo.get_name(), "widgets");
}

#[test]
fn current_mode_without_git() {
    assert_eq!(
        RepoInfo::new(Repo::Current, None, None, None).unwrap_err(),
        ResolutionError::GitNotFound
    );
    assert_eq!(
        RepoInfo::get_current_repo(None).unwrap_err().message(),
        "Git repository not found in this directory"
    );
}

#[test]
fn remote_with_fewer_than_two_segments() {
    for url in ["", "   ", "widgets", "widgets.git", "/widgets/", ":::", ".git"] {
        assert_eq!(
            RepoInfo::parse_github_url(url).unwrap_err(),
            ResolutionError::UnparsableRemoteUrl,
            "{url:?}"
        );
    }
    assert_eq!(ResolutionError::UnparsableRemoteUrl.message(), "Can't parse string");
}

#[test]
fn remote_with_two_segments() {
    let (o, n) = RepoInfo::parse_github_url("acme/widgets").unwrap();
    assert_eq!((o.trim(), n.trim()), ("acme", "widgets"));
    let (o, n) = RepoInfo::parse_github_url("acme//widgets/").unwrap();
    assert_eq!((o.trim(), n.trim()), ("acme", "widgets"));
}

#[test]
fn remote_loses_one_suffix_only() {
    let (o, n) = RepoInfo::parse_github_url("git@host:acme/widgets.git.git").unwrap();
    assert_eq!((o.trim(), n.trim()), ("acme", "widgets.git"));
}

#[test]
fn remote_with_blank_segment_is_unparsable() {
    assert_eq!(
        RepoInfo::parse_github_url("host: /widgets").unwrap_err(),
        ResolutionError::UnparsableRemoteUrl
    );
}

#[test]
fn input_mode_without_owner() {
    assert_eq!(
        RepoInfo::new(Repo::Input, None, Some(name("widgets")), None).unwrap_err(),
        ResolutionError::MissingOwner
    );
    assert_eq!(
        RepoInfo::new(Repo::Input, None, None, Some("git@github.com:acme/widgets.git")).unwrap_err(),
        ResolutionError::MissingOwner
    );
    assert_eq!(ResolutionError::MissingOwner.message(), "Not found repo owner");
}

#[test]
fn input_mode_without_name() {
    assert_eq!(
        RepoInfo::create_repo_info(Some(owner("acme")), None).unwrap_err(),
        ResolutionError::MissingName
    );
    assert_eq!(ResolutionError::MissingName.message(), "Not found repo name");
}

#[test]
fn release_address() {
    let repo = RepoInfo::create_repo_info(Some(owner("acme")), Some(name("widgets"))).unwrap();
    assert_eq!(
        repo.get_release_url(&" v1.0 ".to_string()),
        "https://github.com/acme/widgets/releases/tag/v1.0"
    );
}

#[test]
fn addresses_grow_by_push() {
    let mut url = RepoUrl::new("a");
    url.push_str("bc");
    url.push_str("");
    assert_eq!(url.into_string(), "abc");
    let mut ssh = RepoSsh::new("");
    ssh.push_str("x");
    ssh.push_str("y");
    assert_eq!(ssh.clone().into_string(), "xy");
}
