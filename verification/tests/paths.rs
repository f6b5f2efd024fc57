use github_cli::common::url_to_vars;
use github_cli::error::{ResolutionError, ValidationError};
use github_cli::get_repo_info::{get_current_repo, parse_github_url};

#[test]
fn path_is_cut_at_the_first_slash() {
    assert_eq!(url_to_vars(&"acme/widgets".to_string()), Ok(("acme".to_string(), "widgets".to_string())));
    assert_eq!(url_to_vars(&"a/b/c".to_string()), Ok(("a".to_string(), "b/c".to_string())));
    assert_eq!(url_to_vars(&"/x".to_string()), Ok(("".to_string(), "x".to_string())));
    assert_eq!(url_to_vars(&"x/".to_string()), Ok(("x".to_string(), "".to_string())));
    assert_eq!(url_to_vars(&"é/ü".to_string()), Ok(("é".to_string(), "ü".to_string())));
}

#[test]
fn path_without_slash_is_refused() {
    for path in ["", "acme", "acme:widgets"] {
        let e = url_to_vars(&path.to_string()).unwrap_err();
        assert_eq!(e, ValidationError::InvalidUrl);
        assert_eq!(e.message(), "This url isn't valid");
    }
}

#[test]
fn remote_as_a_path() {
    assert_eq!(parse_github_url("git@github.com:acme/widgets.git"), Ok("acme/widgets".to_string()));
    assert_eq!(parse_github_url(" https://github.com/acme/widgets\n"), Ok("acme/widgets".to_string()));
    assert_eq!(parse_github_url("widgets"), Err(ResolutionError::UnparsableRemoteUrl));
}

#[test]
fn current_repo_as_a_path() {
    assert_eq!(get_current_repo(Some("git@github.com:acme/widgets.git")), Ok("acme/widgets".to_string()));
    assert_eq!(get_current_repo(None), Err(ResolutionError::GitNotFound));
    assert_eq!(get_current_repo(Some("")), Err(ResolutionError::UnparsableRemoteUrl));
}
