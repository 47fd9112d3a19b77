use release::remote_url::{org_and_repo_from_url, RemoteUrlError, UrlProblem};

fn pair(org: &str, repo: &str) -> Result<(String, String), UrlProblem> {
    Ok((org.to_string(), repo.to_string()))
}

#[test]
fn the_three_forms_of_url() {
    assert_eq!(org_and_repo_from_url("git@github.com:my-org/my-repo.git"), pair("my-org", "my-repo"));
    assert_eq!(
        org_and_repo_from_url("https://github.com/another-org/awesome-repo.git"),
        pair("another-org", "awesome-repo")
    );
    assert_eq!(
        org_and_repo_from_url("ssh://git@github.com/yet-another-org/cool-repo.git"),
        pair("yet-another-org", "cool-repo")
    );
}

#[test]
fn the_git_ending_is_optional_and_may_repeat() {
    assert_eq!(org_and_repo_from_url("https://github.com/org/repo"), pair("org", "repo"));
    assert_eq!(org_and_repo_from_url("https://github.com/org/repo.git.git"), pair("org", "repo"));
    assert_eq!(org_and_repo_from_url("https://github.com/org/repo.gitx"), pair("org", "repo.gitx"));
    assert_eq!(org_and_repo_from_url("https://github.com/org/.git"), pair("org", ""));
}

#[test]
fn further_parts_are_not_looked_at() {
    assert_eq!(org_and_repo_from_url("https://github.com/org/repo/tree/main"), pair("org", "repo"));
    assert_eq!(org_and_repo_from_url("https://www.github.com:443/org/repo"), pair("443", "org"));
    assert_eq!(org_and_repo_from_url("https://github.com//repo"), pair("", "repo"));
}

#[test]
fn urls_of_other_hosts_are_refused() {
    assert_eq!(org_and_repo_from_url("https://gitlab.com/org/repo.git"), Err(UrlProblem::NotGithub));
    assert_eq!(org_and_repo_from_url(""), Err(UrlProblem::NotGithub));
    assert_eq!(org_and_repo_from_url("github.co/org/repo"), Err(UrlProblem::NotGithub));
    assert_eq!(org_and_repo_from_url("https://github.org/org/repo"), Err(UrlProblem::NotGithub));
}

#[test]
fn urls_that_end_too_early_are_refused() {
    assert_eq!(org_and_repo_from_url("https://github.com"), Err(UrlProblem::Incomplete));
    assert_eq!(org_and_repo_from_url("https://github.com.git"), Err(UrlProblem::Incomplete));
    assert_eq!(org_and_repo_from_url("https://github.com/"), Err(UrlProblem::Incomplete));
    assert_eq!(org_and_repo_from_url("https://github.com/org"), Err(UrlProblem::Incomplete));
    assert_eq!(org_and_repo_from_url("git@github.com:org.git"), Err(UrlProblem::Incomplete));
    assert_eq!(org_and_repo_from_url("https://github.com/org/"), pair("org", ""));
}

#[test]
fn url_errors_quote_the_url() {
    assert_eq!(
        RemoteUrlError::NotGithub { url: "https://gitlab.com/a/b".to_string() }.message(),
        "URL 'https://gitlab.com/a/b' does not look like a GitHub URL"
    );
    assert_eq!(
        RemoteUrlError::Incomplete { url: "https://github.com/a".to_string() }.message(),
        "Could not parse organization and repo name from 'https://github.com/a'"
    );
    assert_eq!(RemoteUrlError::NoUrl.message(), "Remote has no URL");
    assert_eq!(
        RemoteUrlError::NoOrigin { cause: "remote 'origin' does not exist".to_string() }.message(),
        "Could not find remote 'origin'; remote origin required in order to parse organization/repo"
    );
}
