use review_ui::github_remote::parse_github_remote;

fn parsed(url: &str) -> Option<(String, String)> {
    parse_github_remote(url).ok()
}

fn pair(owner: &str, repo: &str) -> Option<(String, String)> {
    Some((owner.to_string(), repo.to_string()))
}

#[test]
fn every_form_of_url_is_understood() {
    for prefix in ["git@github.com:", "https://github.com/", "http://github.com/"] {
        assert_eq!(parsed(&format!("{}zed-industries/zed", prefix)), pair("zed-industries", "zed"));
        assert_eq!(
            parsed(&format!("{}zed-industries/zed.git", prefix)),
            pair("zed-industries", "zed")
        );
    }
}

#[test]
fn git_endings_are_dropped_however_many() {
    assert_eq!(parsed("git@github.com:a/b.git.git"), pair("a", "b"));
    assert_eq!(parsed("https://github.com/a/.git"), pair("a", ""));
    assert_eq!(parsed("https://github.com/a/git"), pair("a", "git"));
    assert_eq!(parsed("https://github.com/a/b.gitx"), pair("a", "b.gitx"));
}

#[test]
fn the_first_slash_separates() {
    assert_eq!(parsed("https://github.com/a/b/c"), pair("a", "b/c"));
    assert_eq!(parsed("https://github.com//b"), pair("", "b"));
    assert_eq!(parsed("https://github.com/a.git/b.git"), pair("a.git", "b"));
    assert_eq!(parsed("git@github.com:é/漢字.git"), pair("é", "漢字"));
}

#[test]
fn other_urls_are_refused_with_a_message() {
    for url in [
        "",
        "https://gitlab.com/a/b",
        "https://github.com/a",
        "git@github.com:a.git",
        "git@github.com:",
        "ssh://git@github.com/a/b",
        "HTTPS://github.com/a/b",
        "github.com/a/b",
        "git@github.com",
    ] {
        let error = parse_github_remote(url).unwrap_err();
        assert_eq!(
            error.message(),
            format!("Could not parse GitHub owner/repo from remote URL: {}", url)
        );
    }
}
