//! Tests for the URL grammar, the two URL formatters, and repository
//! name derivation.

use git_repo_name::github_url;
use git_repo_name::file_url;
use git_repo_name::paths::{
    extract_repo_name_from_path, strip_file_scheme, strip_file_scheme_all, wrap_file_scheme,
    parent_dir, join_path, is_canonical_file_url,
};

#[test]
fn test_extract_repo_name_from_path() {
    let test_cases = vec![
        ("/path/to/repo.git", "repo"),
        ("/path/to/repo", "repo"),
        ("repo.git", "repo"),
        ("repo", "repo"),
        ("file:///path/to/repo.git", "repo"),
        ("file:///path/to/repo", "repo"),
    ];

    for (url, expected) in test_cases {
        assert_eq!(extract_repo_name_from_path(url).unwrap(), expected);
    }
}

#[test]
fn test_extract_repo_name_edge_cases() {
    assert_eq!(extract_repo_name_from_path("/a/b/").unwrap(), "b");
    assert_eq!(extract_repo_name_from_path("/a/b/.").unwrap(), "b");
    assert!(extract_repo_name_from_path("/").is_err());
    assert!(extract_repo_name_from_path("").is_err());
    assert!(extract_repo_name_from_path("..").is_err());
    assert!(extract_repo_name_from_path("/a/..").is_err());
    assert!(extract_repo_name_from_path(".").is_err());
}

#[test]
fn url_test_parse_github_url() {
    let test_cases = vec![
        // HTTPS URLs
        ("https://github.com/owner/repo.git", ("owner", "repo")),
        ("https://github.com/owner/repo", ("owner", "repo")),
        ("https://www.github.com/owner/repo.git", ("owner", "repo")),
        ("https://www.github.com/owner/repo", ("owner", "repo")),
        // SSH URLs
        ("git@github.com:owner/repo.git", ("owner", "repo")),
        ("git@github.com:owner/repo", ("owner", "repo")),
        ("ssh://git@github.com/owner/repo.git", ("owner", "repo")),
        ("ssh://git@github.com/owner/repo", ("owner", "repo")),
        // Git protocol URLs
        ("git://github.com/owner/repo.git", ("owner", "repo")),
        ("git://github.com/owner/repo", ("owner", "repo")),
    ];

    for (url, (expected_owner, expected_repo)) in test_cases {
        let (owner, repo) = github_url::parse_github_url(url).unwrap();
        assert_eq!(owner, expected_owner);
        assert_eq!(repo, expected_repo);
    }
}

#[test]
fn github_test_parse_github_url() {
    let test_cases = vec![
        ("https://github.com/owner/repo.git", ("owner", "repo")),
        ("https://github.com/owner/repo", ("owner", "repo")),
        ("https://www.github.com/owner/repo.git", ("owner", "repo")),
        ("https://www.github.com/owner/repo", ("owner", "repo")),
        ("git@github.com:owner/repo.git", ("owner", "repo")),
        ("git@github.com:owner/repo", ("owner", "repo")),
        ("ssh://git@github.com/owner/repo.git", ("owner", "repo")),
        ("ssh://git@github.com/owner/repo", ("owner", "repo")),
        ("git://github.com/owner/repo.git", ("owner", "repo")),
        ("git://github.com/owner/repo", ("owner", "repo")),
    ];

    for (url, (expected_owner, expected_repo)) in test_cases {
        let (owner, repo) = github_url::parse_github_url(url).unwrap();
        assert_eq!(owner, expected_owner);
        assert_eq!(repo, expected_repo);
    }
}

#[test]
fn test_parse_github_url_rejects() {
    assert!(github_url::parse_github_url("https://gitlab.com/owner/repo.git").is_err());
    assert!(github_url::parse_github_url("https://github.com/owner").is_err());
    assert!(github_url::parse_github_url("https://github.com/owner/a/b").is_err());
    assert!(github_url::parse_github_url("https://github.com//repo").is_err());
    assert!(github_url::parse_github_url("https://github.com/owner/").is_err());
    // A tail of exactly `.git` leaves an empty name.
    assert!(github_url::parse_github_url("https://github.com/owner/.git").is_err());
    // Whitespace in the tail is outside the grammar.
    assert!(github_url::parse_github_url("https://github.com/owner/re po").is_err());
    match github_url::parse_github_url("https://not-github.com/owner/repo.git") {
        Err(e) => {
            assert!(e.message().contains("Invalid GitHub URL"));
        }
        Ok(_) => panic!("expected an error"),
    }
}

#[test]
fn test_parse_github_url_dotted_names() {
    // A dot in the name is part of the name; only one final `.git` is
    // stripped.
    let (owner, repo) = github_url::parse_github_url("https://github.com/owner/re.po").unwrap();
    assert_eq!((owner.as_str(), repo.as_str()), ("owner", "re.po"));
    let (owner, repo) =
        github_url::parse_github_url("https://github.com/vercel/next.js.git").unwrap();
    assert_eq!((owner.as_str(), repo.as_str()), ("vercel", "next.js"));
    let (owner, repo) = github_url::parse_github_url("git@github.com:owner/lib.git.git").unwrap();
    assert_eq!((owner.as_str(), repo.as_str()), ("owner", "lib.git"));
}

#[test]
fn test_host_case_insensitive() {
    // The scheme-and-host prefix is matched case-insensitively; owner
    // and name keep their case.
    assert!(github_url::is_github_url("HTTPS://GitHub.COM/Owner/Repo.git"));
    assert!(github_url::is_github_url("https://WWW.github.com/owner/repo"));
    assert!(github_url::is_github_url("GIT@GITHUB.COM:owner/repo.git"));
    let (owner, repo) = github_url::parse_github_url("https://GITHUB.com/Owner/Repo.git").unwrap();
    assert_eq!((owner.as_str(), repo.as_str()), ("Owner", "Repo"));
}

#[test]
fn test_grammar_lockstep() {
    // Detection and capture share one grammar: parse succeeds exactly
    // on the URLs detection accepts.
    let urls = vec![
        "https://github.com/owner/repo.git",
        "https://github.com/owner/re.po",
        "https://github.com/vercel/next.js",
        "https://github.com/owner/.git",
        "https://github.com/owner/re po",
        "https://github.com/owner",
        "https://gitlab.com/owner/repo.git",
        "git@github.com:owner/repo",
        "git@github.com:",
        "ssh://git@github.com/o/n.git",
        "HTTPS://GITHUB.COM/o/n",
        "/srv/git/demo.git",
        "file:///srv/git/demo.git",
    ];
    for url in urls {
        assert_eq!(
            github_url::is_github_url(url),
            github_url::parse_github_url(url).is_ok(),
            "detection and capture disagree on {}",
            url
        );
    }
}

#[test]
fn url_test_is_github_url() {
    // Valid URLs
    assert!(github_url::is_github_url("https://github.com/owner/repo.git"));
    assert!(github_url::is_github_url("https://github.com/owner/repo"));
    assert!(github_url::is_github_url("https://www.github.com/owner/repo.git"));
    assert!(github_url::is_github_url("https://www.github.com/owner/repo"));
    assert!(github_url::is_github_url("git@github.com:owner/repo.git"));
    assert!(github_url::is_github_url("git@github.com:owner/repo"));
    assert!(github_url::is_github_url("ssh://git@github.com/owner/repo.git"));
    assert!(github_url::is_github_url("ssh://git@github.com/owner/repo"));
    assert!(github_url::is_github_url("git://github.com/owner/repo.git"));
    assert!(github_url::is_github_url("git://github.com/owner/repo"));

    // Invalid URLs
    assert!(!github_url::is_github_url("https://gitlab.com/owner/repo.git"));
    assert!(!github_url::is_github_url("git@gitlab.com:owner/repo.git"));
    assert!(!github_url::is_github_url("https://github.com"));
    assert!(!github_url::is_github_url("git@github.com:"));
}

#[test]
fn github_test_is_github_url() {
    assert!(github_url::is_github_url("https://github.com/owner/repo.git"));
    assert!(github_url::is_github_url("https://github.com/owner/repo"));
    assert!(github_url::is_github_url("https://www.github.com/owner/repo.git"));
    assert!(github_url::is_github_url("https://www.github.com/owner/repo"));
    assert!(github_url::is_github_url("git@github.com:owner/repo.git"));
    assert!(github_url::is_github_url("git@github.com:owner/repo"));
    assert!(github_url::is_github_url("ssh://git@github.com/owner/repo.git"));
    assert!(github_url::is_github_url("ssh://git@github.com/owner/repo"));
    assert!(github_url::is_github_url("git://github.com/owner/repo.git"));
    assert!(github_url::is_github_url("git://github.com/owner/repo"));

    assert!(!github_url::is_github_url("https://gitlab.com/owner/repo.git"));
    assert!(!github_url::is_github_url("git@gitlab.com:owner/repo.git"));
    assert!(!github_url::is_github_url("https://github.com"));
    assert!(!github_url::is_github_url("git@github.com:"));
}

#[test]
fn test_is_github_url_whitespace() {
    assert!(!github_url::is_github_url("https://github.com/owner/re po"));
    assert!(!github_url::is_github_url("https://github.com/owner/repo "));
    // A dotted name is within the grammar.
    assert!(github_url::is_github_url("https://github.com/owner/re.po"));
    // A tail of exactly `.git` leaves an empty name.
    assert!(!github_url::is_github_url("https://github.com/owner/.git"));
}

#[test]
fn url_test_format_new_remote_url() {
    let cases = vec![
        // (original_remote_url, owner, repo_name, expected_remote_url)
        (
            "git@github.com:oldowner/oldrepo.git",
            "newowner",
            "newrepo",
            "git@github.com:newowner/newrepo.git",
        ),
        (
            "ssh://git@github.com/oldowner/oldrepo.git",
            "newowner",
            "newrepo",
            "ssh://git@github.com/newowner/newrepo.git",
        ),
        (
            "git://github.com/oldowner/oldrepo.git",
            "newowner",
            "newrepo",
            "git://github.com/newowner/newrepo.git",
        ),
        (
            "https://github.com/oldowner/oldrepo.git",
            "newowner",
            "newrepo",
            "https://github.com/newowner/newrepo.git",
        ),
        (
            "https://github.com/oldowner/oldrepo",
            "newowner",
            "newrepo",
            "https://github.com/newowner/newrepo.git",
        ),
        (
            "http://github.com/oldowner/oldrepo.git",
            "newowner",
            "newrepo",
            "https://github.com/newowner/newrepo.git",
        ),
    ];
    for (original, owner, repo_name, expected) in cases {
        assert_eq!(github_url::format_new_remote_url(original, owner, repo_name), expected);
    }
}

#[test]
fn github_test_format_new_remote_url() {
    let cases = vec![
        (
            "git@github.com:oldowner/oldrepo.git",
            "newowner",
            "newrepo",
            "git@github.com:newowner/newrepo.git",
        ),
        (
            "ssh://git@github.com/oldowner/oldrepo.git",
            "newowner",
            "newrepo",
            "ssh://git@github.com/newowner/newrepo.git",
        ),
        (
            "git://github.com/oldowner/oldrepo.git",
            "newowner",
            "newrepo",
            "git://github.com/newowner/newrepo.git",
        ),
        (
            "https://github.com/oldowner/oldrepo.git",
            "newowner",
            "newrepo",
            "https://github.com/newowner/newrepo.git",
        ),
        (
            "https://github.com/oldowner/oldrepo",
            "newowner",
            "newrepo",
            "https://github.com/newowner/newrepo.git",
        ),
        (
            "http://github.com/oldowner/oldrepo.git",
            "newowner",
            "newrepo",
            "https://github.com/newowner/newrepo.git",
        ),
    ];
    for (original, owner, repo_name, expected) in cases {
        assert_eq!(github_url::format_new_remote_url(original, owner, repo_name), expected);
    }
}

#[test]
fn file_test_format_new_remote_url() {
    // The working directory is an explicit parameter; relative URLs
    // resolve against it.
    let cwd = "/work/dir";
    let canonical_expected = "file:///work/dir/repo.git";

    let test_cases = vec![
        // (original_remote_url, canonical_path, expected_result)
        (
            "file:///old/path/repo.git",
            "file:///new/path/repo.git",
            "file:///new/path/repo.git",
        ),
        (
            "/old/path/repo.git",
            "file:///new/path/repo.git",
            "/new/path/repo.git",
        ),
        // When canonical path matches the expanded original path
        ("repo.git", canonical_expected, "repo.git"),
        // When canonical path is different from the expanded original path
        (
            "repo.git",
            "file:///different/path/repo.git",
            "/different/path/repo.git",
        ),
    ];

    for (original, canonical, expected) in test_cases {
        let result = file_url::format_new_remote_url(original, canonical, cwd);
        assert_eq!(result, expected);
    }
}

#[test]
fn test_format_file_url_relative_dotdot() {
    // Lexical normalization resolves the `..`, so the relative form is
    // recognized as already pointing at the canonical location.
    let result = file_url::format_new_remote_url(
        "../test-repo.git",
        "file:///tmp/work/test-repo.git",
        "/tmp/work/main-repo",
    );
    assert_eq!(result, "../test-repo.git");
}

#[test]
fn test_format_file_url_shape_preserved() {
    let canon = "file:///srv/git/demo.git";
    // file://-prefixed original stays prefixed.
    assert_eq!(
        file_url::format_new_remote_url("file:///old/demo.git", canon, "/home"),
        "file:///srv/git/demo.git"
    );
    // Bare original stays bare.
    assert_eq!(
        file_url::format_new_remote_url("/old/demo.git", canon, "/home"),
        "/srv/git/demo.git"
    );
    // A relative original that no longer matches becomes a bare path.
    assert_eq!(
        file_url::format_new_remote_url("../other.git", canon, "/home"),
        "/srv/git/demo.git"
    );
}

#[test]
fn test_format_file_url_leading_whitespace() {
    // Leading whitespace is ignored when classifying the original's
    // shape, as `str::trim_start` would.
    assert_eq!(
        file_url::format_new_remote_url(" file:///old/repo.git", "file:///new/repo.git", "/c"),
        "file:///new/repo.git"
    );
    assert_eq!(
        file_url::format_new_remote_url("\tfile:///old/repo.git", "file:///new/repo.git", "/c"),
        "file:///new/repo.git"
    );
}

#[test]
fn test_scheme_helpers() {
    assert_eq!(strip_file_scheme("file:///a/b"), "/a/b");
    assert_eq!(strip_file_scheme("/a/b"), "/a/b");
    assert_eq!(strip_file_scheme_all("file://file:///a"), "/a");
    assert_eq!(wrap_file_scheme("/a"), "file:///a");
}

#[test]
fn test_path_helpers() {
    assert_eq!(parent_dir("/a/b/c.git"), "/a/b");
    assert_eq!(parent_dir("/c.git"), "/");
    assert_eq!(parent_dir("/a//b"), "/a");
    assert_eq!(join_path("/a", "x.git"), "/a/x.git");
    assert_eq!(join_path("/", "x.git"), "/x.git");
}

#[test]
fn test_is_canonical_file_url() {
    assert!(is_canonical_file_url("file:///srv/git/demo.git"));
    assert!(is_canonical_file_url("file:///a"));
    assert!(!is_canonical_file_url("file:///"));
    assert!(!is_canonical_file_url("file:////"));
    assert!(!is_canonical_file_url("file://relative/path"));
    assert!(!is_canonical_file_url("/srv/git/demo.git"));
}

#[test]
fn test_owner_part() {
    assert_eq!(github_url::owner_part("owner/name"), "owner");
    assert_eq!(github_url::owner_part("plain"), "plain");
    assert_eq!(github_url::owner_part("a/b/c"), "a");
}

#[test]
fn test_repo_display() {
    assert_eq!(
        git_repo_name::repo_display("upstream-repo", "https://github.com/owner/upstream-repo.git"),
        "upstream-repo (https://github.com/owner/upstream-repo.git)"
    );
}
