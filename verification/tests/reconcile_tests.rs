//! Tests for the reconciliation planners, the hosted-response
//! interpretation, and the error presentation.

use git_repo_name::reconcile::{
    plan_file_pull, plan_file_push, plan_github_pull, plan_github_push, github_push_new_url,
    ActionSet, FilePushPlan, GithubPushPlan,
};
use git_repo_name::github::{GitHubRepo, interpret_get_repo_response, interpret_update_repo_response};
use git_repo_name::types::Error;

fn repo(name: &str, full_name: &str, clone_url: &str) -> GitHubRepo {
    GitHubRepo {
        name: name.to_string(),
        full_name: full_name.to_string(),
        clone_url: clone_url.to_string(),
    }
}

fn apply(a: &ActionSet, url: &str, local: &str) -> (String, String) {
    (
        a.change_remote_url.clone().unwrap_or_else(|| url.to_string()),
        a.rename_directory.clone().unwrap_or_else(|| local.to_string()),
    )
}

// Scenario: the repository was renamed upstream by the same owner; pull
// renames the directory and rewrites the URL to the new name.
#[test]
fn test_github_pull_renamed_by_owner() {
    let url = "https://github.com/owner/old-name.git";
    let info = repo("new-name", "owner/new-name", "https://github.com/owner/new-name.git");
    let actions = plan_github_pull(url, "old-name", &info);
    assert_eq!(
        actions.change_remote_url.as_deref(),
        Some("https://github.com/owner/new-name.git")
    );
    assert_eq!(actions.rename_directory.as_deref(), Some("new-name"));
}

// Scenario: the repository moved to a new owner; pull changes only the
// remote URL and keeps the directory.
#[test]
fn test_github_pull_owner_changed() {
    let url = "git@github.com:old-owner/repo-name.git";
    let info = repo("repo-name", "new-owner/repo-name", "https://github.com/new-owner/repo-name.git");
    let actions = plan_github_pull(url, "repo-name", &info);
    assert_eq!(
        actions.change_remote_url.as_deref(),
        Some("git@github.com:new-owner/repo-name.git")
    );
    assert!(actions.rename_directory.is_none());
}

#[test]
fn test_github_pull_up_to_date() {
    let url = "https://github.com/owner/test-repo.git";
    let info = repo("test-repo", "owner/test-repo", "https://github.com/owner/test-repo.git");
    let actions = plan_github_pull(url, "test-repo", &info);
    assert!(actions.is_empty());
}

#[test]
fn test_github_pull_idempotent_concrete() {
    let url = "git@github.com:old-owner/old-name.git";
    let info = repo("new-name", "new-owner/new-name", "https://github.com/new-owner/new-name.git");
    let first = plan_github_pull(url, "old-name", &info);
    assert_eq!(
        first.change_remote_url.as_deref(),
        Some("git@github.com:new-owner/new-name.git")
    );
    let (url2, local2) = apply(&first, url, "old-name");
    // The rewritten URL is still routed to the hosted backend.
    assert!(git_repo_name::github_url::is_github_url(&url2));
    let second = plan_github_pull(&url2, &local2, &info);
    assert!(second.is_empty());
}

// A repository name holding a dot round-trips: the second pull parses
// the rewritten URL and finds nothing to do.
#[test]
fn test_github_pull_idempotent_dotted_name() {
    let url = "https://github.com/vercel/old-name.git";
    let info = repo("next.js", "vercel/next.js", "https://github.com/vercel/next.js.git");
    let first = plan_github_pull(url, "old-name", &info);
    assert_eq!(
        first.change_remote_url.as_deref(),
        Some("https://github.com/vercel/next.js.git")
    );
    assert_eq!(first.rename_directory.as_deref(), Some("next.js"));
    let (url2, local2) = apply(&first, url, "old-name");
    assert!(git_repo_name::github_url::is_github_url(&url2));
    let second = plan_github_pull(&url2, &local2, &info);
    assert!(second.is_empty());
}

// A local directory name holding a dot round-trips on push: the URL
// rewritten after the rename parses back to the same name.
#[test]
fn test_github_push_idempotent_dotted_name() {
    let plan = plan_github_push("https://github.com/owner/old-name.git", "my.lib").unwrap();
    assert!(matches!(plan, GithubPushPlan::UpdateName { .. }));
    let updated = repo("my.lib", "owner/my.lib", "https://github.com/owner/my.lib.git");
    let new_url = github_push_new_url("https://github.com/owner/old-name.git", &updated);
    assert_eq!(new_url, "https://github.com/owner/my.lib.git");
    let second = plan_github_push(&new_url, "my.lib").unwrap();
    assert!(matches!(second, GithubPushPlan::AlreadyMatches));
}

// Scenario: a relative file remote that already points at the right
// place, with a matching directory name, needs nothing.
#[test]
fn test_file_pull_relative_up_to_date() {
    let actions = plan_file_pull(
        "../test-repo.git",
        "test-repo",
        "file:///tmp/work/test-repo.git",
        "/tmp/work/main-repo",
    )
    .unwrap();
    assert!(actions.is_empty());
}

#[test]
fn test_file_pull_url_update() {
    let actions = plan_file_pull(
        "file://../test-repo.git",
        "test-repo",
        "file:///tmp/work/test-repo.git",
        "/tmp/work/main-repo",
    )
    .unwrap();
    assert_eq!(
        actions.change_remote_url.as_deref(),
        Some("file:///tmp/work/test-repo.git")
    );
    assert!(actions.rename_directory.is_none());
}

#[test]
fn test_file_pull_directory_rename() {
    let actions = plan_file_pull(
        "file:///tmp/w/new-name.git",
        "old-name",
        "file:///tmp/w/new-name.git",
        "/somewhere",
    )
    .unwrap();
    assert!(actions.change_remote_url.is_none());
    assert_eq!(actions.rename_directory.as_deref(), Some("new-name"));
}

#[test]
fn test_file_pull_both_updates() {
    let actions = plan_file_pull(
        "file://../new-name.git",
        "old-name",
        "file:///tmp/w/new-name.git",
        "/tmp/w/old-name",
    )
    .unwrap();
    assert_eq!(
        actions.change_remote_url.as_deref(),
        Some("file:///tmp/w/new-name.git")
    );
    assert_eq!(actions.rename_directory.as_deref(), Some("new-name"));
}

#[test]
fn test_file_pull_bad_canonical() {
    let r = plan_file_pull("/x", "x", "file:///tmp/..", "/tmp");
    match r {
        Err(Error::Other(m)) => {
            assert_eq!(m, "Could not extract repository name from URL");
        }
        other => panic!("expected a name-derivation error, got {:?}", other),
    }
}

#[test]
fn test_file_pull_idempotent_concrete() {
    let url = "/old/spot/demo.git";
    let canon = "file:///srv/git/demo.git";
    let first = plan_file_pull(url, "old-dir", canon, "/home/u").unwrap();
    assert_eq!(first.change_remote_url.as_deref(), Some("/srv/git/demo.git"));
    assert_eq!(first.rename_directory.as_deref(), Some("demo"));
    let (url2, local2) = apply(&first, url, "old-dir");
    let second = plan_file_pull(&url2, &local2, canon, "/home/u").unwrap();
    assert!(second.is_empty());
}

#[test]
fn test_file_push_already_matches() {
    let plan = plan_file_push(
        "file:///tmp/work/test-repo.git",
        "test-repo",
        "file:///tmp/work/test-repo.git",
        "/tmp/work/test-repo",
    )
    .unwrap();
    assert!(matches!(plan, FilePushPlan::AlreadyMatches));
}

#[test]
fn test_file_push_rename() {
    let plan = plan_file_push(
        "file:///tmp/work/old-name.git",
        "new-name",
        "file:///tmp/work/old-name.git",
        "/tmp/work/new-name",
    )
    .unwrap();
    match plan {
        FilePushPlan::Rename { old_repo_path, new_directory_name, new_remote_url } => {
            assert_eq!(old_repo_path, "/tmp/work/old-name.git");
            assert_eq!(new_directory_name, "new-name.git");
            assert_eq!(new_remote_url, "file:///tmp/work/new-name.git");
        }
        FilePushPlan::AlreadyMatches => panic!("expected a rename plan"),
    }
}

#[test]
fn test_file_push_bare_url_rename() {
    let plan = plan_file_push(
        "/tmp/work/old-name.git",
        "new-name",
        "file:///tmp/work/old-name.git",
        "/tmp/work/new-name",
    )
    .unwrap();
    match plan {
        FilePushPlan::Rename { new_remote_url, .. } => {
            assert_eq!(new_remote_url, "/tmp/work/new-name.git");
        }
        FilePushPlan::AlreadyMatches => panic!("expected a rename plan"),
    }
}

#[test]
fn test_file_push_idempotent_concrete() {
    let plan = plan_file_push(
        "file:///tmp/work/old-name.git",
        "new-name",
        "file:///tmp/work/old-name.git",
        "/tmp/work/new-name",
    )
    .unwrap();
    let new_remote_url = match plan {
        FilePushPlan::Rename { new_remote_url, .. } => new_remote_url,
        FilePushPlan::AlreadyMatches => panic!("expected a rename plan"),
    };
    // After the rename the remote lives at the new canonical location.
    let second = plan_file_push(
        &new_remote_url,
        "new-name",
        "file:///tmp/work/new-name.git",
        "/tmp/work/new-name",
    )
    .unwrap();
    assert!(matches!(second, FilePushPlan::AlreadyMatches));
}

#[test]
fn test_github_push_already_matches() {
    let plan = plan_github_push("https://github.com/owner/test-repo.git", "test-repo").unwrap();
    assert!(matches!(plan, GithubPushPlan::AlreadyMatches));
}

#[test]
fn test_github_push_update_name() {
    let plan = plan_github_push("git@github.com:owner/old-name.git", "new-name").unwrap();
    match plan {
        GithubPushPlan::UpdateName { owner, remote_name } => {
            assert_eq!(owner, "owner");
            assert_eq!(remote_name, "old-name");
        }
        GithubPushPlan::AlreadyMatches => panic!("expected an update plan"),
    }
}

#[test]
fn test_github_push_invalid_url() {
    let r = plan_github_push("https://not-github.com/owner/repo.git", "repo");
    match r {
        Err(Error::InvalidGitHubUrl(u)) => {
            assert_eq!(u, "https://not-github.com/owner/repo.git");
        }
        other => panic!("expected an invalid-URL error, got {:?}", other),
    }
}

// Scenario: a push rejected with 403 surfaces PermissionDenied and
// plans no local action.
#[test]
fn test_github_push_permission_denied() {
    let plan = plan_github_push("https://github.com/owner/old-name.git", "new-name").unwrap();
    assert!(matches!(plan, GithubPushPlan::UpdateName { .. }));
    let outcome = interpret_update_repo_response(403, "new-name", None);
    match outcome {
        Err(e) => {
            assert!(matches!(e, Error::PermissionDenied));
            assert_eq!(
                e.message(),
                "GitHub API error: Permission denied. Ensure your GitHub token has the 'Administration' repository permission (write)."
            );
        }
        Ok(_) => panic!("expected an error"),
    }
}

#[test]
fn test_github_push_owner_change_followup() {
    let old_url = "git@github.com:old-owner/old-name.git";
    let updated = repo("new-name", "new-owner/new-name", "https://github.com/new-owner/new-name.git");
    let new_url = github_push_new_url(old_url, &updated);
    assert_eq!(new_url, "git@github.com:new-owner/new-name.git");
    // The rewritten URL parses back to the updated name: a second push
    // finds nothing to do.
    let second = plan_github_push(&new_url, "new-name").unwrap();
    assert!(matches!(second, GithubPushPlan::AlreadyMatches));
}

#[test]
fn test_interpret_get_responses() {
    let ok = interpret_get_repo_response(
        200,
        Some(repo("r", "o/r", "https://github.com/o/r.git")),
    );
    assert_eq!(ok.unwrap().name, "r");

    let not_found = interpret_get_repo_response(404, None);
    match not_found {
        Err(e) => {
            assert!(matches!(e, Error::NotFound));
            assert!(e.message().contains("private repository"));
        }
        Ok(_) => panic!("expected an error"),
    }

    match interpret_get_repo_response(500, None) {
        Err(Error::GitHubApi(s)) => assert_eq!(s, 500),
        other => panic!("expected a status error, got {:?}", other),
    }

    assert!(matches!(
        interpret_get_repo_response(200, None),
        Err(Error::InvalidResponse)
    ));
}

#[test]
fn test_interpret_update_responses() {
    let updated = interpret_update_repo_response(
        200,
        "new",
        Some(repo("new", "o/new", "https://github.com/o/new.git")),
    );
    assert_eq!(updated.unwrap().full_name, "o/new");

    match interpret_update_repo_response(422, "taken-name", None) {
        Err(e) => {
            assert!(matches!(e, Error::NameConflict(_)));
            assert_eq!(
                e.message(),
                "GitHub API error: Cannot rename repository to 'taken-name'. The name may be taken or invalid."
            );
        }
        Ok(_) => panic!("expected an error"),
    }

    match interpret_update_repo_response(500, "n", None) {
        Err(e) => {
            assert!(matches!(e, Error::GitHubApi(500)));
            assert_eq!(
                e.message(),
                "GitHub API error: Failed to update repository name: 500"
            );
        }
        Ok(_) => panic!("expected an error"),
    }

    assert!(matches!(
        interpret_update_repo_response(201, "n", None),
        Err(Error::InvalidResponse)
    ));
}

#[test]
fn test_error_messages() {
    assert_eq!(Error::NotAGitRepo.message(), "Error: not a git repository");
    assert_eq!(
        Error::NoRemote("origin".to_string()).message(),
        "Error: no remote named 'origin' configured"
    );
    assert_eq!(
        Error::InvalidGitHubUrl("bad".to_string()).message(),
        "Invalid GitHub URL format: bad"
    );
    assert_eq!(Error::Config("oops".to_string()).message(), "Error: oops");
    assert_eq!(
        Error::Fs("No such file or directory".to_string()).message(),
        "Filesystem error: No such file or directory"
    );
    assert_eq!(
        Error::Other("Could not extract repository name from URL".to_string()).message(),
        "Error: Could not extract repository name from URL"
    );
    assert_eq!(
        Error::NotFound.message(),
        "GitHub API error: Repository not found. If this is a private repository, please configure a GitHub token with 'git-repo-name config github-token YOUR_TOKEN'"
    );
    assert_eq!(
        Error::GitHubApi(0).message(),
        "GitHub API error: Failed to update repository name: 0"
    );
    assert_eq!(
        Error::GitHubApi(65535).message(),
        "GitHub API error: Failed to update repository name: 65535"
    );
}

#[test]
fn test_action_set_is_empty() {
    let empty = ActionSet { change_remote_url: None, rename_directory: None };
    assert!(empty.is_empty());
    let busy = ActionSet {
        change_remote_url: Some("x".to_string()),
        rename_directory: None,
    };
    assert!(!busy.is_empty());
}
