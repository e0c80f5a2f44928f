//! The reconciliation engine: computing the minimal set of corrective
//! actions for a remote, in both directions.
//!
//! Planning is pure: the caller resolves the remote's identity first
//! (canonicalizing a filesystem path, or fetching hosted metadata) and
//! hands the resolved values in; the returned plan tells it what to
//! apply. A dry run computes the very same plan and applies nothing.

use vstd::prelude::*;
use crate::types::Error;
use crate::github::{GitHubRepo, GitHubRepoView};
use crate::github_url;
use crate::github_url::{
    spec_gh_format, spec_gh_owner, spec_gh_repo, spec_gh_parseable, spec_is_github_url,
    spec_owner_part, lemma_owner_part_no_slash, lemma_gh_format_idempotent,
    lemma_gh_format_parses_back, lemma_not_github_by_first_char,
};
use crate::file_url;
use crate::file_url::{spec_format_file_url, lemma_file_format_idempotent};
use crate::paths::{
    spec_extract_repo_name, extract_repo_name_from_path, spec_strip_file_once, strip_file_scheme,
    spec_parent_dir, parent_dir, spec_join_path, join_path, spec_is_canonical_file_url,
    wrap_file_scheme, lemma_extract_of_git_sibling, skip_slashes_back,
};
use crate::text::eq_str;

verus! {

/// The corrective actions one reconciliation computed: a new remote URL
/// to configure, a new base name for the local directory, or both. An
/// empty set means the state is already consistent. Where both actions
/// are present, the URL change is applied first.
#[derive(Debug)]
pub struct ActionSet {
    pub change_remote_url: Option<String>,
    pub rename_directory: Option<String>,
}

/// The ghost image of an [`ActionSet`].
pub ghost struct ActionSetView {
    pub change_remote_url: Option<Seq<char>>,
    pub rename_directory: Option<Seq<char>>,
}

impl View for ActionSet {
    type V = ActionSetView;

    open spec fn view(&self) -> ActionSetView {
        ActionSetView {
            change_remote_url: match self.change_remote_url {
                Some(u) => Some(u@),
                None => None,
            },
            rename_directory: match self.rename_directory {
                Some(d) => Some(d@),
                None => None,
            },
        }
    }
}

impl ActionSetView {
    /// No action at all: the terminal "already up to date" state.
    pub open spec fn is_empty(self) -> bool {
        self.change_remote_url is None && self.rename_directory is None
    }

    /// The remote URL and local directory name after this set is
    /// applied to the given state.
    pub open spec fn applied_to(self, url: Seq<char>, local: Seq<char>) -> (Seq<char>, Seq<char>) {
        (
            match self.change_remote_url {
                Some(u) => u,
                None => url,
            },
            match self.rename_directory {
                Some(d) => d,
                None => local,
            },
        )
    }
}

impl ActionSet {
    /// Whether nothing needs doing.
    pub fn is_empty(&self) -> (b: bool)
        ensures
            b == self@.is_empty(),
    {
        self.change_remote_url.is_none() && self.rename_directory.is_none()
    }
}

/// The plan for a filesystem-remote pull: rewrite the URL to the
/// canonical location (in the original's shape) when it differs, and
/// adopt the remote's repository name locally when it differs.
pub open spec fn spec_plan_file_pull(
    url: Seq<char>,
    local: Seq<char>,
    canon: Seq<char>,
    cwd: Seq<char>,
) -> Option<ActionSetView> {
    match spec_extract_repo_name(canon) {
        Some(name) => {
            let new_url = spec_format_file_url(url, canon, cwd);
            Some(
                ActionSetView {
                    change_remote_url: if new_url != url {
                        Some(new_url)
                    } else {
                        None
                    },
                    rename_directory: if local != name {
                        Some(name)
                    } else {
                        None
                    },
                },
            )
        },
        None => None,
    }
}

/// Computes the pull actions for a filesystem remote. `canonical_path`
/// is the remote's resolved `file://` identity and `cwd` the working
/// directory relative URLs resolve against.
pub fn plan_file_pull(
    remote_url: &str,
    local_directory_name: &str,
    canonical_path: &str,
    cwd: &str,
) -> (r: Result<ActionSet, Error>)
    ensures
        match r {
            Ok(a) => spec_plan_file_pull(remote_url@, local_directory_name@, canonical_path@, cwd@)
                == Some(a@),
            Err(e) => spec_plan_file_pull(remote_url@, local_directory_name@, canonical_path@, cwd@)
                is None && (e matches Error::Other(m) && m@
                == "Could not extract repository name from URL"@),
        },
{
    let name = match extract_repo_name_from_path(canonical_path) {
        Ok(n) => n,
        Err(e) => {
            return Err(e);
        },
    };
    let new_url = file_url::format_new_remote_url(remote_url, canonical_path, cwd);
    let change_remote_url = if !eq_str(new_url.as_str(), remote_url) {
        Some(new_url)
    } else {
        None
    };
    let rename_directory = if !eq_str(local_directory_name, name.as_str()) {
        Some(name)
    } else {
        None
    };
    Ok(ActionSet { change_remote_url, rename_directory })
}

/// The plan for a hosted-remote pull, from the metadata the service
/// reported: rewrite the URL to name the authoritative owner and
/// repository (in the original's scheme) when it differs, and adopt the
/// authoritative name locally when it differs.
pub open spec fn spec_plan_github_pull(
    url: Seq<char>,
    local: Seq<char>,
    info: GitHubRepoView,
) -> ActionSetView {
    let new_url = spec_gh_format(url, spec_owner_part(info.full_name), info.name);
    ActionSetView {
        change_remote_url: if new_url != url {
            Some(new_url)
        } else {
            None
        },
        rename_directory: if local != info.name {
            Some(info.name)
        } else {
            None
        },
    }
}

/// Computes the pull actions for a hosted remote from freshly fetched
/// metadata. The authoritative owner is read off `full_name`.
pub fn plan_github_pull(remote_url: &str, local_directory_name: &str, repo_info: &GitHubRepo) -> (a:
    ActionSet)
    ensures
        a@ == spec_plan_github_pull(remote_url@, local_directory_name@, repo_info@),
{
    let resolved_owner = github_url::owner_part(repo_info.full_name.as_str());
    let new_url = github_url::format_new_remote_url(
        remote_url,
        resolved_owner,
        repo_info.name.as_str(),
    );
    let change_remote_url = if !eq_str(new_url.as_str(), remote_url) {
        Some(new_url)
    } else {
        None
    };
    let rename_directory = if !eq_str(local_directory_name, repo_info.name.as_str()) {
        Some(repo_info.name.clone())
    } else {
        None
    };
    ActionSet { change_remote_url, rename_directory }
}

/// What a hosted-remote push should do next.
#[derive(Debug)]
pub enum GithubPushPlan {
    /// The remote repository is already named after the local directory.
    AlreadyMatches,
    /// Ask the service to rename `owner/remote_name` to the local
    /// directory's name.
    UpdateName { owner: String, remote_name: String },
}

/// Decides a hosted-remote push: parse the URL, and request a rename
/// exactly when the parsed repository name differs from the local one.
pub fn plan_github_push(remote_url: &str, local_directory_name: &str) -> (r: Result<
    GithubPushPlan,
    Error,
>)
    ensures
        match r {
            Ok(p) => spec_gh_parseable(remote_url@) && match p {
                GithubPushPlan::AlreadyMatches => spec_gh_repo(remote_url@)
                    == local_directory_name@,
                GithubPushPlan::UpdateName { owner, remote_name } => spec_gh_repo(remote_url@)
                    != local_directory_name@ && owner@ == spec_gh_owner(remote_url@)
                    && remote_name@ == spec_gh_repo(remote_url@),
            },
            Err(e) => !spec_gh_parseable(remote_url@) && (e matches Error::InvalidGitHubUrl(u)
                && u@ == remote_url@),
        },
{
    let (owner, remote_name) = match github_url::parse_github_url(remote_url) {
        Ok(pair) => pair,
        Err(e) => {
            return Err(e);
        },
    };
    if eq_str(remote_name.as_str(), local_directory_name) {
        Ok(GithubPushPlan::AlreadyMatches)
    } else {
        Ok(GithubPushPlan::UpdateName { owner, remote_name })
    }
}

/// The remote URL to configure after a hosted rename succeeded, built
/// from the metadata the service returned (whose owner may differ in
/// casing from the requested one), in the original URL's scheme.
pub fn github_push_new_url(remote_url: &str, updated: &GitHubRepo) -> (r: String)
    ensures
        r@ == spec_gh_format(remote_url@, spec_owner_part(updated@.full_name), updated@.name),
{
    let resolved_owner = github_url::owner_part(updated.full_name.as_str());
    github_url::format_new_remote_url(remote_url, resolved_owner, updated.name.as_str())
}

/// What a filesystem-remote push should do next.
#[derive(Debug)]
pub enum FilePushPlan {
    /// The remote repository is already named after the local directory.
    AlreadyMatches,
    /// Rename the remote's bare directory from `old_repo_path` to the
    /// sibling named `new_directory_name`, then configure
    /// `new_remote_url`.
    Rename { old_repo_path: String, new_directory_name: String, new_remote_url: String },
}

/// Decides a filesystem-remote push: derive the remote's repository
/// name from its canonical path; when it differs from the local
/// directory name, plan to rename the remote's bare `<name>.git`
/// directory to `<local>.git` beside it and to rewrite the remote URL
/// accordingly.
pub fn plan_file_push(
    remote_url: &str,
    local_directory_name: &str,
    canonical_path: &str,
    cwd: &str,
) -> (r: Result<FilePushPlan, Error>)
    requires
        spec_is_canonical_file_url(canonical_path@),
    ensures
        match r {
            Ok(p) => match p {
                FilePushPlan::AlreadyMatches => spec_extract_repo_name(canonical_path@) == Some(
                    local_directory_name@,
                ),
                FilePushPlan::Rename { old_repo_path, new_directory_name, new_remote_url } => {
                    let par = spec_parent_dir(spec_strip_file_once(canonical_path@));
                    &&& (spec_extract_repo_name(canonical_path@) matches Some(rn) && rn
                        != local_directory_name@ && old_repo_path@ == spec_join_path(
                        par,
                        rn + ".git"@,
                    ))
                    &&& new_directory_name@ == local_directory_name@ + ".git"@
                    &&& new_remote_url@ == spec_format_file_url(
                        remote_url@,
                        "file://"@ + spec_join_path(par, local_directory_name@ + ".git"@),
                        cwd@,
                    )
                },
            },
            Err(e) => spec_extract_repo_name(canonical_path@) is None && (e matches Error::Other(m)
                && m@ == "Could not extract repository name from URL"@),
        },
{
    let remote_repo_name = match extract_repo_name_from_path(canonical_path) {
        Ok(n) => n,
        Err(e) => {
            return Err(e);
        },
    };
    if eq_str(remote_repo_name.as_str(), local_directory_name) {
        return Ok(FilePushPlan::AlreadyMatches);
    }
    let fs_path = strip_file_scheme(canonical_path);
    let parent = parent_dir(fs_path.as_str());
    let old_repo_path = join_path(
        parent.as_str(),
        remote_repo_name.concat(".git").as_str(),
    );
    let new_directory_name = String::from_str(local_directory_name).concat(".git");
    let new_repo_path = join_path(parent.as_str(), new_directory_name.as_str());
    let new_canonical = wrap_file_scheme(new_repo_path.as_str());
    let new_remote_url = file_url::format_new_remote_url(
        remote_url,
        new_canonical.as_str(),
        cwd,
    );
    Ok(FilePushPlan::Rename { old_repo_path, new_directory_name, new_remote_url })
}

/// Law: a filesystem pull is idempotent. Once the actions a pull
/// computed are applied to the remote URL and local directory name, a
/// second pull against the same canonical identity computes an empty
/// action set.
pub proof fn lemma_file_pull_idempotent(
    url: Seq<char>,
    local: Seq<char>,
    canon: Seq<char>,
    cwd: Seq<char>,
)
    requires
        spec_is_canonical_file_url(canon),
    ensures
        spec_plan_file_pull(url, local, canon, cwd) matches Some(a) ==> {
            let (url2, local2) = a.applied_to(url, local);
            &&& (spec_plan_file_pull(url2, local2, canon, cwd) matches Some(a2) && a2.is_empty())
            &&& (spec_is_github_url(url2) ==> spec_is_github_url(url))
        },
{
    match spec_extract_repo_name(canon) {
        Some(name) => {
            lemma_file_format_idempotent(url, canon, cwd);
            crate::paths::lemma_strip_all_canonical(canon);
            let url2 = spec_format_file_url(url, canon, cwd);
            if url2 == canon && url2 != url {
                lemma_not_github_by_first_char(canon);
            }
            if url2 == crate::paths::spec_strip_file_all(canon) && url2 != url {
                lemma_not_github_by_first_char(canon.skip(7));
            }
        },
        None => {},
    }
}

/// Law: a hosted pull is idempotent. Once the actions a pull computed
/// from the service's metadata are applied, a second pull against the
/// same metadata computes an empty action set — and the rewritten URL
/// is detected and parses back to the authoritative owner and name, so
/// the second pull is routed to the hosted backend and reaches its
/// planning step. Holds for every owner the metadata's `full_name` can
/// yield and every repository name free of slashes and whitespace (the
/// grammar's tail admits neither).
pub proof fn lemma_github_pull_idempotent(url: Seq<char>, local: Seq<char>, info: GitHubRepoView)
    requires
        spec_owner_part(info.full_name).len() > 0,
        info.name.len() > 0,
        forall|i: int| 0 <= i < info.name.len() ==> info.name[i] != '/',
        forall|i: int| 0 <= i < info.name.len() ==> !crate::text::spec_is_space(info.name[i]),
    ensures
        ({
            let a = spec_plan_github_pull(url, local, info);
            let (url2, local2) = a.applied_to(url, local);
            &&& spec_plan_github_pull(url2, local2, info).is_empty()
            &&& spec_is_github_url(url2)
            &&& spec_gh_parseable(url2)
            &&& spec_gh_owner(url2) == spec_owner_part(info.full_name)
            &&& spec_gh_repo(url2) == info.name
        }),
{
    let ow = spec_owner_part(info.full_name);
    lemma_owner_part_no_slash(info.full_name);
    lemma_gh_format_idempotent(url, ow, info.name, ow, info.name);
    lemma_gh_format_parses_back(url, ow, info.name);
}

/// Law: a hosted push is idempotent. After the service renamed the
/// repository to the local directory's name and the remote URL was
/// rewritten from the returned metadata, that URL parses back to a
/// repository name equal to the local one — a second push finds
/// nothing to do.
pub proof fn lemma_github_push_idempotent(url: Seq<char>, local: Seq<char>, updated: GitHubRepoView)
    requires
        updated.name == local,
        spec_owner_part(updated.full_name).len() > 0,
        local.len() > 0,
        forall|i: int| 0 <= i < local.len() ==> local[i] != '/',
        forall|i: int| 0 <= i < local.len() ==> !crate::text::spec_is_space(local[i]),
    ensures
        ({
            let url2 = spec_gh_format(url, spec_owner_part(updated.full_name), updated.name);
            &&& spec_is_github_url(url2)
            &&& spec_gh_parseable(url2)
            &&& spec_gh_repo(url2) == local
        }),
{
    lemma_owner_part_no_slash(updated.full_name);
    lemma_gh_format_parses_back(url, spec_owner_part(updated.full_name), local);
}

/// Law: a filesystem push is idempotent. After the remote's bare
/// directory is renamed to `<local>.git` beside its old location, the
/// remote's canonical identity derives a repository name equal to the
/// local directory name — a second push finds nothing to do.
pub proof fn lemma_file_push_idempotent(local: Seq<char>, canon: Seq<char>)
    requires
        spec_is_canonical_file_url(canon),
        local.len() > 0,
        forall|i: int| 0 <= i < local.len() ==> local[i] != '/',
        local != "."@,
        local != ".."@,
    ensures
        ({
            let par = spec_parent_dir(spec_strip_file_once(canon));
            let canon2 = "file://"@ + spec_join_path(par, local + ".git"@);
            &&& spec_extract_repo_name(canon2) == Some(local)
            &&& spec_is_canonical_file_url(canon2)
        }),
{
    reveal_strlit("file://");
    reveal_strlit(".git");
    reveal_strlit("/");
    let fp = spec_strip_file_once(canon);
    assert(fp == canon.skip(7));
    assert(fp[0] == canon[7]);
    let par = spec_parent_dir(fp);
    let e = skip_slashes_back(fp, fp.len() as int);
    let st = crate::paths::seg_start_back(fp, e);
    let pe = skip_slashes_back(fp, st);
    assert(par == if pe > 0 {
        fp.take(pe)
    } else if fp.len() > 0 && fp[0] == '/' {
        "/"@
    } else {
        Seq::<char>::empty()
    });
    assert(fp.len() >= 1);
    assert(par.len() > 0 && par[0] == '/') by {
        crate::paths::lemma_skip_slashes_back_bounds(fp, fp.len() as int);
        crate::paths::lemma_seg_start_back_bounds(fp, e);
        crate::paths::lemma_skip_slashes_back_bounds(fp, st);
        if pe > 0 {
            assert(par == fp.take(pe));
            assert(par[0] == fp[0]);
        }
    }
    lemma_extract_of_git_sibling(par, local);
    let canon2 = "file://"@ + spec_join_path(par, local + ".git"@);
    assert(spec_is_canonical_file_url(canon2)) by {
        let j = spec_join_path(par, local + ".git"@);
        assert(j[0] == par[0]);
        assert(canon2[7] == j[0]);
        assert(canon2.len() >= 8);
        assert(crate::paths::spec_has_file_prefix(canon2)) by {
            assert(canon2[0] == "file://"@[0]);
            assert(canon2[1] == "file://"@[1]);
            assert(canon2[2] == "file://"@[2]);
            assert(canon2[3] == "file://"@[3]);
            assert(canon2[4] == "file://"@[4]);
            assert(canon2[5] == "file://"@[5]);
            assert(canon2[6] == "file://"@[6]);
        }
        let tail = canon2.skip(7);
        assert(tail =~= j);
        assert(j[j.len() - 1] == ".git"@[3]);
        assert(skip_slashes_back(tail, tail.len() as int) == tail.len());
    }
}

} // verus!
