//! Keeps a local git working-directory name and the configured remote's
//! identity consistent with each other.
//!
//! The crate holds the name-reconciliation engine: classifying a remote URL
//! as GitHub-hosted or filesystem-based, deriving the authoritative
//! repository name, rewriting remote URLs while preserving their original
//! addressing scheme, and computing the minimal set of corrective actions
//! (rename the local directory, rewrite the remote URL, or both). All
//! filesystem, git and network access is delegated to callers, which hand
//! this crate plain values and apply the actions it computes.

pub mod text;
pub mod types;
pub mod paths;
pub mod file_url;
pub mod github_url;
pub mod github;
pub mod config;
pub mod reconcile;

use vstd::prelude::*;

verus! {

/// True when `p` is a prefix of `s`.
pub open spec fn spec_starts_with(s: Seq<char>, p: Seq<char>) -> bool {
    p.len() <= s.len() && p == s.subrange(0, p.len() as int)
}

/// The line reported for a fetched repository name: the name followed
/// by where it was resolved from, in parentheses.
pub fn repo_display(name: &str, location: &str) -> (r: String)
    ensures
        r@ == name@ + " ("@ + location@ + ")"@,
{
    String::from_str(name).concat(" (").concat(location).concat(")")
}

} // verus!
