//! URL formatting for filesystem remotes.
//!
//! Given the URL currently configured on the remote and the canonical
//! (`file://`-wrapped, absolute, symlink-resolved) path the remote now
//! lives at, produces the replacement URL while preserving the shape the
//! user originally chose: a relative path that still resolves to the
//! canonical location is kept verbatim, a `file://`-prefixed URL stays
//! prefixed, and a bare path stays bare.

use vstd::prelude::*;
use crate::spec_starts_with;
use crate::text::{spec_trim_start, starts_with_str, trim_start_str, eq_str};
use crate::paths::{
    spec_has_file_prefix, spec_strip_file_all, strip_file_scheme_all, lemma_file_prefix_iff,
    spec_join_path, join_path, spec_is_canonical_file_url, lemma_strip_all_canonical,
};

verus! {

/// What `path_clean::clean` returns: the lexical normalization of a path
/// (`.` and `..` components resolved without consulting the filesystem).
/// The result is a function of the argument alone.
pub uninterp spec fn cleaned(p: Seq<char>) -> Seq<char>;

/// Relies on `path_clean::clean`: a pure, lexical normalization of its
/// argument, depending on nothing but the given characters.
#[verifier::external_body]
fn clean_path(p: &str) -> (r: String)
    ensures
        r@ == cleaned(p@),
{
    path_clean::clean(p).to_string_lossy().into_owned()
}

/// A path with no leading `/` (the empty path counts as relative).
pub open spec fn spec_is_relative(s: Seq<char>) -> bool {
    s.len() == 0 || s[0] != '/'
}

/// The canonical form a relative URL stands for: joined with the working
/// directory, normalized, and wrapped in the `file://` marker.
pub open spec fn spec_expanded(cwd: Seq<char>, orig: Seq<char>) -> Seq<char> {
    "file://"@ + cleaned(spec_join_path(cwd, orig))
}

/// The replacement URL for a filesystem remote: the original URL where a
/// relative form already names the canonical location; otherwise the
/// canonical path, in the original's shape (`file://`-prefixed or bare).
pub open spec fn spec_format_file_url(orig: Seq<char>, canon: Seq<char>, cwd: Seq<char>) -> Seq<
    char,
> {
    if spec_is_relative(orig) && spec_expanded(cwd, orig) == canon {
        orig
    } else if spec_has_file_prefix(spec_trim_start(orig)) {
        canon
    } else {
        spec_strip_file_all(canon)
    }
}

/// Produces the new remote URL for a filesystem remote whose canonical
/// location is `canonical_path`, preserving the shape of
/// `original_remote_url`. `cwd` is the working directory that relative
/// URLs are resolved against.
pub fn format_new_remote_url(original_remote_url: &str, canonical_path: &str, cwd: &str) -> (r:
    String)
    ensures
        r@ == spec_format_file_url(original_remote_url@, canonical_path@, cwd@),
{
    let n = original_remote_url.unicode_len();
    let is_rel = n == 0 || original_remote_url.get_char(0) != '/';
    if is_rel {
        let joined = join_path(cwd, original_remote_url);
        let normalized = clean_path(joined.as_str());
        let expanded = String::from_str("file://").concat(normalized.as_str());
        if eq_str(expanded.as_str(), canonical_path) {
            return String::from_str(original_remote_url);
        }
    }
    let trimmed = trim_start_str(original_remote_url);
    proof {
        lemma_file_prefix_iff(spec_trim_start(original_remote_url@));
    }
    if starts_with_str(trimmed, "file://") {
        String::from_str(canonical_path)
    } else {
        strip_file_scheme_all(canonical_path)
    }
}

/// Law: the file formatter preserves the shape family of the original
/// URL. A relative URL that already names the canonical location is
/// returned verbatim; a `file://`-prefixed URL yields the
/// `file://`-prefixed canonical path; anything else yields the bare
/// absolute path.
pub proof fn lemma_file_format_preserves_shape(orig: Seq<char>, canon: Seq<char>, cwd: Seq<char>)
    requires
        spec_is_canonical_file_url(canon),
    ensures
        spec_is_relative(orig) && spec_expanded(cwd, orig) == canon ==> spec_format_file_url(
            orig,
            canon,
            cwd,
        ) == orig,
        !(spec_is_relative(orig) && spec_expanded(cwd, orig) == canon) && spec_has_file_prefix(
            spec_trim_start(orig),
        ) ==> spec_format_file_url(orig, canon, cwd) == canon && spec_has_file_prefix(
            spec_format_file_url(orig, canon, cwd),
        ),
        !(spec_is_relative(orig) && spec_expanded(cwd, orig) == canon) && !spec_has_file_prefix(
            spec_trim_start(orig),
        ) ==> {
            let r = spec_format_file_url(orig, canon, cwd);
            r == spec_strip_file_all(canon) && r.len() >= 1 && r[0] == '/' && !spec_has_file_prefix(
                r,
            )
        },
{
    lemma_strip_all_canonical(canon);
}

/// Law: the file formatter is idempotent. Formatting its own output
/// against the same canonical path and working directory returns that
/// output unchanged.
pub proof fn lemma_file_format_idempotent(orig: Seq<char>, canon: Seq<char>, cwd: Seq<char>)
    requires
        spec_is_canonical_file_url(canon),
    ensures
        spec_format_file_url(spec_format_file_url(orig, canon, cwd), canon, cwd)
            == spec_format_file_url(orig, canon, cwd),
{
    lemma_strip_all_canonical(canon);
    let r = spec_format_file_url(orig, canon, cwd);
    if spec_is_relative(orig) && spec_expanded(cwd, orig) == canon {
    } else if spec_has_file_prefix(spec_trim_start(orig)) {
        assert(r == canon);
        assert(canon[0] == 'f');
        if spec_expanded(cwd, canon) == canon {
        } else {
            assert(spec_trim_start(canon) == canon);
        }
    } else {
        assert(r == canon.skip(7));
        assert(r[0] == '/');
        assert(!spec_is_relative(r));
        assert(spec_trim_start(r) == r);
        assert(!spec_has_file_prefix(r));
    }
}

} // verus!
