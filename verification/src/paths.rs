//! Lexical path reasoning: deriving a repository name from a path and
//! handling the `file://` scheme marker.
//!
//! Paths are treated as character sequences; nothing here touches the
//! filesystem.

use vstd::prelude::*;
use crate::spec_starts_with;
use crate::text::{spec_ends_with, starts_with_str, ends_with_str, eq_str};
use crate::types::Error;

verus! {

/// True when `s` begins with the seven characters `file://`.
pub open spec fn spec_has_file_prefix(s: Seq<char>) -> bool {
    s.len() >= 7 && s[0] == 'f' && s[1] == 'i' && s[2] == 'l' && s[3] == 'e' && s[4] == ':'
        && s[5] == '/' && s[6] == '/'
}

pub proof fn lemma_file_prefix_iff(s: Seq<char>)
    ensures
        spec_starts_with(s, "file://"@) == spec_has_file_prefix(s),
{
    reveal_strlit("file://");
    if spec_starts_with(s, "file://"@) {
        assert forall|i: int| 0 <= i < 7 implies s[i] == "file://"@[i] by {
            assert(s.subrange(0, 7)[i] == s[i]);
        }
    }
    if spec_has_file_prefix(s) {
        assert("file://"@ =~= s.subrange(0, "file://"@.len() as int));
    }
}

/// `s` with one leading `file://` removed, if present.
pub open spec fn spec_strip_file_once(s: Seq<char>) -> Seq<char> {
    if spec_has_file_prefix(s) {
        s.skip(7)
    } else {
        s
    }
}

/// `s` with every leading `file://` removed.
pub open spec fn spec_strip_file_all(s: Seq<char>) -> Seq<char>
    decreases s.len(),
{
    if spec_has_file_prefix(s) {
        spec_strip_file_all(s.skip(7))
    } else {
        s
    }
}

/// `s` with one trailing `.git` removed, if present.
pub open spec fn spec_strip_git_suffix(s: Seq<char>) -> Seq<char> {
    if spec_ends_with(s, ".git"@) {
        s.take(s.len() - 4)
    } else {
        s
    }
}

/// Index of the last slash run's start: scanning left from `end`, skips
/// the characters that are `/`.
pub open spec fn skip_slashes_back(p: Seq<char>, end: int) -> int
    decreases end,
{
    if 0 < end <= p.len() && p[end - 1] == '/' {
        skip_slashes_back(p, end - 1)
    } else {
        end
    }
}

/// Start of the path segment that ends at `end`: scanning left from
/// `end`, skips the characters that are not `/`.
pub open spec fn seg_start_back(p: Seq<char>, end: int) -> int
    decreases end,
{
    if 0 < end <= p.len() && p[end - 1] != '/' {
        seg_start_back(p, end - 1)
    } else {
        end
    }
}

pub proof fn lemma_skip_slashes_back_bounds(p: Seq<char>, end: int)
    requires
        0 <= end <= p.len(),
    ensures
        0 <= skip_slashes_back(p, end) <= end,
        skip_slashes_back(p, end) > 0 ==> p[skip_slashes_back(p, end) - 1] != '/',
    decreases end,
{
    if 0 < end <= p.len() && p[end - 1] == '/' {
        lemma_skip_slashes_back_bounds(p, end - 1);
    }
}

pub proof fn lemma_seg_start_back_bounds(p: Seq<char>, end: int)
    requires
        0 <= end <= p.len(),
    ensures
        0 <= seg_start_back(p, end) <= end,
        seg_start_back(p, end) > 0 ==> p[seg_start_back(p, end) - 1] == '/',
    decreases end,
{
    if 0 < end <= p.len() && p[end - 1] != '/' {
        lemma_seg_start_back_bounds(p, end - 1);
    }
}

/// Pins `seg_start_back` down: if nothing in `[j, end)` is a slash and
/// `j` is either the start or preceded by one, the scan stops at `j`.
pub proof fn lemma_seg_start_back_at(p: Seq<char>, end: int, j: int)
    requires
        0 <= j <= end <= p.len(),
        forall|i: int| j <= i < end ==> p[i] != '/',
        j == 0 || p[j - 1] == '/',
    ensures
        seg_start_back(p, end) == j,
    decreases end - j,
{
    if end > j {
        lemma_seg_start_back_at(p, end - 1, j);
    }
}

/// The base name of the path prefix `p[..end]`, with the semantics of
/// `Path::file_name` on Unix: trailing slashes are ignored, a trailing
/// `.` segment is skipped, and `..` (or an exhausted path) yields `None`.
pub open spec fn spec_file_name_at(p: Seq<char>, end: int) -> Option<Seq<char>>
    decreases end,
    via spec_file_name_at_decreases
{
    if end < 0 || end > p.len() {
        None
    } else {
        let e = skip_slashes_back(p, end);
        if e == 0 {
            None
        } else {
            let st = seg_start_back(p, e);
            let seg = p.subrange(st, e);
            if seg == ".."@ {
                None
            } else if seg == "."@ {
                spec_file_name_at(p, st)
            } else {
                Some(seg)
            }
        }
    }
}

#[via_fn]
proof fn spec_file_name_at_decreases(p: Seq<char>, end: int) {
    if 0 <= end <= p.len() {
        lemma_skip_slashes_back_bounds(p, end);
        let e = skip_slashes_back(p, end);
        if e > 0 {
            assert(seg_start_back(p, e) == seg_start_back(p, e - 1));
            lemma_seg_start_back_bounds(p, e - 1);
        }
    }
}

/// The base name of a path, or `None` where none exists.
pub open spec fn spec_file_name(p: Seq<char>) -> Option<Seq<char>> {
    spec_file_name_at(p, p.len() as int)
}

/// The repository name a path stands for: the base name after one
/// trailing `.git` is removed.
pub open spec fn spec_extract_repo_name(s: Seq<char>) -> Option<Seq<char>> {
    spec_file_name(spec_strip_git_suffix(s))
}

/// Derives the repository name from a path or `file://` URL: strips one
/// trailing `.git`, then takes the last path segment.
pub fn extract_repo_name_from_path(url: &str) -> (r: Result<String, Error>)
    ensures
        match r {
            Ok(name) => spec_extract_repo_name(url@) == Some(name@),
            Err(e) => spec_extract_repo_name(url@) is None && (e matches Error::Other(m)
                && m@ == "Could not extract repository name from URL"@),
        },
{
    proof {
        reveal_strlit(".git");
    }
    let n = url.unicode_len();
    let stripped: &str = if ends_with_str(url, ".git") {
        url.substring_char(0, n - 4)
    } else {
        url
    };
    proof {
        assert(stripped@ == spec_strip_git_suffix(url@));
    }
    match file_name_str(stripped) {
        Some(name) => Ok(name),
        None => Err(
            Error::Other(String::from_str("Could not extract repository name from URL")),
        ),
    }
}

/// The last path segment of `s`, with `Path::file_name` semantics.
fn file_name_str(s: &str) -> (r: Option<String>)
    ensures
        match r {
            Some(name) => spec_file_name(s@) == Some(name@),
            None => spec_file_name(s@) is None,
        },
{
    let n = s.unicode_len();
    let mut end = n;
    loop
        invariant
            end <= n,
            n == s@.len(),
            spec_file_name_at(s@, end as int) == spec_file_name(s@),
        decreases end,
    {
        let mut e = end;
        while e > 0 && s.get_char(e - 1) == '/'
            invariant
                e <= end <= n,
                n == s@.len(),
                skip_slashes_back(s@, end as int) == skip_slashes_back(s@, e as int),
            decreases e,
        {
            e -= 1;
        }
        assert(skip_slashes_back(s@, e as int) == e as int);
        if e == 0 {
            return None;
        }
        let mut st = e;
        while st > 0 && s.get_char(st - 1) != '/'
            invariant
                st <= e <= n,
                n == s@.len(),
                seg_start_back(s@, e as int) == seg_start_back(s@, st as int),
            decreases st,
        {
            st -= 1;
        }
        assert(seg_start_back(s@, st as int) == st as int);
        let seg = s.substring_char(st, e);
        if eq_str(seg, "..") {
            return None;
        }
        if eq_str(seg, ".") {
            end = st;
        } else {
            return Some(String::from_str(seg));
        }
    }
}

/// A resolved filesystem identity: the `file://` marker followed by an
/// absolute path holding at least one real segment.
pub open spec fn spec_is_canonical_file_url(s: Seq<char>) -> bool {
    spec_has_file_prefix(s) && s.len() >= 8 && s[7] == '/' && skip_slashes_back(
        s.skip(7),
        s.len() - 7,
    ) > 0
}

/// Whether `s` is a resolved filesystem identity, executably: callers
/// test this before handing a path to logic that requires it.
pub fn is_canonical_file_url(s: &str) -> (b: bool)
    ensures
        b == spec_is_canonical_file_url(s@),
{
    proof {
        reveal_strlit("file:///");
        if spec_starts_with(s@, "file:///"@) {
            assert forall|i: int| 0 <= i < 8 implies s@[i] == "file:///"@[i] by {
                assert(s@.subrange(0, 8)[i] == s@[i]);
            }
        }
        if spec_has_file_prefix(s@) && s@.len() >= 8 && s@[7] == '/' {
            assert("file:///"@ =~= s@.subrange(0, 8));
        }
    }
    if !starts_with_str(s, "file:///") {
        return false;
    }
    let n = s.unicode_len();
    let fp = s.substring_char(7, n);
    proof {
        assert(fp@ =~= s@.skip(7));
    }
    let m = fp.unicode_len();
    let mut e = m;
    while e > 0 && fp.get_char(e - 1) == '/'
        invariant
            e <= m,
            m == fp@.len(),
            skip_slashes_back(fp@, m as int) == skip_slashes_back(fp@, e as int),
        decreases e,
    {
        e -= 1;
    }
    assert(skip_slashes_back(fp@, e as int) == e as int);
    e > 0
}

/// On a canonical `file://` URL, stripping scheme markers repeatedly
/// strips exactly one.
pub proof fn lemma_strip_all_canonical(s: Seq<char>)
    requires
        spec_has_file_prefix(s),
        s.len() >= 8,
        s[7] == '/',
    ensures
        spec_strip_file_all(s) == s.skip(7),
        s.skip(7).len() >= 1,
        s.skip(7)[0] == '/',
{
    assert(s.skip(7)[0] == s[7]);
    assert(spec_strip_file_all(s.skip(7)) == s.skip(7));
}

/// The base name of a segment joined onto a directory is that segment.
pub proof fn lemma_file_name_of_join(dir: Seq<char>, name: Seq<char>)
    requires
        name.len() > 0,
        forall|i: int| 0 <= i < name.len() ==> name[i] != '/',
        name != "."@,
        name != ".."@,
    ensures
        spec_file_name(spec_join_path(dir, name)) == Some(name),
{
    reveal_strlit("/");
    let d = if dir.len() > 0 && dir[dir.len() - 1] == '/' {
        dir
    } else {
        dir + "/"@
    };
    let q = spec_join_path(dir, name);
    assert(q =~= d + name);
    let dl = d.len() as int;
    let ql = q.len() as int;
    assert(d.len() > 0 && d[dl - 1] == '/');
    assert(q[ql - 1] == name[name.len() - 1]);
    assert(skip_slashes_back(q, ql) == ql);
    lemma_seg_start_back_at(q, ql, dl);
    assert(q.subrange(dl, ql) =~= name);
}

/// The repository name derived from a sibling `<name>.git` placed in a
/// directory is that name.
pub proof fn lemma_extract_of_git_sibling(par: Seq<char>, name: Seq<char>)
    requires
        par.len() > 0,
        name.len() > 0,
        forall|i: int| 0 <= i < name.len() ==> name[i] != '/',
        name != "."@,
        name != ".."@,
    ensures
        spec_extract_repo_name("file://"@ + spec_join_path(par, name + ".git"@)) == Some(name),
{
    reveal_strlit("file://");
    reveal_strlit(".git");
    reveal_strlit("/");
    let c2 = "file://"@ + spec_join_path(par, name + ".git"@);
    let d = if par[par.len() - 1] == '/' {
        "file://"@ + par
    } else {
        "file://"@ + par + "/"@
    };
    assert(c2 =~= d + name + ".git"@);
    assert(c2.subrange(c2.len() - 4, c2.len() as int) =~= ".git"@);
    assert(spec_ends_with(c2, ".git"@));
    let stripped = spec_strip_git_suffix(c2);
    assert(stripped =~= d + name);
    assert(stripped =~= spec_join_path("file://"@ + par, name)) by {
        if par[par.len() - 1] == '/' {
            assert(("file://"@ + par)[("file://"@ + par).len() - 1] == '/');
        } else {
            assert(("file://"@ + par)[("file://"@ + par).len() - 1] == par[par.len() - 1]);
        }
    }
    lemma_file_name_of_join("file://"@ + par, name);
}

/// The directory holding the last path segment of `p`: everything up to
/// that segment with trailing slashes dropped, `/` for a segment at the
/// root, and empty for a bare relative segment.
pub open spec fn spec_parent_dir(p: Seq<char>) -> Seq<char> {
    let e = skip_slashes_back(p, p.len() as int);
    let st = seg_start_back(p, e);
    let pe = skip_slashes_back(p, st);
    if pe > 0 {
        p.take(pe)
    } else if p.len() > 0 && p[0] == '/' {
        "/"@
    } else {
        Seq::empty()
    }
}

/// The directory holding the last path segment of `p`.
pub fn parent_dir(p: &str) -> (r: String)
    ensures
        r@ == spec_parent_dir(p@),
{
    let n = p.unicode_len();
    let mut e = n;
    while e > 0 && p.get_char(e - 1) == '/'
        invariant
            e <= n,
            n == p@.len(),
            skip_slashes_back(p@, n as int) == skip_slashes_back(p@, e as int),
        decreases e,
    {
        e -= 1;
    }
    assert(skip_slashes_back(p@, e as int) == e as int);
    let mut st = e;
    while st > 0 && p.get_char(st - 1) != '/'
        invariant
            st <= e <= n,
            n == p@.len(),
            seg_start_back(p@, e as int) == seg_start_back(p@, st as int),
        decreases st,
    {
        st -= 1;
    }
    assert(seg_start_back(p@, st as int) == st as int);
    let mut pe = st;
    while pe > 0 && p.get_char(pe - 1) == '/'
        invariant
            pe <= st <= n,
            n == p@.len(),
            skip_slashes_back(p@, st as int) == skip_slashes_back(p@, pe as int),
        decreases pe,
    {
        pe -= 1;
    }
    assert(skip_slashes_back(p@, pe as int) == pe as int);
    if pe > 0 {
        String::from_str(p.substring_char(0, pe))
    } else if n > 0 && p.get_char(0) == '/' {
        String::from_str("/")
    } else {
        String::new()
    }
}

/// `name` placed inside the directory `dir`, with a single separator.
pub open spec fn spec_join_path(dir: Seq<char>, name: Seq<char>) -> Seq<char> {
    if dir.len() > 0 && dir[dir.len() - 1] == '/' {
        dir + name
    } else {
        dir + "/"@ + name
    }
}

/// Joins `name` onto the directory `dir`.
pub fn join_path(dir: &str, name: &str) -> (r: String)
    ensures
        r@ == spec_join_path(dir@, name@),
{
    let n = dir.unicode_len();
    if n > 0 && dir.get_char(n - 1) == '/' {
        String::from_str(dir).concat(name)
    } else {
        String::from_str(dir).concat("/").concat(name)
    }
}

/// Removes one leading `file://` scheme marker, if present.
pub fn strip_file_scheme(s: &str) -> (r: String)
    ensures
        r@ == spec_strip_file_once(s@),
{
    proof {
        lemma_file_prefix_iff(s@);
        reveal_strlit("file://");
    }
    if starts_with_str(s, "file://") {
        String::from_str(s.substring_char(7, s.unicode_len()))
    } else {
        String::from_str(s)
    }
}

/// Wraps a path in the `file://` scheme marker.
pub fn wrap_file_scheme(path: &str) -> (r: String)
    ensures
        r@ == "file://"@ + path@,
{
    String::from_str("file://").concat(path)
}

/// Removes every leading `file://` scheme marker.
pub fn strip_file_scheme_all(s: &str) -> (r: String)
    ensures
        r@ == spec_strip_file_all(s@),
{
    let mut cur = String::from_str(s);
    loop
        invariant
            spec_strip_file_all(cur@) == spec_strip_file_all(s@),
        decreases cur@.len(),
    {
        proof {
            lemma_file_prefix_iff(cur@);
            reveal_strlit("file://");
        }
        if starts_with_str(cur.as_str(), "file://") {
            let next = String::from_str(cur.as_str().substring_char(7, cur.as_str().unicode_len()));
            cur = next;
        } else {
            return cur;
        }
    }
}

} // verus!
