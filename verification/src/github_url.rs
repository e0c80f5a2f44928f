//! The GitHub remote-URL grammar: detection, owner/name parsing, and
//! scheme-preserving formatting.
//!
//! Four addressing schemes are recognized (HTTPS with an optional
//! `www.`, the `git@` SSH shorthand, `ssh://`, and `git://`), each
//! followed by `<owner>/<name>` with an optional `.git` suffix. The
//! scheme-and-host prefix is matched case-insensitively; owner and name
//! are taken as written. Detection and capture use one grammar: a URL
//! that [`is_github_url`] accepts is exactly a URL that
//! [`parse_github_url`] parses.

use vstd::prelude::*;
use crate::spec_starts_with;
use crate::text::{
    spec_ends_with, spec_is_space, is_space, starts_with_str, ends_with_str,
};
use crate::types::Error;

verus! {

/// ASCII case folding for one character.
pub open spec fn spec_lower_char(c: char) -> char {
    if c == 'A' {
        'a'
    } else if c == 'B' {
        'b'
    } else if c == 'C' {
        'c'
    } else if c == 'D' {
        'd'
    } else if c == 'E' {
        'e'
    } else if c == 'F' {
        'f'
    } else if c == 'G' {
        'g'
    } else if c == 'H' {
        'h'
    } else if c == 'I' {
        'i'
    } else if c == 'J' {
        'j'
    } else if c == 'K' {
        'k'
    } else if c == 'L' {
        'l'
    } else if c == 'M' {
        'm'
    } else if c == 'N' {
        'n'
    } else if c == 'O' {
        'o'
    } else if c == 'P' {
        'p'
    } else if c == 'Q' {
        'q'
    } else if c == 'R' {
        'r'
    } else if c == 'S' {
        's'
    } else if c == 'T' {
        't'
    } else if c == 'U' {
        'u'
    } else if c == 'V' {
        'v'
    } else if c == 'W' {
        'w'
    } else if c == 'X' {
        'x'
    } else if c == 'Y' {
        'y'
    } else if c == 'Z' {
        'z'
    } else {
        c
    }
}

/// ASCII case folding of a whole sequence.
pub open spec fn spec_lower(s: Seq<char>) -> Seq<char> {
    Seq::new(s.len(), |i: int| spec_lower_char(s[i]))
}

/// ASCII case folding for one character.
fn lower_char(c: char) -> (r: char)
    ensures
        r == spec_lower_char(c),
{
    if c == 'A' {
        'a'
    } else if c == 'B' {
        'b'
    } else if c == 'C' {
        'c'
    } else if c == 'D' {
        'd'
    } else if c == 'E' {
        'e'
    } else if c == 'F' {
        'f'
    } else if c == 'G' {
        'g'
    } else if c == 'H' {
        'h'
    } else if c == 'I' {
        'i'
    } else if c == 'J' {
        'j'
    } else if c == 'K' {
        'k'
    } else if c == 'L' {
        'l'
    } else if c == 'M' {
        'm'
    } else if c == 'N' {
        'n'
    } else if c == 'O' {
        'o'
    } else if c == 'P' {
        'p'
    } else if c == 'Q' {
        'q'
    } else if c == 'R' {
        'r'
    } else if c == 'S' {
        's'
    } else if c == 'T' {
        't'
    } else if c == 'U' {
        'u'
    } else if c == 'V' {
        'v'
    } else if c == 'W' {
        'w'
    } else if c == 'X' {
        'x'
    } else if c == 'Y' {
        'y'
    } else if c == 'Z' {
        'z'
    } else {
        c
    }
}

/// Whether `s` starts with `p`, ignoring ASCII case in `s` (`p` is
/// given in lower case).
fn starts_with_nocase(s: &str, p: &str) -> (b: bool)
    ensures
        b == spec_starts_with(spec_lower(s@), p@),
{
    proof {
        assert(spec_lower(s@).len() == s@.len());
    }
    let n = p.unicode_len();
    if n > s.unicode_len() {
        return false;
    }
    let mut i: usize = 0;
    while i < n
        invariant
            i <= n,
            n == p@.len(),
            n <= s@.len(),
            spec_lower(s@).len() == s@.len(),
            forall|j: int| 0 <= j < i ==> spec_lower(s@)[j] == p@[j],
        decreases n - i,
    {
        if lower_char(s.get_char(i)) != p.get_char(i) {
            proof {
                assert(spec_lower(s@)[i as int] == spec_lower_char(s@[i as int]));
            }
            return false;
        }
        proof {
            assert(spec_lower(s@)[i as int] == spec_lower_char(s@[i as int]));
        }
        i += 1;
    }
    proof {
        assert(p@ =~= spec_lower(s@).subrange(0, p@.len() as int));
    }
    true
}

/// Position `i` splits `r` into `<owner>/<tail>`: the one slash of `r`
/// stands at `i`, and the owner before it is nonempty.
pub open spec fn is_slash_split(r: Seq<char>, i: int) -> bool {
    0 < i < r.len() && r[i] == '/' && (forall|j: int| 0 <= j < r.len() && j != i ==> r[j] != '/')
}

/// Whether `r` has the `<owner>/<tail>` shape.
pub open spec fn has_unique_slash(r: Seq<char>) -> bool {
    exists|i: int| is_slash_split(r, i)
}

/// The position of the unique slash.
pub open spec fn slash_pos(r: Seq<char>) -> int {
    choose|i: int| is_slash_split(r, i)
}

pub proof fn lemma_slash_pos_is(r: Seq<char>, i: int)
    requires
        is_slash_split(r, i),
    ensures
        has_unique_slash(r),
        slash_pos(r) == i,
{
    assert(has_unique_slash(r));
}

/// Length of the recognized GitHub scheme prefix of `s`, matched on the
/// case-folded characters, or `-1` when no scheme matches.
pub open spec fn spec_gh_prefix_len(s: Seq<char>) -> int {
    if spec_starts_with(spec_lower(s), "https://github.com/"@) {
        "https://github.com/"@.len() as int
    } else if spec_starts_with(spec_lower(s), "https://www.github.com/"@) {
        "https://www.github.com/"@.len() as int
    } else if spec_starts_with(spec_lower(s), "git@github.com:"@) {
        "git@github.com:"@.len() as int
    } else if spec_starts_with(spec_lower(s), "ssh://git@github.com/"@) {
        "ssh://git@github.com/"@.len() as int
    } else if spec_starts_with(spec_lower(s), "git://github.com/"@) {
        "git://github.com/"@.len() as int
    } else {
        -1
    }
}

/// What follows the scheme prefix, in its original case.
pub open spec fn spec_gh_rest(s: Seq<char>) -> Seq<char> {
    s.skip(spec_gh_prefix_len(s))
}

/// The repository name the tail stands for: the tail with one trailing
/// `.git` removed.
pub open spec fn spec_gh_name(np: Seq<char>) -> Seq<char> {
    if spec_ends_with(np, ".git"@) {
        np.take(np.len() - 4)
    } else {
        np
    }
}

/// Whether the tail is well-formed: free of whitespace, and nonempty
/// once the optional `.git` suffix is removed.
pub open spec fn spec_gh_name_ok(np: Seq<char>) -> bool {
    np.len() > 0 && spec_gh_name(np).len() > 0 && (forall|j: int|
        0 <= j < np.len() ==> !spec_is_space(np[j]))
}

/// Whether `s` is a GitHub remote URL: a recognized scheme, a nonempty
/// owner with no slash, one slash, and a well-formed tail.
pub open spec fn spec_is_github_url(s: Seq<char>) -> bool {
    spec_gh_prefix_len(s) >= 0 && has_unique_slash(spec_gh_rest(s)) && spec_gh_name_ok(
        spec_gh_rest(s).skip(slash_pos(spec_gh_rest(s)) + 1),
    )
}

/// Whether owner and repository name can be read off `s`. Detection and
/// capture share one grammar, so this is [`spec_is_github_url`].
pub open spec fn spec_gh_parseable(s: Seq<char>) -> bool {
    spec_is_github_url(s)
}

/// Law: detection and capture are in lockstep — the parser reads owner
/// and name off exactly the URLs the detector accepts, because the two
/// share a single grammar.
pub proof fn lemma_grammar_lockstep(s: Seq<char>)
    ensures
        spec_gh_parseable(s) == spec_is_github_url(s),
{
}

/// The owner read off a parseable URL.
pub open spec fn spec_gh_owner(s: Seq<char>) -> Seq<char> {
    spec_gh_rest(s).take(slash_pos(spec_gh_rest(s)))
}

/// The repository name read off a parseable URL.
pub open spec fn spec_gh_repo(s: Seq<char>) -> Seq<char> {
    spec_gh_name(spec_gh_rest(s).skip(slash_pos(spec_gh_rest(s)) + 1))
}

/// Matches `s` against the recognized scheme prefixes, ignoring ASCII
/// case.
fn gh_prefix_len(s: &str) -> (r: Option<usize>)
    ensures
        match r {
            Some(l) => spec_gh_prefix_len(s@) == l as int && l <= s@.len(),
            None => spec_gh_prefix_len(s@) == -1,
        },
{
    proof {
        assert(spec_lower(s@).len() == s@.len());
    }
    if starts_with_nocase(s, "https://github.com/") {
        Some("https://github.com/".unicode_len())
    } else if starts_with_nocase(s, "https://www.github.com/") {
        Some("https://www.github.com/".unicode_len())
    } else if starts_with_nocase(s, "git@github.com:") {
        Some("git@github.com:".unicode_len())
    } else if starts_with_nocase(s, "ssh://git@github.com/") {
        Some("ssh://git@github.com/".unicode_len())
    } else if starts_with_nocase(s, "git://github.com/") {
        Some("git://github.com/".unicode_len())
    } else {
        None
    }
}

/// First slash of `s`, if any.
fn find_first_slash(s: &str) -> (r: Option<usize>)
    ensures
        match r {
            Some(i) => i < s@.len() && s@[i as int] == '/' && (forall|j: int|
                0 <= j < i ==> s@[j] != '/'),
            None => forall|j: int| 0 <= j < s@.len() ==> s@[j] != '/',
        },
{
    let n = s.unicode_len();
    let mut i: usize = 0;
    while i < n
        invariant
            i <= n,
            n == s@.len(),
            forall|j: int| 0 <= j < i ==> s@[j] != '/',
        decreases n - i,
    {
        if s.get_char(i) == '/' {
            return Some(i);
        }
        i += 1;
    }
    None
}

/// Whether any slash stands at or after `from`.
fn has_slash_from(s: &str, from: usize) -> (b: bool)
    ensures
        b == exists|j: int| from <= j < s@.len() && s@[j] == '/',
{
    let n = s.unicode_len();
    if from >= n {
        return false;
    }
    let mut i = from;
    while i < n
        invariant
            from <= i <= n,
            n == s@.len(),
            forall|j: int| from <= j < i ==> s@[j] != '/',
        decreases n - i,
    {
        if s.get_char(i) == '/' {
            return true;
        }
        i += 1;
    }
    false
}

/// Whether any whitespace stands at or after `from`.
fn has_space_from(s: &str, from: usize) -> (b: bool)
    ensures
        b == exists|j: int| from <= j < s@.len() && spec_is_space(s@[j]),
{
    let n = s.unicode_len();
    if from >= n {
        return false;
    }
    let mut i = from;
    while i < n
        invariant
            from <= i <= n,
            n == s@.len(),
            forall|j: int| from <= j < i ==> !spec_is_space(s@[j]),
        decreases n - i,
    {
        if is_space(s.get_char(i)) {
            return true;
        }
        i += 1;
    }
    false
}

/// Whether `url` is a GitHub remote URL under the grammar.
pub fn is_github_url(url: &str) -> (b: bool)
    ensures
        b == spec_is_github_url(url@),
{
    let plen = match gh_prefix_len(url) {
        Some(l) => l,
        None => {
            return false;
        },
    };
    let n = url.unicode_len();
    let rest = url.substring_char(plen, n);
    proof {
        assert(rest@ =~= spec_gh_rest(url@));
    }
    let m = rest.unicode_len();
    let i = match find_first_slash(rest) {
        None => {
            assert(forall|k: int| !is_slash_split(rest@, k));
            return false;
        },
        Some(i) => i,
    };
    if i == 0 {
        assert(forall|k: int| !is_slash_split(rest@, k));
        return false;
    }
    if has_slash_from(rest, i + 1) {
        proof {
            let k = choose|k: int| i + 1 <= k < rest@.len() && rest@[k] == '/';
            assert forall|m2: int| !is_slash_split(rest@, m2) by {
                if is_slash_split(rest@, m2) {
                    assert(rest@[i as int] == '/');
                    assert(rest@[k] == '/');
                }
            }
        }
        return false;
    }
    proof {
        lemma_slash_pos_is(rest@, i as int);
    }
    let np = rest.substring_char(i + 1, m);
    proof {
        assert(np@ =~= spec_gh_rest(url@).skip(slash_pos(spec_gh_rest(url@)) + 1));
        reveal_strlit(".git");
    }
    let npn = np.unicode_len();
    if npn == 0 {
        return false;
    }
    if has_space_from(np, 0) {
        return false;
    }
    if ends_with_str(np, ".git") && npn == 4 {
        return false;
    }
    true
}

/// Reads `(owner, name)` off a GitHub remote URL; one trailing `.git`
/// is stripped from the name.
pub fn parse_github_url(url: &str) -> (r: Result<(String, String), Error>)
    ensures
        match r {
            Ok(pair) => spec_gh_parseable(url@) && pair.0@ == spec_gh_owner(url@) && pair.1@
                == spec_gh_repo(url@),
            Err(e) => !spec_gh_parseable(url@) && (e matches Error::InvalidGitHubUrl(u) && u@
                == url@),
        },
{
    let plen = match gh_prefix_len(url) {
        Some(l) => l,
        None => {
            return Err(Error::InvalidGitHubUrl(String::from_str(url)));
        },
    };
    let n = url.unicode_len();
    let rest = url.substring_char(plen, n);
    proof {
        assert(rest@ =~= spec_gh_rest(url@));
    }
    let m = rest.unicode_len();
    let i = match find_first_slash(rest) {
        None => {
            assert(forall|k: int| !is_slash_split(rest@, k));
            return Err(Error::InvalidGitHubUrl(String::from_str(url)));
        },
        Some(i) => i,
    };
    if i == 0 {
        assert(forall|k: int| !is_slash_split(rest@, k));
        return Err(Error::InvalidGitHubUrl(String::from_str(url)));
    }
    if has_slash_from(rest, i + 1) {
        proof {
            let k = choose|k: int| i + 1 <= k < rest@.len() && rest@[k] == '/';
            assert forall|m2: int| !is_slash_split(rest@, m2) by {
                if is_slash_split(rest@, m2) {
                    assert(rest@[i as int] == '/');
                    assert(rest@[k] == '/');
                }
            }
        }
        return Err(Error::InvalidGitHubUrl(String::from_str(url)));
    }
    proof {
        lemma_slash_pos_is(rest@, i as int);
    }
    let np = rest.substring_char(i + 1, m);
    proof {
        assert(np@ =~= spec_gh_rest(url@).skip(slash_pos(spec_gh_rest(url@)) + 1));
        reveal_strlit(".git");
    }
    let npn = np.unicode_len();
    if npn == 0 {
        return Err(Error::InvalidGitHubUrl(String::from_str(url)));
    }
    if has_space_from(np, 0) {
        return Err(Error::InvalidGitHubUrl(String::from_str(url)));
    }
    let name: &str = if ends_with_str(np, ".git") {
        np.substring_char(0, npn - 4)
    } else {
        np
    };
    proof {
        assert(name@ == spec_gh_name(np@));
    }
    if name.unicode_len() == 0 {
        return Err(Error::InvalidGitHubUrl(String::from_str(url)));
    }
    let owner = rest.substring_char(0, i);
    proof {
        assert(owner@ =~= spec_gh_owner(url@));
    }
    Ok((String::from_str(owner), String::from_str(name)))
}

/// The new remote URL for a hosted remote, in the same addressing scheme
/// as the original: `git@` shorthand, `ssh://`, `git://`, or HTTPS for
/// anything else.
pub open spec fn spec_gh_format(o: Seq<char>, ow: Seq<char>, n: Seq<char>) -> Seq<char> {
    if spec_starts_with(o, "git@"@) {
        "git@github.com:"@ + ow + "/"@ + n + ".git"@
    } else if spec_starts_with(o, "ssh://"@) {
        "ssh://git@github.com/"@ + ow + "/"@ + n + ".git"@
    } else if spec_starts_with(o, "git://"@) {
        "git://github.com/"@ + ow + "/"@ + n + ".git"@
    } else {
        "https://github.com/"@ + ow + "/"@ + n + ".git"@
    }
}

/// Builds the remote URL naming `owner/repo_name` in the scheme of
/// `original_remote_url`; the `.git` suffix is always appended.
pub fn format_new_remote_url(original_remote_url: &str, owner: &str, repo_name: &str) -> (r:
    String)
    ensures
        r@ == spec_gh_format(original_remote_url@, owner@, repo_name@),
{
    let prefix: &str = if starts_with_str(original_remote_url, "git@") {
        "git@github.com:"
    } else if starts_with_str(original_remote_url, "ssh://") {
        "ssh://git@github.com/"
    } else if starts_with_str(original_remote_url, "git://") {
        "git://github.com/"
    } else {
        "https://github.com/"
    };
    String::from_str(prefix).concat(owner).concat("/").concat(repo_name).concat(".git")
}

/// The first slash's index in `s`, `-1` when `s` holds none.
pub open spec fn spec_find_slash(s: Seq<char>) -> int
    decreases s.len(),
{
    if s.len() == 0 {
        -1
    } else if s[0] == '/' {
        0
    } else {
        let r = spec_find_slash(s.skip(1));
        if r < 0 {
            -1
        } else {
            r + 1
        }
    }
}

pub proof fn lemma_find_slash_at(s: Seq<char>, i: int)
    requires
        0 <= i < s.len(),
        s[i] == '/',
        forall|j: int| 0 <= j < i ==> s[j] != '/',
    ensures
        spec_find_slash(s) == i,
    decreases i,
{
    if i > 0 {
        lemma_find_slash_at(s.skip(1), i - 1);
    }
}

pub proof fn lemma_find_slash_none(s: Seq<char>)
    requires
        forall|j: int| 0 <= j < s.len() ==> s[j] != '/',
    ensures
        spec_find_slash(s) == -1,
    decreases s.len(),
{
    if s.len() > 0 {
        lemma_find_slash_none(s.skip(1));
    }
}

/// The owner named by a `full_name` of the form `owner/name`: the part
/// before the first slash, or all of it when no slash occurs.
pub open spec fn spec_owner_part(f: Seq<char>) -> Seq<char> {
    if spec_find_slash(f) >= 0 {
        f.take(spec_find_slash(f))
    } else {
        f
    }
}

/// The owner part of a repository's `full_name`.
pub fn owner_part<'a>(full_name: &'a str) -> (r: &'a str)
    ensures
        r@ == spec_owner_part(full_name@),
{
    match find_first_slash(full_name) {
        Some(i) => {
            proof {
                lemma_find_slash_at(full_name@, i as int);
            }
            full_name.substring_char(0, i)
        },
        None => {
            proof {
                lemma_find_slash_none(full_name@);
            }
            full_name
        },
    }
}

pub proof fn lemma_find_slash_props(s: Seq<char>)
    ensures
        spec_find_slash(s) == -1 ==> forall|j: int| 0 <= j < s.len() ==> s[j] != '/',
        spec_find_slash(s) >= 0 ==> 0 <= spec_find_slash(s) < s.len() && s[spec_find_slash(s)]
            == '/' && (forall|j: int| 0 <= j < spec_find_slash(s) ==> s[j] != '/'),
    decreases s.len(),
{
    if s.len() > 0 && s[0] != '/' {
        lemma_find_slash_props(s.skip(1));
        assert forall|j: int| 0 <= j < s.len() && spec_find_slash(s) == -1 implies s[j]
            != '/' by {
            if j > 0 {
                assert(s.skip(1)[j - 1] == s[j]);
            }
        }
        if spec_find_slash(s) >= 0 {
            let f = spec_find_slash(s.skip(1));
            assert(s[f + 1] == s.skip(1)[f]);
            assert forall|j: int| 0 <= j < spec_find_slash(s) implies s[j] != '/' by {
                if j > 0 {
                    assert(s.skip(1)[j - 1] == s[j]);
                }
            }
        }
    }
}

/// The owner part of a `full_name` never holds a slash.
pub proof fn lemma_owner_part_no_slash(f: Seq<char>)
    ensures
        forall|j: int| 0 <= j < spec_owner_part(f).len() ==> spec_owner_part(f)[j] != '/',
{
    lemma_find_slash_props(f);
}

/// Law: the hosted URL formatter preserves the addressing scheme. For
/// each of the four scheme families — `git@` shorthand, `ssh://`,
/// `git://`, and everything else (formatted as HTTPS) — the output is in
/// the family that selected it.
pub proof fn lemma_gh_format_preserves_scheme(o: Seq<char>, ow: Seq<char>, n: Seq<char>)
    ensures
        spec_starts_with(o, "git@"@) ==> spec_starts_with(spec_gh_format(o, ow, n), "git@"@),
        !spec_starts_with(o, "git@"@) && spec_starts_with(o, "ssh://"@) ==> spec_starts_with(
            spec_gh_format(o, ow, n),
            "ssh://"@,
        ),
        !spec_starts_with(o, "git@"@) && !spec_starts_with(o, "ssh://"@) && spec_starts_with(
            o,
            "git://"@,
        ) ==> spec_starts_with(spec_gh_format(o, ow, n), "git://"@),
        !spec_starts_with(o, "git@"@) && !spec_starts_with(o, "ssh://"@) && !spec_starts_with(
            o,
            "git://"@,
        ) ==> spec_starts_with(spec_gh_format(o, ow, n), "https://"@),
{
    reveal_strlit("git@");
    reveal_strlit("ssh://");
    reveal_strlit("git://");
    reveal_strlit("https://");
    reveal_strlit("git@github.com:");
    reveal_strlit("ssh://git@github.com/");
    reveal_strlit("git://github.com/");
    reveal_strlit("https://github.com/");
    let s = spec_gh_format(o, ow, n);
    if spec_starts_with(o, "git@"@) {
        assert("git@"@ =~= s.subrange(0, 4));
    } else if spec_starts_with(o, "ssh://"@) {
        assert("ssh://"@ =~= s.subrange(0, 6));
    } else if spec_starts_with(o, "git://"@) {
        assert("git://"@ =~= s.subrange(0, 6));
    } else {
        assert("https://"@ =~= s.subrange(0, 8));
    }
}

/// Law: formatting an already-formatted hosted URL again changes
/// nothing but the substituted owner and name — the scheme family of
/// the formatter's output is the family that produced it.
pub proof fn lemma_gh_format_idempotent(
    o: Seq<char>,
    ow: Seq<char>,
    n: Seq<char>,
    ow2: Seq<char>,
    n2: Seq<char>,
)
    ensures
        spec_gh_format(spec_gh_format(o, ow, n), ow2, n2) == spec_gh_format(o, ow2, n2),
{
    reveal_strlit("git@");
    reveal_strlit("ssh://");
    reveal_strlit("git://");
    reveal_strlit("git@github.com:");
    reveal_strlit("ssh://git@github.com/");
    reveal_strlit("git://github.com/");
    reveal_strlit("https://github.com/");
    let s = spec_gh_format(o, ow, n);
    if spec_starts_with(o, "git@"@) {
        assert("git@"@ =~= s.subrange(0, 4));
    } else if spec_starts_with(o, "ssh://"@) {
        assert("ssh://"@ =~= s.subrange(0, 6));
        assert(s[0] == 's');
        assert(!spec_starts_with(s, "git@"@)) by {
            if spec_starts_with(s, "git@"@) {
                assert(s.subrange(0, 4)[0] == s[0]);
            }
        }
    } else if spec_starts_with(o, "git://"@) {
        assert("git://"@ =~= s.subrange(0, 6));
        assert(s[3] == ':');
        assert(!spec_starts_with(s, "git@"@)) by {
            if spec_starts_with(s, "git@"@) {
                assert(s.subrange(0, 4)[3] == s[3]);
            }
        }
        assert(!spec_starts_with(s, "ssh://"@)) by {
            if spec_starts_with(s, "ssh://"@) {
                assert(s.subrange(0, 6)[0] == s[0]);
            }
        }
    } else {
        assert(s[0] == 'h');
        assert(!spec_starts_with(s, "git@"@)) by {
            if spec_starts_with(s, "git@"@) {
                assert(s.subrange(0, 4)[0] == s[0]);
            }
        }
        assert(!spec_starts_with(s, "ssh://"@)) by {
            if spec_starts_with(s, "ssh://"@) {
                assert(s.subrange(0, 6)[0] == s[0]);
            }
        }
        assert(!spec_starts_with(s, "git://"@)) by {
            if spec_starts_with(s, "git://"@) {
                assert(s.subrange(0, 6)[0] == s[0]);
            }
        }
    }
}

/// The `<owner>/<name>.git` tail the formatter builds splits at the
/// slash between owner and name.
proof fn lemma_rest_split(r: Seq<char>, ow: Seq<char>, n: Seq<char>)
    requires
        r == ow + "/"@ + n + ".git"@,
        ow.len() > 0,
        forall|i: int| 0 <= i < ow.len() ==> ow[i] != '/',
        n.len() > 0,
        forall|i: int| 0 <= i < n.len() ==> n[i] != '/',
    ensures
        has_unique_slash(r),
        slash_pos(r) == ow.len(),
        r.take(ow.len() as int) == ow,
        r.skip(ow.len() as int + 1) == n + ".git"@,
        ow.len() as int + 1 < r.len(),
{
    reveal_strlit("/");
    reveal_strlit(".git");
    let k = ow.len() as int;
    assert(r[k] == '/');
    assert forall|j: int| 0 <= j < r.len() && j != k implies r[j] != '/' by {
        if j < k {
            assert(r[j] == ow[j]);
        } else if j < k + 1 + n.len() {
            assert(r[j] == n[j - k - 1]);
        } else {
            assert(r[j] == ".git"@[j - k - 1 - n.len()]);
        }
    }
    assert(is_slash_split(r, k));
    lemma_slash_pos_is(r, k);
    assert(r.take(k) =~= ow);
    assert(r.skip(k + 1) =~= n + ".git"@);
}

/// The formatter's output is a recognized scheme prefix followed by the
/// `<owner>/<name>.git` tail, whatever the inputs.
proof fn lemma_gh_format_structure(o: Seq<char>, ow: Seq<char>, n: Seq<char>)
    ensures
        spec_gh_prefix_len(spec_gh_format(o, ow, n)) >= 0,
        spec_gh_rest(spec_gh_format(o, ow, n)) == ow + "/"@ + n + ".git"@,
{
    reveal_strlit("git@");
    reveal_strlit("ssh://");
    reveal_strlit("git://");
    reveal_strlit("git@github.com:");
    reveal_strlit("ssh://git@github.com/");
    reveal_strlit("git://github.com/");
    reveal_strlit("https://github.com/");
    reveal_strlit("https://www.github.com/");
    let s = spec_gh_format(o, ow, n);
    let ls = spec_lower(s);
    assert(ls.len() == s.len());
    let tail = ow + "/"@ + n + ".git"@;
    if spec_starts_with(o, "git@"@) {
        let p = "git@github.com:"@;
        assert(ls[0] == spec_lower_char(s[0]) && s[0] == p[0]);
        assert(!spec_starts_with(ls, "https://github.com/"@)) by {
            if spec_starts_with(ls, "https://github.com/"@) {
                assert(ls.subrange(0, 19)[0] == ls[0]);
            }
        }
        assert(!spec_starts_with(ls, "https://www.github.com/"@)) by {
            if spec_starts_with(ls, "https://www.github.com/"@) {
                assert(ls.subrange(0, 23)[0] == ls[0]);
            }
        }
        assert(p =~= ls.subrange(0, p.len() as int)) by {
            assert forall|j: int| 0 <= j < p.len() implies ls[j] == p[j] by {
                assert(ls[j] == spec_lower_char(s[j]));
                assert(s[j] == p[j]);
            }
        }
        assert(spec_gh_prefix_len(s) == p.len());
        assert(spec_gh_rest(s) =~= tail);
    } else if spec_starts_with(o, "ssh://"@) {
        let p = "ssh://git@github.com/"@;
        assert(ls[0] == spec_lower_char(s[0]) && s[0] == p[0]);
        assert(!spec_starts_with(ls, "https://github.com/"@)) by {
            if spec_starts_with(ls, "https://github.com/"@) {
                assert(ls.subrange(0, 19)[0] == ls[0]);
            }
        }
        assert(!spec_starts_with(ls, "https://www.github.com/"@)) by {
            if spec_starts_with(ls, "https://www.github.com/"@) {
                assert(ls.subrange(0, 23)[0] == ls[0]);
            }
        }
        assert(!spec_starts_with(ls, "git@github.com:"@)) by {
            if spec_starts_with(ls, "git@github.com:"@) {
                assert(ls.subrange(0, 15)[0] == ls[0]);
            }
        }
        assert(p =~= ls.subrange(0, p.len() as int)) by {
            assert forall|j: int| 0 <= j < p.len() implies ls[j] == p[j] by {
                assert(ls[j] == spec_lower_char(s[j]));
                assert(s[j] == p[j]);
            }
        }
        assert(spec_gh_prefix_len(s) == p.len());
        assert(spec_gh_rest(s) =~= tail);
    } else if spec_starts_with(o, "git://"@) {
        let p = "git://github.com/"@;
        assert(ls[0] == spec_lower_char(s[0]) && s[0] == p[0]);
        assert(ls[3] == spec_lower_char(s[3]) && s[3] == p[3]);
        assert(!spec_starts_with(ls, "https://github.com/"@)) by {
            if spec_starts_with(ls, "https://github.com/"@) {
                assert(ls.subrange(0, 19)[0] == ls[0]);
            }
        }
        assert(!spec_starts_with(ls, "https://www.github.com/"@)) by {
            if spec_starts_with(ls, "https://www.github.com/"@) {
                assert(ls.subrange(0, 23)[0] == ls[0]);
            }
        }
        assert(!spec_starts_with(ls, "git@github.com:"@)) by {
            if spec_starts_with(ls, "git@github.com:"@) {
                assert(ls.subrange(0, 15)[3] == ls[3]);
            }
        }
        assert(p =~= ls.subrange(0, p.len() as int)) by {
            assert forall|j: int| 0 <= j < p.len() implies ls[j] == p[j] by {
                assert(ls[j] == spec_lower_char(s[j]));
                assert(s[j] == p[j]);
            }
        }
        assert(spec_gh_prefix_len(s) == p.len());
        assert(spec_gh_rest(s) =~= tail);
    } else {
        let p = "https://github.com/"@;
        assert(p =~= ls.subrange(0, p.len() as int)) by {
            assert forall|j: int| 0 <= j < p.len() implies ls[j] == p[j] by {
                assert(ls[j] == spec_lower_char(s[j]));
                assert(s[j] == p[j]);
            }
        }
        assert(spec_gh_prefix_len(s) == p.len());
        assert(spec_gh_rest(s) =~= tail);
    }
}

/// Law: the hosted formatter and grammar round-trip. A URL formatted
/// for `owner/name` is detected as a hosted URL and parses back to
/// exactly that owner and name, for every original URL, every owner
/// free of slashes, and every name free of slashes and whitespace.
pub proof fn lemma_gh_format_parses_back(o: Seq<char>, ow: Seq<char>, n: Seq<char>)
    requires
        ow.len() > 0,
        forall|i: int| 0 <= i < ow.len() ==> ow[i] != '/',
        n.len() > 0,
        forall|i: int| 0 <= i < n.len() ==> n[i] != '/',
        forall|i: int| 0 <= i < n.len() ==> !spec_is_space(n[i]),
    ensures
        spec_is_github_url(spec_gh_format(o, ow, n)),
        spec_gh_parseable(spec_gh_format(o, ow, n)),
        spec_gh_owner(spec_gh_format(o, ow, n)) == ow,
        spec_gh_repo(spec_gh_format(o, ow, n)) == n,
{
    reveal_strlit("/");
    reveal_strlit(".git");
    let s = spec_gh_format(o, ow, n);
    let tail = ow + "/"@ + n + ".git"@;
    lemma_gh_format_structure(o, ow, n);
    lemma_rest_split(tail, ow, n);
    let np = tail.skip(ow.len() as int + 1);
    assert(np == n + ".git"@);
    assert(np.subrange(np.len() - 4, np.len() as int) =~= ".git"@);
    assert(spec_ends_with(np, ".git"@));
    assert(spec_gh_name(np) =~= n);
    assert forall|j: int| 0 <= j < np.len() implies !spec_is_space(np[j]) by {
        if j < n.len() {
            assert(np[j] == n[j]);
        } else {
            assert(np[j] == ".git"@[j - n.len()]);
        }
    }
    assert(spec_gh_owner(s) =~= ow);
}

/// A string whose first character folds to none of `h`, `g` and `s`
/// matches no hosted scheme.
pub proof fn lemma_not_github_by_first_char(s: Seq<char>)
    requires
        s.len() == 0 || (spec_lower_char(s[0]) != 'h' && spec_lower_char(s[0]) != 'g'
            && spec_lower_char(s[0]) != 's'),
    ensures
        !spec_is_github_url(s),
        spec_gh_prefix_len(s) == -1,
{
    reveal_strlit("git@github.com:");
    reveal_strlit("ssh://git@github.com/");
    reveal_strlit("git://github.com/");
    reveal_strlit("https://github.com/");
    reveal_strlit("https://www.github.com/");
    let ls = spec_lower(s);
    assert(ls.len() == s.len());
    if s.len() > 0 {
        assert(ls[0] == spec_lower_char(s[0]));
    }
    assert(!spec_starts_with(ls, "https://github.com/"@)) by {
        if spec_starts_with(ls, "https://github.com/"@) {
            assert(ls.subrange(0, 19)[0] == ls[0]);
        }
    }
    assert(!spec_starts_with(ls, "https://www.github.com/"@)) by {
        if spec_starts_with(ls, "https://www.github.com/"@) {
            assert(ls.subrange(0, 23)[0] == ls[0]);
        }
    }
    assert(!spec_starts_with(ls, "git@github.com:"@)) by {
        if spec_starts_with(ls, "git@github.com:"@) {
            assert(ls.subrange(0, 15)[0] == ls[0]);
        }
    }
    assert(!spec_starts_with(ls, "ssh://git@github.com/"@)) by {
        if spec_starts_with(ls, "ssh://git@github.com/"@) {
            assert(ls.subrange(0, 21)[0] == ls[0]);
        }
    }
    assert(!spec_starts_with(ls, "git://github.com/"@)) by {
        if spec_starts_with(ls, "git://github.com/"@) {
            assert(ls.subrange(0, 17)[0] == ls[0]);
        }
    }
}

} // verus!
