//! The crate's error type.
//!
//! Variants carry structured fields (a path, a status code, a rejected
//! name); human-readable text is produced by [`Error::message`] at the
//! presentation boundary.

use vstd::prelude::*;

verus! {

/// Everything that can go wrong during a reconciliation.
#[derive(Debug)]
pub enum Error {
    /// The working directory is not inside a git repository.
    NotAGitRepo,
    /// No remote with the given name is configured.
    NoRemote(String),
    /// The remote URL failed the GitHub owner/name-capturing grammar.
    InvalidGitHubUrl(String),
    /// Configuration could not be read or written; carries detail text.
    Config(String),
    /// A filesystem operation failed; carries the underlying OS error text.
    Fs(String),
    /// A repository name could not be derived; carries detail text.
    Other(String),
    /// The hosted service reported "not found" — ambiguous between a
    /// renamed/deleted repository and a private one without credentials.
    NotFound,
    /// The hosted service rejected the request for lack of the
    /// administration capability.
    PermissionDenied,
    /// The hosted service rejected the target name as taken or invalid;
    /// carries the rejected name.
    NameConflict(String),
    /// Any other non-success status from the hosted service; carries the
    /// raw status code.
    GitHubApi(u16),
    /// The hosted service answered with a body that could not be decoded.
    InvalidResponse,
}

/// The character for one decimal digit.
pub open spec fn spec_digit(d: int) -> char {
    if d == 0 {
        '0'
    } else if d == 1 {
        '1'
    } else if d == 2 {
        '2'
    } else if d == 3 {
        '3'
    } else if d == 4 {
        '4'
    } else if d == 5 {
        '5'
    } else if d == 6 {
        '6'
    } else if d == 7 {
        '7'
    } else if d == 8 {
        '8'
    } else {
        '9'
    }
}

/// The decimal representation of a non-negative number.
pub open spec fn spec_decimal(n: int) -> Seq<char>
    decreases n,
{
    if n < 10 {
        seq![spec_digit(n)]
    } else {
        spec_decimal(n / 10) + seq![spec_digit(n % 10)]
    }
}

/// One decimal digit as a string slice.
fn digit_str(d: u16) -> (r: &'static str)
    requires
        d < 10,
    ensures
        r@ == seq![spec_digit(d as int)],
{
    proof {
        reveal_strlit("0");
        reveal_strlit("1");
        reveal_strlit("2");
        reveal_strlit("3");
        reveal_strlit("4");
        reveal_strlit("5");
        reveal_strlit("6");
        reveal_strlit("7");
        reveal_strlit("8");
        reveal_strlit("9");
    }
    let r = if d == 0 {
        "0"
    } else if d == 1 {
        "1"
    } else if d == 2 {
        "2"
    } else if d == 3 {
        "3"
    } else if d == 4 {
        "4"
    } else if d == 5 {
        "5"
    } else if d == 6 {
        "6"
    } else if d == 7 {
        "7"
    } else if d == 8 {
        "8"
    } else {
        "9"
    };
    proof {
        assert(r@ =~= seq![spec_digit(d as int)]);
    }
    r
}

/// A status code in decimal.
pub fn u16_decimal(n: u16) -> (s: String)
    ensures
        s@ == spec_decimal(n as int),
    decreases n,
{
    if n < 10 {
        String::from_str(digit_str(n))
    } else {
        let head = u16_decimal(n / 10);
        head.concat(digit_str(n % 10))
    }
}

/// The presentation text of an error.
pub open spec fn spec_message(e: &Error) -> Seq<char> {
    match e {
        Error::NotAGitRepo => "Error: not a git repository"@,
        Error::NoRemote(r) => "Error: no remote named '"@ + r@ + "' configured"@,
        Error::InvalidGitHubUrl(u) => "Invalid GitHub URL format: "@ + u@,
        Error::Config(m) => "Error: "@ + m@,
        Error::Fs(m) => "Filesystem error: "@ + m@,
        Error::Other(m) => "Error: "@ + m@,
        Error::NotFound => "GitHub API error: Repository not found. If this is a private repository, please configure a GitHub token with 'git-repo-name config github-token YOUR_TOKEN'"@,
        Error::PermissionDenied => "GitHub API error: Permission denied. Ensure your GitHub token has the 'Administration' repository permission (write)."@,
        Error::NameConflict(n) => "GitHub API error: Cannot rename repository to '"@ + n@
            + "'. The name may be taken or invalid."@,
        Error::GitHubApi(status) => "GitHub API error: Failed to update repository name: "@
            + spec_decimal(*status as int),
        Error::InvalidResponse => "GitHub API error: could not decode the response body"@,
    }
}

impl Error {
    /// Human-readable text for this error, as shown to the operator.
    pub fn message(&self) -> (s: String)
        ensures
            s@ == spec_message(self),
    {
        match self {
            Error::NotAGitRepo => String::from_str("Error: not a git repository"),
            Error::NoRemote(r) => String::from_str("Error: no remote named '").concat(
                r.as_str(),
            ).concat("' configured"),
            Error::InvalidGitHubUrl(u) => String::from_str("Invalid GitHub URL format: ").concat(
                u.as_str(),
            ),
            Error::Config(m) => String::from_str("Error: ").concat(m.as_str()),
            Error::Fs(m) => String::from_str("Filesystem error: ").concat(m.as_str()),
            Error::Other(m) => String::from_str("Error: ").concat(m.as_str()),
            Error::NotFound => String::from_str(
                "GitHub API error: Repository not found. If this is a private repository, please configure a GitHub token with 'git-repo-name config github-token YOUR_TOKEN'",
            ),
            Error::PermissionDenied => String::from_str(
                "GitHub API error: Permission denied. Ensure your GitHub token has the 'Administration' repository permission (write).",
            ),
            Error::NameConflict(n) => String::from_str(
                "GitHub API error: Cannot rename repository to '",
            ).concat(n.as_str()).concat("'. The name may be taken or invalid."),
            Error::GitHubApi(status) => String::from_str(
                "GitHub API error: Failed to update repository name: ",
            ).concat(u16_decimal(*status).as_str()),
            Error::InvalidResponse => String::from_str(
                "GitHub API error: could not decode the response body",
            ),
        }
    }
}

} // verus!
