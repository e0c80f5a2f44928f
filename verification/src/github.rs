//! Repository metadata from the hosted service, and the translation of
//! its HTTP outcomes into the crate's errors.
//!
//! The caller performs the HTTP exchange and hands in the status code
//! together with the decoded body, if the body decoded; the functions
//! here decide what the outcome means.

use vstd::prelude::*;
use crate::types::Error;

verus! {

/// Repository metadata as the hosted service reports it.
#[derive(Debug)]
pub struct GitHubRepo {
    pub name: String,
    pub full_name: String,
    pub clone_url: String,
}

/// The ghost image of a [`GitHubRepo`].
pub ghost struct GitHubRepoView {
    pub name: Seq<char>,
    pub full_name: Seq<char>,
    pub clone_url: Seq<char>,
}

impl View for GitHubRepo {
    type V = GitHubRepoView;

    open spec fn view(&self) -> GitHubRepoView {
        GitHubRepoView { name: self.name@, full_name: self.full_name@, clone_url: self.clone_url@ }
    }
}

/// Decides what a metadata read returned. `404` is reported as
/// [`Error::NotFound`] (the service does not distinguish a missing
/// repository from a private one); any other status outside `2xx`
/// carries its raw status; a success status without a decodable body is
/// [`Error::InvalidResponse`].
pub fn interpret_get_repo_response(status: u16, body: Option<GitHubRepo>) -> (r: Result<
    GitHubRepo,
    Error,
>)
    ensures
        match r {
            Ok(info) => 200 <= status < 300 && (body matches Some(b) && info == b),
            Err(e) => match e {
                Error::NotFound => status == 404,
                Error::GitHubApi(s) => s == status && !(200 <= status < 300) && status != 404,
                Error::InvalidResponse => 200 <= status < 300 && body is None,
                _ => false,
            },
        },
{
    if status == 404 {
        Err(Error::NotFound)
    } else if !(200 <= status && status < 300) {
        Err(Error::GitHubApi(status))
    } else {
        match body {
            Some(b) => Ok(b),
            None => Err(Error::InvalidResponse),
        }
    }
}

/// Decides what a rename request returned. `403` means the token lacks
/// the administration capability; `422` means the requested name was
/// rejected; `200`/`201` carry the updated metadata; anything else
/// carries its status.
pub fn interpret_update_repo_response(status: u16, new_name: &str, body: Option<GitHubRepo>) -> (r:
    Result<GitHubRepo, Error>)
    ensures
        match r {
            Ok(info) => (status == 200 || status == 201) && (body matches Some(b) && info == b),
            Err(e) => match e {
                Error::InvalidResponse => (status == 200 || status == 201) && body is None,
                Error::PermissionDenied => status == 403,
                Error::NameConflict(n) => status == 422 && n@ == new_name@,
                Error::GitHubApi(s) => s == status && status != 200 && status != 201 && status
                    != 403 && status != 422,
                _ => false,
            },
        },
{
    if status == 200 || status == 201 {
        match body {
            Some(b) => Ok(b),
            None => Err(Error::InvalidResponse),
        }
    } else if status == 403 {
        Err(Error::PermissionDenied)
    } else if status == 422 {
        Err(Error::NameConflict(String::from_str(new_name)))
    } else {
        Err(Error::GitHubApi(status))
    }
}

} // verus!
