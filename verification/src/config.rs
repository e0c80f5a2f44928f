//! In-memory configuration: the GitHub token, the remote selected for
//! this invocation, and the default remote name.
//!
//! Persistence (the on-disk configuration file) is owned by the caller;
//! this type only holds and hands out the values.

use vstd::prelude::*;
use crate::types::Error;

verus! {

/// The configuration a reconciliation runs under.
pub struct Config {
    github_token: Option<String>,
    remote: Option<String>,
    default_remote: String,
}

impl Config {
    /// The stored GitHub token, if any.
    pub closed spec fn spec_github_token(&self) -> Option<Seq<char>> {
        match self.github_token {
            Some(t) => Some(t@),
            None => None,
        }
    }

    /// The remote selected for this invocation, if any.
    pub closed spec fn spec_remote(&self) -> Option<Seq<char>> {
        match self.remote {
            Some(r) => Some(r@),
            None => None,
        }
    }

    /// The configured default remote name.
    pub closed spec fn spec_default_remote(&self) -> Seq<char> {
        self.default_remote@
    }

    /// The remote name in use: the selected one, else the default.
    pub open spec fn spec_remote_in_use(&self) -> Seq<char> {
        match self.spec_remote() {
            Some(r) => r,
            None => self.spec_default_remote(),
        }
    }

    /// A fresh configuration: no token, no selected remote, default
    /// remote `origin`.
    pub fn new() -> (c: Config)
        ensures
            c.spec_github_token() is None,
            c.spec_remote() is None,
            c.spec_default_remote() == "origin"@,
    {
        Config { github_token: None, remote: None, default_remote: String::from_str("origin") }
    }

    /// Rebuilds a configuration from loaded values, as read from the
    /// persisted file by the caller.
    pub fn from_values(github_token: Option<String>, default_remote: String) -> (c: Config)
        ensures
            c.spec_github_token() == (match github_token {
                Some(t) => Some(t@),
                None => None::<Seq<char>>,
            }),
            c.spec_remote() is None,
            c.spec_default_remote() == default_remote@,
    {
        Config { github_token, remote: None, default_remote }
    }

    /// The GitHub token; absent tokens are reported as a configuration
    /// error, exactly when none is stored.
    pub fn get_github_token(&self) -> (r: Result<String, Error>)
        ensures
            match r {
                Ok(t) => self.spec_github_token() == Some(t@),
                Err(e) => self.spec_github_token() is None && (e matches Error::Config(m) && m@
                    == "No GitHub token found in configuration"@),
            },
    {
        match &self.github_token {
            Some(t) => Ok(t.clone()),
            None => Err(
                Error::Config(String::from_str("No GitHub token found in configuration")),
            ),
        }
    }

    /// Stores a GitHub token.
    pub fn set_github_token(&mut self, token: &str)
        ensures
            final(self).spec_github_token() == Some(token@),
            final(self).spec_remote() == old(self).spec_remote(),
            final(self).spec_default_remote() == old(self).spec_default_remote(),
    {
        self.github_token = Some(String::from_str(token));
    }

    /// The remote name to act on: the selected remote when one was set,
    /// the default otherwise. Never fails.
    pub fn get_remote(&self) -> (r: Result<String, Error>)
        ensures
            r matches Ok(name) && name@ == self.spec_remote_in_use(),
    {
        match &self.remote {
            Some(r) => Ok(r.clone()),
            None => Ok(self.default_remote.clone()),
        }
    }

    /// Selects the remote for this invocation.
    pub fn set_remote(&mut self, remote: String)
        ensures
            final(self).spec_remote() == Some(remote@),
            final(self).spec_github_token() == old(self).spec_github_token(),
            final(self).spec_default_remote() == old(self).spec_default_remote(),
    {
        self.remote = Some(remote);
    }

    /// The configured default remote name. Never fails.
    pub fn get_default_remote(&self) -> (r: Result<String, Error>)
        ensures
            r matches Ok(name) && name@ == self.spec_default_remote(),
    {
        Ok(self.default_remote.clone())
    }

    /// Sets the default remote name.
    pub fn set_default_remote(&mut self, remote: &str)
        ensures
            final(self).spec_default_remote() == remote@,
            final(self).spec_github_token() == old(self).spec_github_token(),
            final(self).spec_remote() == old(self).spec_remote(),
    {
        self.default_remote = String::from_str(remote);
    }
}

} // verus!
