//! GitHub: repository links, card branches, smart commits, and the webhook
//! receiver's pure half.

pub mod branch;
pub mod client;
pub mod poll;
pub mod smart_commit;
pub mod store;
pub mod validator;
pub mod webhook;

use vstd::prelude::*;

verus! {

/// A repository, as `owner/repo`.
#[derive(Debug, Clone, PartialEq, Eq)]
pub struct RepoRef {
    /// The owning user or organisation.
    pub owner: String,
    /// The repository's name.
    pub repo: String,
}

impl RepoRef {
    /// A repository reference from its two halves.
    pub fn new(owner: String, repo: String) -> (r: Self)
        ensures
            r.owner@ == owner@,
            r.repo@ == repo@,
    {
        RepoRef { owner, repo }
    }

    /// The reference as `owner/repo`.
    pub fn to_string(&self) -> (s: String)
        ensures
            s@ == self.owner@ + "/"@ + self.repo@,
    {
        let mut s = self.owner.clone();
        s.append("/");
        s.append(self.repo.as_str());
        s
    }
}

} // verus!
