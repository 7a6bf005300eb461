//! The credential validator for GitHub tokens: it probes `GET /user` on the
//! REST base it was built for. The probe is made outside this library; what
//! its answer means is [`super::client::interpret_user_response`].

use vstd::prelude::*;

use super::client::GITHUB_API_BASE;

verus! {

/// Validates a GitHub token by probing `GET /user`. It holds an optional
/// base-URL override, so the probe target is never a literal at the call
/// site; production leaves it `None` and probes `api.github.com`.
#[derive(Debug, Default)]
pub struct GithubValidator {
    base_url: Option<String>,
}

impl GithubValidator {
    /// The base-URL override, if any.
    pub closed spec fn base_override(&self) -> Option<Seq<char>> {
        match self.base_url {
            Some(b) => Some(b@),
            None => None,
        }
    }

    /// The production validator, probing `api.github.com`.
    pub fn new() -> (v: Self)
        ensures
            v.base_override() is None,
    {
        GithubValidator { base_url: None }
    }

    /// The REST base the probe goes to: the override, or GitHub's own.
    pub fn probe_base(&self) -> (base: &str)
        ensures
            base@ == (match self.base_override() {
                Some(b) => b,
                None => GITHUB_API_BASE@,
            }),
    {
        match &self.base_url {
            Some(b) => b.as_str(),
            None => GITHUB_API_BASE,
        }
    }
}

} // verus!
