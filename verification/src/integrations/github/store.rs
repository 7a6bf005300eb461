//! The GitHub integration's rows: the one repository a project is linked to,
//! the branches, pull requests and commits a card accumulates, and the time
//! logged against a card. Timestamps are the text they are stored as.

use vstd::prelude::*;

use super::RepoRef;
use crate::error::{AppError, AppResult};

verus! {

/// A row of `project_repos`: the one repository a project is linked to.
#[derive(Debug, Clone)]
pub struct ProjectRepo {
    /// The link's id.
    pub id: String,
    /// The project this repo is linked to; one repo per project.
    pub project_id: String,
    /// The credential whose token Atlas acts with; `None` once that
    /// credential was deleted.
    pub credential_id: Option<String>,
    /// The repository owner (user or organisation login).
    pub owner: String,
    /// The repository name.
    pub repo: String,
    /// GitHub's immutable numeric id, which survives a rename.
    pub repo_id: i64,
    /// The branch new branches fork from.
    pub default_branch: String,
    /// The prefix of generated branch names.
    pub branch_prefix: String,
    /// The id of the webhook installed on the repo, once there is one.
    pub webhook_id: Option<i64>,
    /// When the link was created.
    pub created_at: String,
    /// When it last changed.
    pub updated_at: String,
}

impl ProjectRepo {
    /// Addresses this repo as `owner/repo`.
    pub fn repo_ref(&self) -> (r: RepoRef)
        ensures
            r.owner@ == self.owner@,
            r.repo@ == self.repo@,
    {
        RepoRef::new(self.owner.clone(), self.repo.clone())
    }
}

/// The fields needed to link (or relink) a repo to a project.
#[derive(Debug)]
pub struct NewProjectRepo<'a> {
    /// The project being linked.
    pub project_id: &'a str,
    /// The credential whose token drives the link.
    pub credential_id: Option<&'a str>,
    /// The repository owner.
    pub owner: &'a str,
    /// The repository name.
    pub repo: &'a str,
    /// GitHub's immutable numeric id for the repo.
    pub repo_id: i64,
    /// The repo's default branch.
    pub default_branch: &'a str,
    /// The generated-branch prefix.
    pub branch_prefix: &'a str,
}

/// A row of `card_git_links`: one branch, pull request or commit of a card.
#[derive(Debug, Clone)]
pub struct CardGitLink {
    /// The link's id.
    pub id: String,
    /// The card this git object belongs to.
    pub card_id: String,
    /// `branch`, `pr` or `commit`.
    pub kind: String,
    /// The branch name, pull request number or commit SHA.
    pub git_ref: String,
    /// The browser URL, if known.
    pub url: Option<String>,
    /// A kind-specific state (a pull request's open, merged or closed).
    pub state: Option<String>,
    /// Extra JSON metadata.
    pub meta: Option<String>,
    /// When the link was first recorded.
    pub created_at: String,
    /// When it last changed.
    pub updated_at: String,
}

/// The fields needed to record (or refresh) a git link on a card.
#[derive(Debug)]
pub struct NewCardGitLink<'a> {
    /// The card the link belongs to.
    pub card_id: &'a str,
    /// `branch`, `pr` or `commit`.
    pub kind: &'a str,
    /// The branch name, pull request number or commit SHA.
    pub git_ref: &'a str,
    /// The browser URL, if known.
    pub url: Option<&'a str>,
    /// A kind-specific state, if known.
    pub state: Option<&'a str>,
    /// Extra JSON metadata, if any.
    pub meta: Option<&'a str>,
}

/// The fields needed to record time worked on a card.
#[derive(Debug)]
pub struct NewWorklog<'a> {
    /// The card the time is logged against.
    pub card_id: &'a str,
    /// Who did the work, if known.
    pub author_id: Option<&'a str>,
    /// Minutes worked; only a positive number is a worklog.
    pub minutes: i64,
    /// A note, such as the words after a `#time 2h` directive.
    pub note: Option<&'a str>,
    /// Where the log came from, such as `smart-commit`.
    pub source: &'a str,
}

impl<'a> NewWorklog<'a> {
    /// Refuses a worklog of no time or negative time before it reaches the
    /// table, so the caller learns why rather than meeting the column's check.
    pub fn check(&self) -> (res: AppResult<()>)
        ensures
            self.minutes > 0 <==> res is Ok,
            self.minutes <= 0 ==> (res matches Err(AppError::Validation(m)) && m@
                == "a worklog must be a positive number of minutes"@),
    {
        if self.minutes <= 0 {
            return Err(AppError::Validation("a worklog must be a positive number of minutes".to_owned()));
        }
        Ok(())
    }
}

} // verus!
