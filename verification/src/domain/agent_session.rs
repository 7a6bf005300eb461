//! Agent sessions: the lifecycle of one run of a coding agent against a card.

use vstd::prelude::*;

use crate::error::{AppError, AppResult};
use crate::text::{copy_str, str_eq};

verus! {

/// Where an agent session stands.
#[derive(Debug, Clone, Copy, PartialEq, Eq, Structural)]
pub enum AgentSessionStatus {
    /// Still running: no outcome yet.
    Running,
    /// Finished cleanly.
    Completed,
    /// Finished cleanly, but at least one tool call was silently denied.
    CompletedWithDenials,
    /// Hit a turn or budget limit rather than failing outright.
    LimitReached,
    /// Failed.
    Failed,
    /// Ended early by Atlas, not by the agent.
    Cancelled,
}

/// The database and JSON spelling of each status.
pub open spec fn session_status_name(s: AgentSessionStatus) -> Seq<char> {
    match s {
        AgentSessionStatus::Running => "running"@,
        AgentSessionStatus::Completed => "completed"@,
        AgentSessionStatus::CompletedWithDenials => "completed_with_denials"@,
        AgentSessionStatus::LimitReached => "limit_reached"@,
        AgentSessionStatus::Failed => "failed"@,
        AgentSessionStatus::Cancelled => "cancelled"@,
    }
}

/// The status a spelling names, if any.
pub open spec fn session_status_named(s: Seq<char>) -> Option<AgentSessionStatus> {
    if s == "running"@ {
        Some(AgentSessionStatus::Running)
    } else if s == "completed"@ {
        Some(AgentSessionStatus::Completed)
    } else if s == "completed_with_denials"@ {
        Some(AgentSessionStatus::CompletedWithDenials)
    } else if s == "limit_reached"@ {
        Some(AgentSessionStatus::LimitReached)
    } else if s == "failed"@ {
        Some(AgentSessionStatus::Failed)
    } else if s == "cancelled"@ {
        Some(AgentSessionStatus::Cancelled)
    } else {
        None
    }
}

/// Why an agent session status could not be read: the text that was offered.
#[derive(Debug)]
pub struct AgentSessionStatusError(pub String);

impl AgentSessionStatus {
    /// The status's database and JSON spelling.
    pub fn as_str(self) -> (s: &'static str)
        ensures
            s@ == session_status_name(self),
    {
        match self {
            AgentSessionStatus::Running => "running",
            AgentSessionStatus::Completed => "completed",
            AgentSessionStatus::CompletedWithDenials => "completed_with_denials",
            AgentSessionStatus::LimitReached => "limit_reached",
            AgentSessionStatus::Failed => "failed",
            AgentSessionStatus::Cancelled => "cancelled",
        }
    }

    /// Whether a session in this status is still live.
    pub fn is_running(self) -> (b: bool)
        ensures
            b == (self == AgentSessionStatus::Running),
    {
        self == AgentSessionStatus::Running
    }

    /// Reads a status from its spelling, refusing anything else.
    pub fn parse(s: &str) -> (res: Result<Self, AgentSessionStatusError>)
        ensures
            match session_status_named(s@) {
                Some(c) => res == Ok::<Self, AgentSessionStatusError>(c),
                None => res matches Err(AgentSessionStatusError(t)) && t@ == s@,
            },
    {
        if str_eq(s, "running") {
            Ok(AgentSessionStatus::Running)
        } else if str_eq(s, "completed") {
            Ok(AgentSessionStatus::Completed)
        } else if str_eq(s, "completed_with_denials") {
            Ok(AgentSessionStatus::CompletedWithDenials)
        } else if str_eq(s, "limit_reached") {
            Ok(AgentSessionStatus::LimitReached)
        } else if str_eq(s, "failed") {
            Ok(AgentSessionStatus::Failed)
        } else if str_eq(s, "cancelled") {
            Ok(AgentSessionStatus::Cancelled)
        } else {
            Err(AgentSessionStatusError(copy_str(s)))
        }
    }
}

/// Every status reads back from its own spelling.
pub proof fn lemma_session_status_round_trip(c: AgentSessionStatus)
    ensures
        session_status_named(session_status_name(c)) == Some(c),
{
    reveal_strlit("running");
    reveal_strlit("completed");
    reveal_strlit("completed_with_denials");
    reveal_strlit("limit_reached");
    reveal_strlit("failed");
    reveal_strlit("cancelled");
    assert("running"@.len() == 7 && "completed"@.len() == 9 && "completed_with_denials"@.len() == 22);
    assert("limit_reached"@.len() == 13 && "failed"@.len() == 6 && "cancelled"@.len() == 9);
    assert("completed"@[1] != "cancelled"@[1]);
}

impl std::str::FromStr for AgentSessionStatus {
    type Err = AgentSessionStatusError;

    fn from_str(s: &str) -> (res: Result<Self, Self::Err>)
        ensures
            match session_status_named(s@) {
                Some(c) => res == Ok::<Self, AgentSessionStatusError>(c),
                None => res matches Err(AgentSessionStatusError(t)) && t@ == s@,
            },
    {
        Self::parse(s)
    }
}

/// A new session, ready to insert. Always starts `running`.
#[derive(Debug)]
pub struct NewAgentSession<'a> {
    /// The card the agent works on.
    pub card_id: &'a str,
    /// The agent's own session id, generated up front.
    pub claude_session_id: &'a str,
    /// What was actually sent.
    pub prompt: &'a str,
    /// Who started it.
    pub started_by: Option<&'a str>,
}

/// Whether a session may be finished: only a running one. A session that
/// already finished keeps the outcome it finished with; a second finish is a
/// `Conflict` naming that outcome.
pub fn check_finish(status: AgentSessionStatus) -> (res: AppResult<()>)
    ensures
        status == AgentSessionStatus::Running <==> res is Ok,
        status != AgentSessionStatus::Running ==> (res matches Err(AppError::Conflict(m)) && m@
            == "this session already finished as "@ + session_status_name(status)),
{
    if status.is_running() {
        return Ok(());
    }
    let mut m = "this session already finished as ".to_owned();
    m.append(status.as_str());
    Err(AppError::Conflict(m))
}

} // verus!
