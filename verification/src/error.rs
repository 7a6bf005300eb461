//! The error taxonomy, and its RFC 7807 problem-document rendering.
//!
//! One rule dominates this module: an internal error is reported opaquely. The
//! cause an `Internal` carries is for the operator's log, never for the client.

use vstd::prelude::*;

use crate::rank::RankError;

verus! {

/// Shorthand for a fallible result.
pub type AppResult<T> = Result<T, AppError>;

/// Every way an Atlas request can fail.
#[derive(Debug)]
pub enum AppError {
    /// The request was well-formed but semantically invalid. 422.
    Validation(String),
    /// The addressed resource does not exist. 404.
    NotFound,
    /// The request conflicts with current state (stale rank, duplicate key). 409.
    Conflict(String),
    /// No credentials, or bad credentials. 401.
    Unauthorized,
    /// Authenticated, but not allowed. 403.
    Forbidden,
    /// The request itself is malformed. 400.
    BadRequest(String),
    /// Anything unexpected. Its cause is logged, and reported opaquely. 500.
    Internal(String),
}

/// Whether `res` is exactly what a validation rule decided: the accepted text,
/// or a `Validation` error carrying the rule's message.
pub open spec fn validated(res: AppResult<String>, rule: Result<Seq<char>, Seq<char>>) -> bool {
    match rule {
        Ok(t) => res matches Ok(v) && v@ == t,
        Err(m) => res matches Err(AppError::Validation(e)) && e@ == m,
    }
}

/// The HTTP status of each error.
pub open spec fn status_of(e: AppError) -> u16 {
    match e {
        AppError::Validation(_) => 422,
        AppError::NotFound => 404,
        AppError::Conflict(_) => 409,
        AppError::Unauthorized => 401,
        AppError::Forbidden => 403,
        AppError::BadRequest(_) => 400,
        AppError::Internal(_) => 500,
    }
}

/// The problem `type` URN of each error.
pub open spec fn urn_of(e: AppError) -> Seq<char> {
    match e {
        AppError::Validation(_) => "urn:atlas:error:validation"@,
        AppError::NotFound => "urn:atlas:error:not-found"@,
        AppError::Conflict(_) => "urn:atlas:error:conflict"@,
        AppError::Unauthorized => "urn:atlas:error:unauthorized"@,
        AppError::Forbidden => "urn:atlas:error:forbidden"@,
        AppError::BadRequest(_) => "urn:atlas:error:bad-request"@,
        AppError::Internal(_) => "urn:atlas:error:internal"@,
    }
}

/// The problem `title` of each error.
pub open spec fn title_of(e: AppError) -> Seq<char> {
    match e {
        AppError::Validation(_) => "Validation Failed"@,
        AppError::NotFound => "Not Found"@,
        AppError::Conflict(_) => "Conflict"@,
        AppError::Unauthorized => "Unauthorized"@,
        AppError::Forbidden => "Forbidden"@,
        AppError::BadRequest(_) => "Bad Request"@,
        AppError::Internal(_) => "Internal Server Error"@,
    }
}

/// The client-safe `detail` of each error. An `Internal` never shows its cause.
pub open spec fn detail_of(e: AppError) -> Seq<char> {
    match e {
        AppError::Validation(m) => m@,
        AppError::Conflict(m) => m@,
        AppError::BadRequest(m) => m@,
        AppError::NotFound => "The requested resource does not exist."@,
        AppError::Unauthorized => "Authentication is required to access this resource."@,
        AppError::Forbidden => "You do not have permission to perform this action."@,
        AppError::Internal(_) => "An unexpected internal error occurred. The incident has been logged."@,
    }
}

/// An internal error never leaks its cause: the problem document of an
/// internal error is the same whatever the cause, and a client-facing error
/// carries its message as its detail.
pub proof fn lemma_internal_errors_are_opaque(a: String, b: String, m: String)
    ensures
        detail_of(AppError::Internal(a)) == detail_of(AppError::Internal(b)),
        urn_of(AppError::Internal(a)) == urn_of(AppError::Internal(b)),
        title_of(AppError::Internal(a)) == title_of(AppError::Internal(b)),
        detail_of(AppError::Validation(m)) == m@,
        detail_of(AppError::Conflict(m)) == m@,
        detail_of(AppError::BadRequest(m)) == m@,
{
}

/// The error's `Display` text: the client-facing prefix and payload.
pub open spec fn display_of(e: AppError) -> Seq<char> {
    match e {
        AppError::Validation(m) => "validation failed: "@ + m@,
        AppError::NotFound => "not found"@,
        AppError::Conflict(m) => "conflict: "@ + m@,
        AppError::Unauthorized => "unauthorized"@,
        AppError::Forbidden => "forbidden"@,
        AppError::BadRequest(m) => "bad request: "@ + m@,
        AppError::Internal(m) => m@,
    }
}

impl AppError {
    /// Builds an [`AppError::Internal`] carrying `cause` for the log.
    pub fn internal(cause: &str) -> (e: Self)
        ensures
            e matches AppError::Internal(m) && m@ == cause@,
    {
        AppError::Internal(cause.to_owned())
    }

    /// The HTTP status this error maps to.
    pub fn status(&self) -> (code: u16)
        ensures
            code == status_of(*self),
    {
        match self {
            AppError::Validation(_) => 422,
            AppError::NotFound => 404,
            AppError::Conflict(_) => 409,
            AppError::Unauthorized => 401,
            AppError::Forbidden => 403,
            AppError::BadRequest(_) => 400,
            AppError::Internal(_) => 500,
        }
    }

    /// The stable machine-readable error identifier, used as the problem `type`.
    pub fn type_urn(&self) -> (urn: &'static str)
        ensures
            urn@ == urn_of(*self),
    {
        match self {
            AppError::Validation(_) => "urn:atlas:error:validation",
            AppError::NotFound => "urn:atlas:error:not-found",
            AppError::Conflict(_) => "urn:atlas:error:conflict",
            AppError::Unauthorized => "urn:atlas:error:unauthorized",
            AppError::Forbidden => "urn:atlas:error:forbidden",
            AppError::BadRequest(_) => "urn:atlas:error:bad-request",
            AppError::Internal(_) => "urn:atlas:error:internal",
        }
    }

    /// Short, human-readable summary. Stable for a given `type`.
    pub fn title(&self) -> (title: &'static str)
        ensures
            title@ == title_of(*self),
    {
        match self {
            AppError::Validation(_) => "Validation Failed",
            AppError::NotFound => "Not Found",
            AppError::Conflict(_) => "Conflict",
            AppError::Unauthorized => "Unauthorized",
            AppError::Forbidden => "Forbidden",
            AppError::BadRequest(_) => "Bad Request",
            AppError::Internal(_) => "Internal Server Error",
        }
    }

    /// Client-safe explanation. `Internal` deliberately discards its cause.
    pub fn detail(&self) -> (detail: String)
        ensures
            detail@ == detail_of(*self),
    {
        match self {
            AppError::Validation(m) => m.clone(),
            AppError::Conflict(m) => m.clone(),
            AppError::BadRequest(m) => m.clone(),
            AppError::NotFound => "The requested resource does not exist.".to_owned(),
            AppError::Unauthorized => "Authentication is required to access this resource.".to_owned(),
            AppError::Forbidden => "You do not have permission to perform this action.".to_owned(),
            AppError::Internal(_) => "An unexpected internal error occurred. The incident has been logged.".to_owned(),
        }
    }

    /// The error as text, as an operator's log line shows it.
    pub fn to_string(&self) -> (text: String)
        ensures
            text@ == display_of(*self),
    {
        match self {
            AppError::Validation(m) => {
                let mut s = "validation failed: ".to_owned();
                s.append(m.as_str());
                s
            },
            AppError::NotFound => "not found".to_owned(),
            AppError::Conflict(m) => {
                let mut s = "conflict: ".to_owned();
                s.append(m.as_str());
                s
            },
            AppError::Unauthorized => "unauthorized".to_owned(),
            AppError::Forbidden => "forbidden".to_owned(),
            AppError::BadRequest(m) => {
                let mut s = "bad request: ".to_owned();
                s.append(m.as_str());
                s
            },
            AppError::Internal(m) => m.clone(),
        }
    }

    /// Renders this error as an RFC 7807 problem document, with no `instance`
    /// yet: only the layer that sees the request path can fill that in.
    pub fn problem(&self) -> (p: Problem)
        ensures
            p.problem_type@ == urn_of(*self),
            p.title@ == title_of(*self),
            p.status == status_of(*self),
            p.detail@ == detail_of(*self),
            p.instance is None,
    {
        Problem {
            problem_type: self.type_urn().to_owned(),
            title: self.title().to_owned(),
            status: self.status(),
            detail: self.detail(),
            instance: None,
        }
    }

    /// The error a failed rank computation becomes: a stale neighbour pair is the
    /// client's to retry (409), a corrupt stored rank is ours (500).
    pub fn from_rank_error(err: RankError) -> (e: Self)
        ensures
            match err {
                RankError::OutOfOrder { before, after } => e matches AppError::Conflict(m)
                    && m@ == crate::rank::out_of_order_message(before@, after@),
                RankError::Decode(d) => e matches AppError::Internal(m)
                    && m@ == "invalid rank encoding: "@ + d@,
            },
    {
        let text = err.to_string();
        match err {
            RankError::OutOfOrder { .. } => AppError::Conflict(text),
            RankError::Decode(_) => AppError::Internal(text),
        }
    }
}

impl From<RankError> for AppError {
    fn from(err: RankError) -> (e: Self)
        ensures
            match err {
                RankError::OutOfOrder { before, after } => e matches AppError::Conflict(m)
                    && m@ == crate::rank::out_of_order_message(before@, after@),
                RankError::Decode(d) => e matches AppError::Internal(m)
                    && m@ == "invalid rank encoding: "@ + d@,
            },
    {
        AppError::from_rank_error(err)
    }
}

/// The conversion's contract is the `ensures` of `from` above: the message of a
/// conflict is text built at run time, which no spec-level `String` can name.
impl vstd::std_specs::convert::FromSpecImpl<RankError> for AppError {
    open spec fn obeys_from_spec() -> bool {
        false
    }

    open spec fn from_spec(v: RankError) -> AppError {
        arbitrary()
    }
}

/// An RFC 7807 problem document.
#[derive(Debug, Clone)]
pub struct Problem {
    /// URI identifying the error type, e.g. `urn:atlas:error:not-found`.
    pub problem_type: String,
    /// Short, human-readable summary, stable per `type`.
    pub title: String,
    /// The HTTP status code, repeated here per RFC 7807.
    pub status: u16,
    /// Human-readable explanation specific to this occurrence.
    pub detail: String,
    /// URI reference identifying the specific occurrence: the request path.
    pub instance: Option<String>,
}

impl Problem {
    /// Attaches the request path as the problem `instance`, leaving every other
    /// field as it was.
    pub fn with_instance(self, instance: &str) -> (p: Self)
        ensures
            p.problem_type == self.problem_type,
            p.title == self.title,
            p.status == self.status,
            p.detail == self.detail,
            p.instance matches Some(i) && i@ == instance@,
    {
        Problem { instance: Some(instance.to_owned()), ..self }
    }
}

} // verus!
