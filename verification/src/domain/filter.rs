//! Saved queries: the rules for their names, descriptions and bodies.

use vstd::prelude::*;

use crate::error::{AppError, AppResult};
use crate::text::{check_length, check_name, length_rule, name_rule};
use vstd::string::StringSliceAdditionalSpecFns;

verus! {

/// Longest accepted filter name, in characters.
pub const MAX_NAME: usize = 128;

/// Longest accepted filter description, in characters.
pub const MAX_DESCRIPTION: usize = 4096;

/// Longest accepted query body, in bytes.
pub const MAX_AQL: usize = 8192;

/// The filter name rule.
pub open spec fn filter_name_rule(s: Seq<char>) -> Result<Seq<char>, Seq<char>> {
    name_rule(
        s,
        MAX_NAME as nat,
        true,
        "A filter needs a name."@,
        "A filter name must be at most 128 characters long."@,
        "A filter name must not contain control characters."@,
    )
}

/// The filter description rule.
pub open spec fn filter_description_rule(s: Seq<char>) -> Result<Seq<char>, Seq<char>> {
    length_rule(s, MAX_DESCRIPTION as nat, "A filter description must be at most 4096 characters long."@)
}

/// Checks a filter name, returning it trimmed.
pub fn validate_name(name: &str) -> (res: AppResult<String>)
    ensures
        crate::error::validated(res, filter_name_rule(name@)),
{
    check_name(
        name,
        MAX_NAME,
        true,
        "A filter needs a name.",
        "A filter name must be at most 128 characters long.",
        "A filter name must not contain control characters.",
    )
}

/// Checks a filter description.
pub fn validate_description(description: &str) -> (res: AppResult<String>)
    ensures
        crate::error::validated(res, filter_description_rule(description@)),
{
    check_length(
        description,
        MAX_DESCRIPTION,
        "A filter description must be at most 4096 characters long.",
    )
}

/// Checks a query body's size in bytes, naming the size when it is too big.
pub fn validate_aql_length(aql: &str) -> (res: AppResult<()>)
    ensures
        res is Ok <==> aql.len() <= MAX_AQL,
        res matches Err(e) ==> e matches AppError::Validation(m) && m@ == "The query is "@
            + crate::text::decimal(aql.len() as int) + " bytes; the limit is 8192."@,
{
    let n = aql.len();
    if n > MAX_AQL {
        let mut msg = "The query is ".to_owned();
        let digits = crate::text::usize_to_decimal(n);
        msg.append(digits.as_str());
        msg.append(" bytes; the limit is 8192.");
        return Err(AppError::Validation(msg));
    }
    Ok(())
}

/// The fields a filter patch may change.
#[derive(Debug, Default)]
pub struct FilterPatch {
    /// The name, if changing.
    pub name: Option<String>,
    /// `None` leaves it; `Some(None)` clears it; `Some(Some(v))` sets it.
    pub description: Option<Option<String>>,
    /// The query, if changing.
    pub aql: Option<String>,
}

impl FilterPatch {
    /// Whether the patch changes anything: true exactly when it names at least
    /// one field.
    pub fn is_empty(&self) -> (b: bool)
        ensures
            b == (self.name is Some || self.description is Some || self.aql is Some),
    {
        self.name.is_some() || self.description.is_some() || self.aql.is_some()
    }
}

} // verus!
