//! Per-project configuration rows: hierarchy levels, card types, statuses,
//! priorities and resolutions, and the rule for their names.

use vstd::prelude::*;

use crate::domain::StatusCategory;
use crate::error::AppResult;
use crate::text::{check_name, name_rule};

verus! {

/// Longest accepted name for any config row, in characters.
pub const MAX_NAME: usize = 64;

/// The config name rule: trimmed, non-empty, at most [`MAX_NAME`] characters,
/// with no control characters.
pub open spec fn config_name_rule(s: Seq<char>) -> Result<Seq<char>, Seq<char>> {
    name_rule(
        s,
        MAX_NAME as nat,
        true,
        "Name must not be empty."@,
        "Name must be at most 64 characters long."@,
        "Name must not contain control characters."@,
    )
}

/// Checks a config row's name, returning it trimmed.
pub fn validate_name(name: &str) -> (res: AppResult<String>)
    ensures
        crate::error::validated(res, config_name_rule(name@)),
{
    check_name(
        name,
        MAX_NAME,
        true,
        "Name must not be empty.",
        "Name must be at most 64 characters long.",
        "Name must not contain control characters.",
    )
}

/// A rung of one project's hierarchy.
#[derive(Debug, Clone)]
pub struct HierarchyLevel {
    /// The owning project.
    pub project_id: String,
    /// The rung's number; higher is nearer the root.
    pub level: i64,
    /// The rung's name, e.g. `Epic`.
    pub name: String,
}

/// A card type.
#[derive(Debug, Clone)]
pub struct CardType {
    /// UUID v7, as text.
    pub id: String,
    /// The owning project.
    pub project_id: String,
    /// The type's name.
    pub name: String,
    /// The icon name.
    pub icon: Option<String>,
    /// The colour.
    pub colour: Option<String>,
    /// The hierarchy level a card of this type sits at.
    pub level: i64,
    /// Whether a new card gets this type when none is named.
    pub is_default: bool,
}

/// A workflow status: a board column.
#[derive(Debug, Clone)]
pub struct Status {
    /// UUID v7, as text.
    pub id: String,
    /// The owning project.
    pub project_id: String,
    /// The column's name.
    pub name: String,
    /// Which of the three buckets the column is in.
    pub category: StatusCategory,
    /// Display order.
    pub position: i64,
}

/// A priority.
#[derive(Debug, Clone)]
pub struct Priority {
    /// UUID v7, as text.
    pub id: String,
    /// The owning project.
    pub project_id: String,
    /// The priority's name.
    pub name: String,
    /// The icon name.
    pub icon: Option<String>,
    /// The colour.
    pub colour: Option<String>,
    /// Urgency order; 1 is the most urgent.
    pub rank: i64,
}

/// A resolution: why a card stopped.
#[derive(Debug, Clone)]
pub struct Resolution {
    /// UUID v7, as text.
    pub id: String,
    /// The owning project.
    pub project_id: String,
    /// The resolution's name.
    pub name: String,
    /// Display order; position 1 is what a move into done auto-sets.
    pub position: i64,
}

} // verus!
