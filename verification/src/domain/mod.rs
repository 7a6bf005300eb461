//! The domain model: projects, the configurable hierarchy, cards, and history.
//!
//! Hierarchy is per-project configuration over a uniform parent link: nothing
//! here names a level, and a card that contains a board is just a card with
//! children.

pub mod agent_session;
pub mod board;
pub mod card;
pub mod comment;
pub mod config;
pub mod cycle;
pub mod cycle_snapshot;
pub mod filter;
pub mod hierarchy;
pub mod history;
pub mod member;
pub mod project;
pub mod tag;
pub mod template;
pub mod workflow;

use vstd::prelude::*;

use crate::text::{copy_str, str_eq};

verus! {

/// Why a status category could not be read: the text that was offered.
#[derive(Debug)]
pub struct StatusCategoryError(pub String);

/// The three buckets every status falls into. Exactly three, forever.
///
/// Declared in workflow order, so the derived `Ord` is progress order:
/// `Todo < InProgress < Done`.
#[derive(Debug, Clone, Copy, PartialEq, Eq, PartialOrd, Ord, Hash, Structural)]
pub enum StatusCategory {
    /// Not started.
    Todo,
    /// Started, not finished.
    InProgress,
    /// Finished. Entering this category is what sets a resolution.
    Done,
}

/// The database and JSON spelling of each category.
pub open spec fn category_name(c: StatusCategory) -> Seq<char> {
    match c {
        StatusCategory::Todo => "todo"@,
        StatusCategory::InProgress => "in_progress"@,
        StatusCategory::Done => "done"@,
    }
}

/// The category a spelling names, if any.
pub open spec fn category_named(s: Seq<char>) -> Option<StatusCategory> {
    if s == "todo"@ {
        Some(StatusCategory::Todo)
    } else if s == "in_progress"@ {
        Some(StatusCategory::InProgress)
    } else if s == "done"@ {
        Some(StatusCategory::Done)
    } else {
        None
    }
}

impl StatusCategory {
    /// The category's database and JSON spelling.
    pub fn as_str(self) -> (s: &'static str)
        ensures
            s@ == category_name(self),
    {
        match self {
            StatusCategory::Todo => "todo",
            StatusCategory::InProgress => "in_progress",
            StatusCategory::Done => "done",
        }
    }

    /// Whether a card in this category counts as finished.
    pub fn is_done(self) -> (b: bool)
        ensures
            b == (self == StatusCategory::Done),
    {
        self == StatusCategory::Done
    }

    /// Reads a category from its spelling. Lowercase only; anything else is
    /// refused rather than defaulted.
    pub fn parse(s: &str) -> (res: Result<Self, StatusCategoryError>)
        ensures
            match category_named(s@) {
                Some(c) => res == Ok::<Self, StatusCategoryError>(c),
                None => res matches Err(StatusCategoryError(t)) && t@ == s@,
            },
    {
        if str_eq(s, "todo") {
            Ok(StatusCategory::Todo)
        } else if str_eq(s, "in_progress") {
            Ok(StatusCategory::InProgress)
        } else if str_eq(s, "done") {
            Ok(StatusCategory::Done)
        } else {
            Err(StatusCategoryError(copy_str(s)))
        }
    }
}

/// Every category reads back from its own spelling.
pub proof fn lemma_category_round_trip(c: StatusCategory)
    ensures
        category_named(category_name(c)) == Some(c),
{
    reveal_strlit("todo");
    reveal_strlit("in_progress");
    reveal_strlit("done");
    assert("todo"@.len() == 4 && "in_progress"@.len() == 11 && "done"@.len() == 4);
    assert("todo"@[0] != "done"@[0]);
}

impl std::str::FromStr for StatusCategory {
    type Err = StatusCategoryError;

    fn from_str(s: &str) -> (res: Result<Self, Self::Err>)
        ensures
            match category_named(s@) {
                Some(c) => res == Ok::<Self, StatusCategoryError>(c),
                None => res matches Err(StatusCategoryError(t)) && t@ == s@,
            },
    {
        Self::parse(s)
    }
}

/// Why an estimation unit could not be read: the text that was offered.
#[derive(Debug)]
pub struct EstimationUnitError(pub String);

/// How a project's single `estimate` field is interpreted.
///
/// [`EstimationUnit::NoEstimate`] is a first-class answer, and the default: reports
/// degrade to counting cards rather than demanding a number.
#[derive(Debug, Clone, Copy, PartialEq, Eq, Hash, Structural)]
pub enum EstimationUnit {
    /// Story points.
    Points,
    /// Hours.
    Hours,
    /// Days.
    Days,
    /// T-shirt sizes, mapped to a number for arithmetic.
    Tshirt,
    /// A plain count of things.
    Count,
    /// No estimation. Reports fall back to card counts.
    NoEstimate,
}

/// The database and JSON spelling of each unit.
pub open spec fn unit_name(u: EstimationUnit) -> Seq<char> {
    match u {
        EstimationUnit::Points => "points"@,
        EstimationUnit::Hours => "hours"@,
        EstimationUnit::Days => "days"@,
        EstimationUnit::Tshirt => "tshirt"@,
        EstimationUnit::Count => "count"@,
        EstimationUnit::NoEstimate => "none"@,
    }
}

/// The unit a spelling names, if any.
pub open spec fn unit_named(s: Seq<char>) -> Option<EstimationUnit> {
    if s == "points"@ {
        Some(EstimationUnit::Points)
    } else if s == "hours"@ {
        Some(EstimationUnit::Hours)
    } else if s == "days"@ {
        Some(EstimationUnit::Days)
    } else if s == "tshirt"@ {
        Some(EstimationUnit::Tshirt)
    } else if s == "count"@ {
        Some(EstimationUnit::Count)
    } else if s == "none"@ {
        Some(EstimationUnit::NoEstimate)
    } else {
        None
    }
}

impl Default for EstimationUnit {
    fn default() -> (u: Self)
        ensures
            u == EstimationUnit::NoEstimate,
    {
        EstimationUnit::NoEstimate
    }
}

impl EstimationUnit {
    /// The unit's database and JSON spelling.
    pub fn as_str(self) -> (s: &'static str)
        ensures
            s@ == unit_name(self),
    {
        match self {
            EstimationUnit::Points => "points",
            EstimationUnit::Hours => "hours",
            EstimationUnit::Days => "days",
            EstimationUnit::Tshirt => "tshirt",
            EstimationUnit::Count => "count",
            EstimationUnit::NoEstimate => "none",
        }
    }

    /// Reads a unit from its spelling, refusing anything else.
    pub fn parse(s: &str) -> (res: Result<Self, EstimationUnitError>)
        ensures
            match unit_named(s@) {
                Some(u) => res == Ok::<Self, EstimationUnitError>(u),
                None => res matches Err(EstimationUnitError(t)) && t@ == s@,
            },
    {
        if str_eq(s, "points") {
            Ok(EstimationUnit::Points)
        } else if str_eq(s, "hours") {
            Ok(EstimationUnit::Hours)
        } else if str_eq(s, "days") {
            Ok(EstimationUnit::Days)
        } else if str_eq(s, "tshirt") {
            Ok(EstimationUnit::Tshirt)
        } else if str_eq(s, "count") {
            Ok(EstimationUnit::Count)
        } else if str_eq(s, "none") {
            Ok(EstimationUnit::NoEstimate)
        } else {
            Err(EstimationUnitError(copy_str(s)))
        }
    }
}

/// Every unit reads back from its own spelling.
pub proof fn lemma_unit_round_trip(u: EstimationUnit)
    ensures
        unit_named(unit_name(u)) == Some(u),
{
    reveal_strlit("points");
    reveal_strlit("hours");
    reveal_strlit("days");
    reveal_strlit("tshirt");
    reveal_strlit("count");
    reveal_strlit("none");
    assert("points"@[0] != "hours"@[0] && "days"@[0] != "tshirt"@[0] && "count"@[0] != "none"@[0]);
    assert("points"@[0] != "days"@[0] && "points"@[0] != "tshirt"@[0] && "points"@[0] != "count"@[0]);
    assert("points"@[0] != "none"@[0] && "hours"@[0] != "days"@[0] && "hours"@[0] != "tshirt"@[0]);
    assert("hours"@[0] != "count"@[0] && "hours"@[0] != "none"@[0] && "days"@[0] != "count"@[0]);
    assert("days"@[0] != "none"@[0] && "tshirt"@[0] != "count"@[0] && "tshirt"@[0] != "none"@[0]);
}

impl std::str::FromStr for EstimationUnit {
    type Err = EstimationUnitError;

    fn from_str(s: &str) -> (res: Result<Self, Self::Err>)
        ensures
            match unit_named(s@) {
                Some(c) => res == Ok::<Self, EstimationUnitError>(c),
                None => res matches Err(EstimationUnitError(t)) && t@ == s@,
            },
    {
        Self::parse(s)
    }
}

} // verus!
