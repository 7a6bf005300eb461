//! The card changelog's vocabulary: which field moved, and its before and after
//! as both a stable id and the name a human read at the time.

use vstd::prelude::*;

verus! {

/// A card field that gets a changelog entry, spelled by its logical name.
#[derive(Debug, Clone, Copy, PartialEq, Eq, Hash, Structural)]
pub enum Field {
    /// The one-line title.
    Summary,
    /// The markdown body.
    Description,
    /// The card type.
    Type,
    /// The parent card.
    Parent,
    /// The project.
    Project,
    /// The card key.
    Key,
    /// The workflow status.
    Status,
    /// The priority.
    Priority,
    /// Who is doing it.
    Assignee,
    /// Who asked for it.
    Reporter,
    /// Why it stopped.
    Resolution,
    /// When it stopped.
    ResolvedAt,
    /// The due date.
    DueDate,
    /// The start date.
    StartDate,
    /// The estimate.
    Estimate,
    /// The board sort key.
    Rank,
    /// Archival.
    Archived,
    /// Soft deletion: the trash.
    Deleted,
}

/// The database spelling of each field.
pub open spec fn field_name(f: Field) -> Seq<char> {
    match f {
        Field::Summary => "summary"@,
        Field::Description => "description"@,
        Field::Type => "type"@,
        Field::Parent => "parent"@,
        Field::Project => "project"@,
        Field::Key => "key"@,
        Field::Status => "status"@,
        Field::Priority => "priority"@,
        Field::Assignee => "assignee"@,
        Field::Reporter => "reporter"@,
        Field::Resolution => "resolution"@,
        Field::ResolvedAt => "resolved_at"@,
        Field::DueDate => "due_date"@,
        Field::StartDate => "start_date"@,
        Field::Estimate => "estimate"@,
        Field::Rank => "rank"@,
        Field::Archived => "archived"@,
        Field::Deleted => "deleted"@,
    }
}

impl Field {
    /// The field's spelling in the database.
    pub fn as_str(self) -> (s: &'static str)
        ensures
            s@ == field_name(self),
    {
        match self {
            Field::Summary => "summary",
            Field::Description => "description",
            Field::Type => "type",
            Field::Parent => "parent",
            Field::Project => "project",
            Field::Key => "key",
            Field::Status => "status",
            Field::Priority => "priority",
            Field::Assignee => "assignee",
            Field::Reporter => "reporter",
            Field::Resolution => "resolution",
            Field::ResolvedAt => "resolved_at",
            Field::DueDate => "due_date",
            Field::StartDate => "start_date",
            Field::Estimate => "estimate",
            Field::Rank => "rank",
            Field::Archived => "archived",
            Field::Deleted => "deleted",
        }
    }
}

/// Every field has a spelling of its own: two fields sharing one would merge
/// their histories.
pub proof fn lemma_field_names_distinct(a: Field, b: Field)
    ensures
        field_name(a) == field_name(b) ==> a == b,
{
    reveal_strlit("summary");
    reveal_strlit("description");
    reveal_strlit("type");
    reveal_strlit("parent");
    reveal_strlit("project");
    reveal_strlit("key");
    reveal_strlit("status");
    reveal_strlit("priority");
    reveal_strlit("assignee");
    reveal_strlit("reporter");
    reveal_strlit("resolution");
    reveal_strlit("resolved_at");
    reveal_strlit("due_date");
    reveal_strlit("start_date");
    reveal_strlit("estimate");
    reveal_strlit("rank");
    reveal_strlit("archived");
    reveal_strlit("deleted");
    if field_name(a) == field_name(b) {
        let n = field_name(a);
        assert(n.len() == field_name(b).len());
        assert(n[0] == field_name(b)[0]);
        assert(n[1] == field_name(b)[1]);
    }
}

/// One field's before and after, ready to be written.
#[derive(Debug, Clone, PartialEq, Eq)]
pub struct Change {
    /// Which field moved.
    pub field: Field,
    /// The old id or raw value.
    pub from_value: Option<String>,
    /// The old value as a human saw it, at the time.
    pub from_display: Option<String>,
    /// The new id or raw value.
    pub to_value: Option<String>,
    /// The new value as a human sees it now.
    pub to_display: Option<String>,
}

impl Change {
    /// A change whose raw value is what a human reads: both columns get the
    /// same text.
    pub fn plain(field: Field, from: Option<String>, to: Option<String>) -> (c: Self)
        ensures
            c.field == field,
            crate::text::opt_string_view(c.from_value) == crate::text::opt_string_view(from),
            crate::text::opt_string_view(c.from_display) == crate::text::opt_string_view(from),
            crate::text::opt_string_view(c.to_value) == crate::text::opt_string_view(to),
            crate::text::opt_string_view(c.to_display) == crate::text::opt_string_view(to),
    {
        let from_display = clone_opt(&from);
        let to_display = clone_opt(&to);
        Change { field, from_value: from, from_display, to_value: to, to_display }
    }

    /// A change to a referenced entity: the id in `*_value`, the name in
    /// `*_display`, and both cleared together.
    pub fn reference(field: Field, from: Option<(String, String)>, to: Option<(String, String)>) -> (c:
        Self)
        ensures
            c.field == field,
            (c.from_value, c.from_display) == split_spec(from),
            (c.to_value, c.to_display) == split_spec(to),
    {
        let (from_value, from_display) = split(from);
        let (to_value, to_display) = split(to);
        Change { field, from_value, from_display, to_value, to_display }
    }
}

/// An `(id, name)` pair taken apart, or nothing on both sides.
pub open spec fn split_spec(pair: Option<(String, String)>) -> (Option<String>, Option<String>) {
    match pair {
        Some((value, display)) => (Some(value), Some(display)),
        None => (None, None),
    }
}

/// Takes an `(id, name)` pair apart.
pub fn split(pair: Option<(String, String)>) -> (r: (Option<String>, Option<String>))
    ensures
        r == split_spec(pair),
{
    match pair {
        Some((value, display)) => (Some(value), Some(display)),
        None => (None, None),
    }
}

fn clone_opt(s: &Option<String>) -> (c: Option<String>)
    ensures
        crate::text::opt_string_view(c) == crate::text::opt_string_view(*s),
{
    match s {
        Some(v) => Some(v.clone()),
        None => None,
    }
}

} // verus!
