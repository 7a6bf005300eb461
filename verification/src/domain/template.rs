//! Project templates: the seed data that makes one engine several products.
//!
//! Everything below is data. No status, level or priority is known to the code
//! by name; a template is a list of rows to insert, and the engine behaves
//! differently only because the rows are different.

use vstd::prelude::*;

use crate::domain::hierarchy::MAX_DEPTH;
use crate::domain::{EstimationUnit, StatusCategory};

verus! {

/// Which set of seed rows a new project starts from.
#[derive(Debug, Clone, Copy, PartialEq, Eq, Structural)]
pub enum Template {
    /// Software: the only template that assumes code exists.
    Programming,
    /// A 3D asset pipeline.
    ThreeDModeling,
    /// A job hunt: the domain-neutrality proof.
    JobSearch,
    /// Two levels and three statuses. Bring your own workflow.
    Blank,
}

impl Default for Template {
    fn default() -> (t: Self)
        ensures
            t == Template::Blank,
    {
        Template::Blank
    }
}

/// The database and wire spelling of each template.
pub open spec fn template_name(t: Template) -> Seq<char> {
    match t {
        Template::Programming => "programming"@,
        Template::ThreeDModeling => "3d-modeling"@,
        Template::JobSearch => "job-search"@,
        Template::Blank => "blank"@,
    }
}

/// The hierarchy each template seeds: `(level, name)`, root-most first.
pub open spec fn template_levels(t: Template) -> Seq<(i64, &'static str)> {
    match t {
        Template::Programming => seq![(2i64, "Initiative"), (1i64, "Epic"), (0i64, "Story"), (-1i64, "Sub-task")],
        Template::ThreeDModeling => seq![(2i64, "Collection"), (1i64, "Asset"), (0i64, "Model"), (-1i64, "Step")],
        Template::JobSearch => seq![(1i64, "Company"), (0i64, "Application"), (-1i64, "Task")],
        Template::Blank => seq![(1i64, "Group"), (0i64, "Card"), (-1i64, "Sub-task")],
    }
}

/// The card types each template seeds: `(name, level, icon, colour, is_default)`.
pub open spec fn template_card_types(t: Template) -> Seq<(&'static str, i64, &'static str, &'static str, bool)> {
    match t {
        Template::Programming => seq![
            ("Initiative", 2i64, "target", "#8270DB", false),
            ("Epic", 1i64, "zap", "#904EE2", false),
            ("Story", 0i64, "bookmark", "#4BADE8", true),
            ("Bug", 0i64, "bug", "#E5493A", false),
            ("Task", 0i64, "check-square", "#4BADE8", false),
            ("Sub-task", -1i64, "git-branch", "#4BADE8", false),
        ],
        Template::ThreeDModeling => seq![
            ("Collection", 2i64, "folder", "#8270DB", false),
            ("Asset", 1i64, "box", "#904EE2", false),
            ("Model", 0i64, "shapes", "#4BADE8", true),
            ("Texture", 0i64, "image", "#E2B203", false),
            ("Rig", 0i64, "bone", "#6CC3E0", false),
            ("Step", -1i64, "list-checks", "#7A869A", false),
        ],
        Template::JobSearch => seq![
            ("Company", 1i64, "building", "#904EE2", false),
            ("Application", 0i64, "file-text", "#4BADE8", true),
            ("Task", -1i64, "check-square", "#7A869A", false),
        ],
        Template::Blank => seq![
            ("Group", 1i64, "folder", "#904EE2", false),
            ("Card", 0i64, "square", "#4BADE8", true),
            ("Sub-task", -1i64, "git-branch", "#7A869A", false),
        ],
    }
}

/// The statuses each template seeds: `(name, category, position)`.
pub open spec fn template_statuses(t: Template) -> Seq<(&'static str, StatusCategory, i64)> {
    match t {
        Template::Programming => seq![
            ("To Do", StatusCategory::Todo, 1i64),
            ("In Progress", StatusCategory::InProgress, 2i64),
            ("In Review", StatusCategory::InProgress, 3i64),
            ("Blocked", StatusCategory::InProgress, 4i64),
            ("Done", StatusCategory::Done, 5i64),
        ],
        Template::ThreeDModeling => seq![
            ("Concept", StatusCategory::Todo, 1i64),
            ("Blockout", StatusCategory::InProgress, 2i64),
            ("Modeling", StatusCategory::InProgress, 3i64),
            ("UV / Texture", StatusCategory::InProgress, 4i64),
            ("Rigging", StatusCategory::InProgress, 5i64),
            ("Render", StatusCategory::InProgress, 6i64),
            ("Review", StatusCategory::InProgress, 7i64),
            ("Approved", StatusCategory::Done, 8i64),
        ],
        Template::JobSearch => seq![
            ("Interested", StatusCategory::Todo, 1i64),
            ("Applied", StatusCategory::InProgress, 2i64),
            ("Phone Screen", StatusCategory::InProgress, 3i64),
            ("Interview", StatusCategory::InProgress, 4i64),
            ("Take-home", StatusCategory::InProgress, 5i64),
            ("Offer", StatusCategory::InProgress, 6i64),
            ("Accepted", StatusCategory::Done, 7i64),
            ("Rejected", StatusCategory::Done, 8i64),
            ("Ghosted", StatusCategory::Done, 9i64),
        ],
        Template::Blank => seq![
            ("To Do", StatusCategory::Todo, 1i64),
            ("In Progress", StatusCategory::InProgress, 2i64),
            ("Done", StatusCategory::Done, 3i64),
        ],
    }
}

/// The priorities each template seeds: `(name, rank, icon, colour)`; rank 1 is
/// the most urgent.
pub open spec fn template_priorities(t: Template) -> Seq<(&'static str, i64, &'static str, &'static str)> {
    match t {
        Template::Programming => seq![
            ("Highest", 1i64, "chevrons-up", "#CD1317"),
            ("High", 2i64, "chevron-up", "#E9494A"),
            ("Medium", 3i64, "equal", "#E2B203"),
            ("Low", 4i64, "chevron-down", "#2ABB7F"),
            ("Lowest", 5i64, "chevrons-down", "#57D9A3"),
        ],
        Template::ThreeDModeling => seq![
            ("Critical", 1i64, "chevrons-up", "#CD1317"),
            ("High", 2i64, "chevron-up", "#E9494A"),
            ("Normal", 3i64, "equal", "#E2B203"),
            ("Low", 4i64, "chevron-down", "#2ABB7F"),
        ],
        Template::JobSearch => seq![
            ("Dream Job", 1i64, "star", "#CD1317"),
            ("Strong Fit", 2i64, "chevron-up", "#E9494A"),
            ("Maybe", 3i64, "equal", "#E2B203"),
            ("Backup", 4i64, "chevron-down", "#2ABB7F"),
        ],
        Template::Blank => seq![
            ("High", 1i64, "chevron-up", "#E9494A"),
            ("Medium", 2i64, "equal", "#E2B203"),
            ("Low", 3i64, "chevron-down", "#2ABB7F"),
        ],
    }
}

/// The resolutions each template seeds: `(name, position)`; position 1 is what
/// a move into a done column sets when none is named.
pub open spec fn template_resolutions(t: Template) -> Seq<(&'static str, i64)> {
    match t {
        Template::Programming => seq![("Done", 1i64), ("Won't Do", 2i64), ("Duplicate", 3i64), ("Cannot Reproduce", 4i64)],
        Template::ThreeDModeling => seq![("Approved", 1i64), ("Scrapped", 2i64), ("Deferred", 3i64)],
        Template::JobSearch => seq![("Accepted", 1i64), ("Rejected", 2i64), ("Ghosted", 3i64), ("Withdrawn", 4i64)],
        Template::Blank => seq![("Done", 1i64), ("Won't Do", 2i64)],
    }
}

impl Template {
    /// The template's spelling in the database and on the wire.
    pub fn as_str(self) -> (s: &'static str)
        ensures
            s@ == template_name(self),
    {
        match self {
            Template::Programming => "programming",
            Template::ThreeDModeling => "3d-modeling",
            Template::JobSearch => "job-search",
            Template::Blank => "blank",
        }
    }

    /// Every template, for the wizard's picker.
    pub fn all() -> (all: [Self; 4])
        ensures
            all@ == seq![Template::Programming, Template::ThreeDModeling, Template::JobSearch, Template::Blank],
    {
        [Template::Programming, Template::ThreeDModeling, Template::JobSearch, Template::Blank]
    }

    /// A one-line description for the picker.
    pub fn description(self) -> (s: &'static str)
        ensures
            s@ == match self {
                Template::Programming => "Initiatives, epics, stories and sub-tasks, with a review column."@,
                Template::ThreeDModeling => "Collections, assets and steps, through a concept-to-approved pipeline."@,
                Template::JobSearch => "Companies, applications and tasks, from interested through to an offer."@,
                Template::Blank => "Two levels and three columns. Configure it yourself."@,
            },
    {
        match self {
            Template::Programming => "Initiatives, epics, stories and sub-tasks, with a review column.",
            Template::ThreeDModeling => "Collections, assets and steps, through a concept-to-approved pipeline.",
            Template::JobSearch => "Companies, applications and tasks, from interested through to an offer.",
            Template::Blank => "Two levels and three columns. Configure it yourself.",
        }
    }

    /// Whether a project from this template starts with cycles on: only
    /// programming.
    pub fn cycles_enabled(self) -> (b: bool)
        ensures
            b == (self == Template::Programming),
    {
        self == Template::Programming
    }

    /// The estimation unit a project from this template starts with: points for
    /// programming, none for everything else.
    pub fn estimation_unit(self) -> (u: EstimationUnit)
        ensures
            u == (if self == Template::Programming {
                EstimationUnit::Points
            } else {
                EstimationUnit::NoEstimate
            }),
    {
        match self {
            Template::Programming => EstimationUnit::Points,
            _ => EstimationUnit::NoEstimate,
        }
    }

    /// The hierarchy this template names, root-most first.
    pub fn levels(self) -> (v: Vec<(i64, &'static str)>)
        ensures
            v@ == template_levels(self),
    {
        match self {
            Template::Programming => vec![(2, "Initiative"), (1, "Epic"), (0, "Story"), (-1, "Sub-task")],
            Template::ThreeDModeling => vec![(2, "Collection"), (1, "Asset"), (0, "Model"), (-1, "Step")],
            Template::JobSearch => vec![(1, "Company"), (0, "Application"), (-1, "Task")],
            Template::Blank => vec![(1, "Group"), (0, "Card"), (-1, "Sub-task")],
        }
    }

    /// The card types this template seeds.
    pub fn card_types(self) -> (v: Vec<(&'static str, i64, &'static str, &'static str, bool)>)
        ensures
            v@ == template_card_types(self),
    {
        match self {
            Template::Programming => vec![
                ("Initiative", 2, "target", "#8270DB", false),
                ("Epic", 1, "zap", "#904EE2", false),
                ("Story", 0, "bookmark", "#4BADE8", true),
                ("Bug", 0, "bug", "#E5493A", false),
                ("Task", 0, "check-square", "#4BADE8", false),
                ("Sub-task", -1, "git-branch", "#4BADE8", false),
            ],
            Template::ThreeDModeling => vec![
                ("Collection", 2, "folder", "#8270DB", false),
                ("Asset", 1, "box", "#904EE2", false),
                ("Model", 0, "shapes", "#4BADE8", true),
                ("Texture", 0, "image", "#E2B203", false),
                ("Rig", 0, "bone", "#6CC3E0", false),
                ("Step", -1, "list-checks", "#7A869A", false),
            ],
            Template::JobSearch => vec![
                ("Company", 1, "building", "#904EE2", false),
                ("Application", 0, "file-text", "#4BADE8", true),
                ("Task", -1, "check-square", "#7A869A", false),
            ],
            Template::Blank => vec![
                ("Group", 1, "folder", "#904EE2", false),
                ("Card", 0, "square", "#4BADE8", true),
                ("Sub-task", -1, "git-branch", "#7A869A", false),
            ],
        }
    }

    /// The workflow statuses this template seeds.
    pub fn statuses(self) -> (v: Vec<(&'static str, StatusCategory, i64)>)
        ensures
            v@ == template_statuses(self),
    {
        match self {
            Template::Programming => vec![
                ("To Do", StatusCategory::Todo, 1),
                ("In Progress", StatusCategory::InProgress, 2),
                ("In Review", StatusCategory::InProgress, 3),
                ("Blocked", StatusCategory::InProgress, 4),
                ("Done", StatusCategory::Done, 5),
            ],
            Template::ThreeDModeling => vec![
                ("Concept", StatusCategory::Todo, 1),
                ("Blockout", StatusCategory::InProgress, 2),
                ("Modeling", StatusCategory::InProgress, 3),
                ("UV / Texture", StatusCategory::InProgress, 4),
                ("Rigging", StatusCategory::InProgress, 5),
                ("Render", StatusCategory::InProgress, 6),
                ("Review", StatusCategory::InProgress, 7),
                ("Approved", StatusCategory::Done, 8),
            ],
            Template::JobSearch => vec![
                ("Interested", StatusCategory::Todo, 1),
                ("Applied", StatusCategory::InProgress, 2),
                ("Phone Screen", StatusCategory::InProgress, 3),
                ("Interview", StatusCategory::InProgress, 4),
                ("Take-home", StatusCategory::InProgress, 5),
                ("Offer", StatusCategory::InProgress, 6),
                ("Accepted", StatusCategory::Done, 7),
                ("Rejected", StatusCategory::Done, 8),
                ("Ghosted", StatusCategory::Done, 9),
            ],
            Template::Blank => vec![
                ("To Do", StatusCategory::Todo, 1),
                ("In Progress", StatusCategory::InProgress, 2),
                ("Done", StatusCategory::Done, 3),
            ],
        }
    }

    /// The priorities this template seeds. Rank 1 is the most urgent.
    pub fn priorities(self) -> (v: Vec<(&'static str, i64, &'static str, &'static str)>)
        ensures
            v@ == template_priorities(self),
    {
        match self {
            Template::Programming => vec![
                ("Highest", 1, "chevrons-up", "#CD1317"),
                ("High", 2, "chevron-up", "#E9494A"),
                ("Medium", 3, "equal", "#E2B203"),
                ("Low", 4, "chevron-down", "#2ABB7F"),
                ("Lowest", 5, "chevrons-down", "#57D9A3"),
            ],
            Template::ThreeDModeling => vec![
                ("Critical", 1, "chevrons-up", "#CD1317"),
                ("High", 2, "chevron-up", "#E9494A"),
                ("Normal", 3, "equal", "#E2B203"),
                ("Low", 4, "chevron-down", "#2ABB7F"),
            ],
            Template::JobSearch => vec![
                ("Dream Job", 1, "star", "#CD1317"),
                ("Strong Fit", 2, "chevron-up", "#E9494A"),
                ("Maybe", 3, "equal", "#E2B203"),
                ("Backup", 4, "chevron-down", "#2ABB7F"),
            ],
            Template::Blank => vec![
                ("High", 1, "chevron-up", "#E9494A"),
                ("Medium", 2, "equal", "#E2B203"),
                ("Low", 3, "chevron-down", "#2ABB7F"),
            ],
        }
    }

    /// The resolutions this template seeds; position 1 is the default a move
    /// into a done column sets.
    pub fn resolutions(self) -> (v: Vec<(&'static str, i64)>)
        ensures
            v@ == template_resolutions(self),
    {
        match self {
            Template::Programming => vec![("Done", 1), ("Won't Do", 2), ("Duplicate", 3), ("Cannot Reproduce", 4)],
            Template::ThreeDModeling => vec![("Approved", 1), ("Scrapped", 2), ("Deferred", 3)],
            Template::JobSearch => vec![("Accepted", 1), ("Rejected", 2), ("Ghosted", 3), ("Withdrawn", 4)],
            Template::Blank => vec![("Done", 1), ("Won't Do", 2)],
        }
    }
}

/// How many of `types` are marked the default.
pub open spec fn default_count(types: Seq<(&'static str, i64, &'static str, &'static str, bool)>) -> nat
    decreases types.len(),
{
    if types.len() == 0 {
        0
    } else {
        default_count(types.drop_last()) + if types.last().4 { 1nat } else { 0nat }
    }
}

/// A set of seed rows that can be inserted and used: level numbers distinct and
/// no deeper than the cap; every card type at a level the rows define; exactly
/// one default card type; a status to start in and one to finish in; and a
/// resolution at position 1.
pub open spec fn seeds_consistent(
    levels: Seq<(i64, &'static str)>,
    types: Seq<(&'static str, i64, &'static str, &'static str, bool)>,
    statuses: Seq<(&'static str, StatusCategory, i64)>,
    resolutions: Seq<(&'static str, i64)>,
) -> bool {
    &&& levels.len() <= MAX_DEPTH
    &&& forall|i: int, j: int| 0 <= i < j < levels.len() ==> levels[i].0 != levels[j].0
    &&& forall|i: int| 0 <= i < types.len() ==> exists|j: int| 0 <= j < levels.len() && #[trigger] levels[j].0 == #[trigger] types[i].1
    &&& default_count(types) == 1
    &&& exists|i: int| 0 <= i < statuses.len() && #[trigger] statuses[i].1 == StatusCategory::Todo
    &&& exists|i: int| 0 <= i < statuses.len() && #[trigger] statuses[i].1 == StatusCategory::Done
    &&& exists|i: int| 0 <= i < resolutions.len() && #[trigger] resolutions[i].1 == 1
}

proof fn lemma_programming_consistent()
    ensures
        seeds_consistent(
            template_levels(Template::Programming),
            template_card_types(Template::Programming),
            template_statuses(Template::Programming),
            template_resolutions(Template::Programming),
        ),
{
    let levels = template_levels(Template::Programming);
    let types = template_card_types(Template::Programming);
    let statuses = template_statuses(Template::Programming);
    let resolutions = template_resolutions(Template::Programming);
    assert(statuses[0].1 == StatusCategory::Todo);
    assert(statuses[statuses.len() - 1].1 == StatusCategory::Done);
    assert(resolutions[0].1 == 1);
    assert forall|i: int| 0 <= i < types.len() implies exists|j: int| 0 <= j < levels.len() && #[trigger] levels[j].0 == #[trigger] types[i].1 by {
        let l = types[i].1;
        if l == levels[0].0 {
            assert(levels[0].0 == types[i].1);
        } else if l == levels[1].0 {
            assert(levels[1].0 == types[i].1);
        } else if l == levels[2].0 {
            assert(levels[2].0 == types[i].1);
        } else {
            assert(levels[3].0 == types[i].1);
        }
    }
    assert(default_count(types) == 1) by {
        reveal_with_fuel(default_count, 7);
    }
    assert(levels.len() <= MAX_DEPTH);
    assert forall|i: int, j: int| 0 <= i < j < levels.len() implies levels[i].0 != levels[j].0 by {}
}

proof fn lemma_modeling_consistent()
    ensures
        seeds_consistent(
            template_levels(Template::ThreeDModeling),
            template_card_types(Template::ThreeDModeling),
            template_statuses(Template::ThreeDModeling),
            template_resolutions(Template::ThreeDModeling),
        ),
{
    let levels = template_levels(Template::ThreeDModeling);
    let types = template_card_types(Template::ThreeDModeling);
    let statuses = template_statuses(Template::ThreeDModeling);
    let resolutions = template_resolutions(Template::ThreeDModeling);
    assert(statuses[0].1 == StatusCategory::Todo);
    assert(statuses[statuses.len() - 1].1 == StatusCategory::Done);
    assert(resolutions[0].1 == 1);
    assert forall|i: int| 0 <= i < types.len() implies exists|j: int| 0 <= j < levels.len() && #[trigger] levels[j].0 == #[trigger] types[i].1 by {
        let l = types[i].1;
        if l == levels[0].0 {
            assert(levels[0].0 == types[i].1);
        } else if l == levels[1].0 {
            assert(levels[1].0 == types[i].1);
        } else if l == levels[2].0 {
            assert(levels[2].0 == types[i].1);
        } else {
            assert(levels[3].0 == types[i].1);
        }
    }
    assert(default_count(types) == 1) by {
        reveal_with_fuel(default_count, 7);
    }
    assert(levels.len() <= MAX_DEPTH);
    assert forall|i: int, j: int| 0 <= i < j < levels.len() implies levels[i].0 != levels[j].0 by {}
}

proof fn lemma_job_search_consistent()
    ensures
        seeds_consistent(
            template_levels(Template::JobSearch),
            template_card_types(Template::JobSearch),
            template_statuses(Template::JobSearch),
            template_resolutions(Template::JobSearch),
        ),
{
    let levels = template_levels(Template::JobSearch);
    let types = template_card_types(Template::JobSearch);
    let statuses = template_statuses(Template::JobSearch);
    let resolutions = template_resolutions(Template::JobSearch);
    assert(statuses[0].1 == StatusCategory::Todo);
    assert(statuses[statuses.len() - 1].1 == StatusCategory::Done);
    assert(resolutions[0].1 == 1);
    assert forall|i: int| 0 <= i < types.len() implies exists|j: int| 0 <= j < levels.len() && #[trigger] levels[j].0 == #[trigger] types[i].1 by {
        let l = types[i].1;
        if l == levels[0].0 {
            assert(levels[0].0 == types[i].1);
        } else if l == levels[1].0 {
            assert(levels[1].0 == types[i].1);
        } else if l == levels[2].0 {
            assert(levels[2].0 == types[i].1);
        } else {
            assert(levels[3].0 == types[i].1);
        }
    }
    assert(default_count(types) == 1) by {
        reveal_with_fuel(default_count, 7);
    }
    assert(levels.len() <= MAX_DEPTH);
    assert forall|i: int, j: int| 0 <= i < j < levels.len() implies levels[i].0 != levels[j].0 by {}
}

proof fn lemma_blank_consistent()
    ensures
        seeds_consistent(
            template_levels(Template::Blank),
            template_card_types(Template::Blank),
            template_statuses(Template::Blank),
            template_resolutions(Template::Blank),
        ),
{
    let levels = template_levels(Template::Blank);
    let types = template_card_types(Template::Blank);
    let statuses = template_statuses(Template::Blank);
    let resolutions = template_resolutions(Template::Blank);
    assert(statuses[0].1 == StatusCategory::Todo);
    assert(statuses[statuses.len() - 1].1 == StatusCategory::Done);
    assert(resolutions[0].1 == 1);
    assert forall|i: int| 0 <= i < types.len() implies exists|j: int| 0 <= j < levels.len() && #[trigger] levels[j].0 == #[trigger] types[i].1 by {
        let l = types[i].1;
        if l == levels[0].0 {
            assert(levels[0].0 == types[i].1);
        } else if l == levels[1].0 {
            assert(levels[1].0 == types[i].1);
        } else if l == levels[2].0 {
            assert(levels[2].0 == types[i].1);
        } else {
            assert(levels[3].0 == types[i].1);
        }
    }
    assert(default_count(types) == 1) by {
        reveal_with_fuel(default_count, 7);
    }
    assert(levels.len() <= MAX_DEPTH);
    assert forall|i: int, j: int| 0 <= i < j < levels.len() implies levels[i].0 != levels[j].0 by {}
}

/// Every template's seed rows are consistent.
pub proof fn lemma_template_consistent(t: Template)
    ensures
        seeds_consistent(
            template_levels(t),
            template_card_types(t),
            template_statuses(t),
            template_resolutions(t),
        ),
{
    match t {
        Template::Programming => lemma_programming_consistent(),
        Template::ThreeDModeling => lemma_modeling_consistent(),
        Template::JobSearch => lemma_job_search_consistent(),
        Template::Blank => lemma_blank_consistent(),
    }
}

/// No two entries of `ns` are the same name.
pub open spec fn names_distinct(ns: Seq<Seq<char>>) -> bool {
    forall|i: int, j: int| 0 <= i < j < ns.len() ==> #[trigger] ns[i] != #[trigger] ns[j]
}

/// The names of the card types a template seeds, in order.
pub open spec fn card_type_names(t: Template) -> Seq<Seq<char>> {
    template_card_types(t).map_values(|r: (&'static str, i64, &'static str, &'static str, bool)| r.0@)
}

/// The names of the statuses a template seeds, in order.
pub open spec fn status_names(t: Template) -> Seq<Seq<char>> {
    template_statuses(t).map_values(|r: (&'static str, StatusCategory, i64)| r.0@)
}

/// The names of the priorities a template seeds, in order.
pub open spec fn priority_names(t: Template) -> Seq<Seq<char>> {
    template_priorities(t).map_values(|r: (&'static str, i64, &'static str, &'static str)| r.0@)
}

/// The names of the resolutions a template seeds, in order.
pub open spec fn resolution_names(t: Template) -> Seq<Seq<char>> {
    template_resolutions(t).map_values(|r: (&'static str, i64)| r.0@)
}

proof fn lemma_programming_names_distinct()
    ensures
        names_distinct(card_type_names(Template::Programming)),
        names_distinct(status_names(Template::Programming)),
        names_distinct(priority_names(Template::Programming)),
        names_distinct(resolution_names(Template::Programming)),
{
    reveal_strlit("Initiative");
    reveal_strlit("Epic");
    reveal_strlit("Story");
    reveal_strlit("Bug");
    reveal_strlit("Task");
    reveal_strlit("Sub-task");
    reveal_strlit("To Do");
    reveal_strlit("In Progress");
    reveal_strlit("In Review");
    reveal_strlit("Blocked");
    reveal_strlit("Done");
    reveal_strlit("Highest");
    reveal_strlit("High");
    reveal_strlit("Medium");
    reveal_strlit("Low");
    reveal_strlit("Lowest");
    reveal_strlit("Won't Do");
    reveal_strlit("Duplicate");
    reveal_strlit("Cannot Reproduce");
    let ns = card_type_names(Template::Programming);
    assert forall|i: int, j: int| 0 <= i < j < ns.len() implies #[trigger] ns[i] != #[trigger] ns[j] by {
        let (a, b) = (ns[i], ns[j]);
        assert(a.len() != b.len() || a[0] != b[0] || a[a.len() - 1] != b[b.len() - 1]);
    }
    let ns = status_names(Template::Programming);
    assert forall|i: int, j: int| 0 <= i < j < ns.len() implies #[trigger] ns[i] != #[trigger] ns[j] by {
        let (a, b) = (ns[i], ns[j]);
        assert(a.len() != b.len() || a[0] != b[0] || a[a.len() - 1] != b[b.len() - 1]);
    }
    let ns = priority_names(Template::Programming);
    assert forall|i: int, j: int| 0 <= i < j < ns.len() implies #[trigger] ns[i] != #[trigger] ns[j] by {
        let (a, b) = (ns[i], ns[j]);
        assert(a.len() != b.len() || a[0] != b[0] || a[a.len() - 1] != b[b.len() - 1]);
    }
    let ns = resolution_names(Template::Programming);
    assert forall|i: int, j: int| 0 <= i < j < ns.len() implies #[trigger] ns[i] != #[trigger] ns[j] by {
        let (a, b) = (ns[i], ns[j]);
        assert(a.len() != b.len() || a[0] != b[0] || a[a.len() - 1] != b[b.len() - 1]);
    }
}

proof fn lemma_modeling_names_distinct()
    ensures
        names_distinct(card_type_names(Template::ThreeDModeling)),
        names_distinct(status_names(Template::ThreeDModeling)),
        names_distinct(priority_names(Template::ThreeDModeling)),
        names_distinct(resolution_names(Template::ThreeDModeling)),
{
    reveal_strlit("Collection");
    reveal_strlit("Asset");
    reveal_strlit("Model");
    reveal_strlit("Texture");
    reveal_strlit("Rig");
    reveal_strlit("Step");
    reveal_strlit("Concept");
    reveal_strlit("Blockout");
    reveal_strlit("Modeling");
    reveal_strlit("UV / Texture");
    reveal_strlit("Rigging");
    reveal_strlit("Render");
    reveal_strlit("Review");
    reveal_strlit("Approved");
    reveal_strlit("Critical");
    reveal_strlit("High");
    reveal_strlit("Normal");
    reveal_strlit("Low");
    reveal_strlit("Scrapped");
    reveal_strlit("Deferred");
    let ns = card_type_names(Template::ThreeDModeling);
    assert forall|i: int, j: int| 0 <= i < j < ns.len() implies #[trigger] ns[i] != #[trigger] ns[j] by {
        let (a, b) = (ns[i], ns[j]);
        assert(a.len() != b.len() || a[0] != b[0] || a[a.len() - 1] != b[b.len() - 1]);
    }
    let ns = status_names(Template::ThreeDModeling);
    assert forall|i: int, j: int| 0 <= i < j < ns.len() implies #[trigger] ns[i] != #[trigger] ns[j] by {
        let (a, b) = (ns[i], ns[j]);
        assert(a.len() != b.len() || a[0] != b[0] || a[a.len() - 1] != b[b.len() - 1]);
    }
    let ns = priority_names(Template::ThreeDModeling);
    assert forall|i: int, j: int| 0 <= i < j < ns.len() implies #[trigger] ns[i] != #[trigger] ns[j] by {
        let (a, b) = (ns[i], ns[j]);
        assert(a.len() != b.len() || a[0] != b[0] || a[a.len() - 1] != b[b.len() - 1]);
    }
    let ns = resolution_names(Template::ThreeDModeling);
    assert forall|i: int, j: int| 0 <= i < j < ns.len() implies #[trigger] ns[i] != #[trigger] ns[j] by {
        let (a, b) = (ns[i], ns[j]);
        assert(a.len() != b.len() || a[0] != b[0] || a[a.len() - 1] != b[b.len() - 1]);
    }
}

proof fn lemma_job_search_names_distinct()
    ensures
        names_distinct(card_type_names(Template::JobSearch)),
        names_distinct(status_names(Template::JobSearch)),
        names_distinct(priority_names(Template::JobSearch)),
        names_distinct(resolution_names(Template::JobSearch)),
{
    reveal_strlit("Company");
    reveal_strlit("Application");
    reveal_strlit("Task");
    reveal_strlit("Interested");
    reveal_strlit("Applied");
    reveal_strlit("Phone Screen");
    reveal_strlit("Interview");
    reveal_strlit("Take-home");
    reveal_strlit("Offer");
    reveal_strlit("Accepted");
    reveal_strlit("Rejected");
    reveal_strlit("Ghosted");
    reveal_strlit("Dream Job");
    reveal_strlit("Strong Fit");
    reveal_strlit("Maybe");
    reveal_strlit("Backup");
    reveal_strlit("Withdrawn");
    let ns = card_type_names(Template::JobSearch);
    assert forall|i: int, j: int| 0 <= i < j < ns.len() implies #[trigger] ns[i] != #[trigger] ns[j] by {
        let (a, b) = (ns[i], ns[j]);
        assert(a.len() != b.len() || a[0] != b[0] || a[a.len() - 1] != b[b.len() - 1]);
    }
    let ns = status_names(Template::JobSearch);
    assert forall|i: int, j: int| 0 <= i < j < ns.len() implies #[trigger] ns[i] != #[trigger] ns[j] by {
        let (a, b) = (ns[i], ns[j]);
        assert(a.len() != b.len() || a[0] != b[0] || a[a.len() - 1] != b[b.len() - 1]);
    }
    let ns = priority_names(Template::JobSearch);
    assert forall|i: int, j: int| 0 <= i < j < ns.len() implies #[trigger] ns[i] != #[trigger] ns[j] by {
        let (a, b) = (ns[i], ns[j]);
        assert(a.len() != b.len() || a[0] != b[0] || a[a.len() - 1] != b[b.len() - 1]);
    }
    let ns = resolution_names(Template::JobSearch);
    assert forall|i: int, j: int| 0 <= i < j < ns.len() implies #[trigger] ns[i] != #[trigger] ns[j] by {
        let (a, b) = (ns[i], ns[j]);
        assert(a.len() != b.len() || a[0] != b[0] || a[a.len() - 1] != b[b.len() - 1]);
    }
}

proof fn lemma_blank_names_distinct()
    ensures
        names_distinct(card_type_names(Template::Blank)),
        names_distinct(status_names(Template::Blank)),
        names_distinct(priority_names(Template::Blank)),
        names_distinct(resolution_names(Template::Blank)),
{
    reveal_strlit("Group");
    reveal_strlit("Card");
    reveal_strlit("Sub-task");
    reveal_strlit("To Do");
    reveal_strlit("In Progress");
    reveal_strlit("Done");
    reveal_strlit("High");
    reveal_strlit("Medium");
    reveal_strlit("Low");
    reveal_strlit("Won't Do");
    let ns = card_type_names(Template::Blank);
    assert forall|i: int, j: int| 0 <= i < j < ns.len() implies #[trigger] ns[i] != #[trigger] ns[j] by {
        let (a, b) = (ns[i], ns[j]);
        assert(a.len() != b.len() || a[0] != b[0] || a[a.len() - 1] != b[b.len() - 1]);
    }
    let ns = status_names(Template::Blank);
    assert forall|i: int, j: int| 0 <= i < j < ns.len() implies #[trigger] ns[i] != #[trigger] ns[j] by {
        let (a, b) = (ns[i], ns[j]);
        assert(a.len() != b.len() || a[0] != b[0] || a[a.len() - 1] != b[b.len() - 1]);
    }
    let ns = priority_names(Template::Blank);
    assert forall|i: int, j: int| 0 <= i < j < ns.len() implies #[trigger] ns[i] != #[trigger] ns[j] by {
        let (a, b) = (ns[i], ns[j]);
        assert(a.len() != b.len() || a[0] != b[0] || a[a.len() - 1] != b[b.len() - 1]);
    }
    let ns = resolution_names(Template::Blank);
    assert forall|i: int, j: int| 0 <= i < j < ns.len() implies #[trigger] ns[i] != #[trigger] ns[j] by {
        let (a, b) = (ns[i], ns[j]);
        assert(a.len() != b.len() || a[0] != b[0] || a[a.len() - 1] != b[b.len() - 1]);
    }
}

/// Within one template, no two card types, statuses, priorities or resolutions
/// share a name, so every seed row passes the database's uniqueness checks.
pub proof fn lemma_template_names_distinct(t: Template)
    ensures
        names_distinct(card_type_names(t)),
        names_distinct(status_names(t)),
        names_distinct(priority_names(t)),
        names_distinct(resolution_names(t)),
{
    match t {
        Template::Programming => lemma_programming_names_distinct(),
        Template::ThreeDModeling => lemma_modeling_names_distinct(),
        Template::JobSearch => lemma_job_search_names_distinct(),
        Template::Blank => lemma_blank_names_distinct(),
    }
}

/// The project a template creates: the given key, name, description and
/// lead, with the template's name, its cycles setting and its estimation
/// unit.
pub fn project_from_template(
    template: Template,
    key: &str,
    name: &str,
    description: Option<&str>,
    lead_id: Option<&str>,
) -> (p: crate::domain::project::NewProject)
    ensures
        p.key@ == key@,
        p.name@ == name@,
        crate::text::opt_string_view(p.description) == crate::text::opt_str_view(description),
        crate::text::opt_string_view(p.lead_id) == crate::text::opt_str_view(lead_id),
        p.template@ == template_name(template),
        p.cycles_enabled == (template == Template::Programming),
        p.estimation_unit == (if template == Template::Programming {
            EstimationUnit::Points
        } else {
            EstimationUnit::NoEstimate
        }),
{
    crate::domain::project::NewProject {
        key: crate::text::copy_str(key),
        name: crate::text::copy_str(name),
        description: match description {
            Some(d) => Some(crate::text::copy_str(d)),
            None => None,
        },
        lead_id: match lead_id {
            Some(l) => Some(crate::text::copy_str(l)),
            None => None,
        },
        template: crate::text::copy_str(template.as_str()),
        cycles_enabled: template.cycles_enabled(),
        estimation_unit: template.estimation_unit(),
    }
}

} // verus!
