//! The card rules that need no database: what a summary and a description may
//! hold, how a listing names the slice of the tree it wants, and the decisions
//! a create, an update and a drag make once the rows they need are read.
//!
//! The rule every path keeps: a card in a done status says why it stopped (it
//! has a resolution), a card in any other status has none, and `resolved_at` is
//! set exactly when the resolution is.

use vstd::prelude::*;

use crate::domain::hierarchy::MAX_DEPTH;
use crate::domain::history::{Change, Field};
use crate::error::{AppError, AppResult};
use crate::rank::{index_new, opt_rank_view, Rank, RankError};
use crate::text::{
    check_length, check_name, debug_quote, debug_quoted, decimal, i64_to_decimal, length_rule, lex_lt, name_rule,
    opt_str_view, opt_string_view, signed_decimal, str_eq, str_lt, usize_to_decimal,
};

verus! {

/// Longest accepted summary, in characters.
pub const MAX_SUMMARY: usize = 255;

/// Longest accepted description, in characters.
pub const MAX_DESCRIPTION: usize = 65536;

/// Largest page a listing returns.
pub const MAX_PAGE_SIZE: i64 = 200;

/// Page size when the caller names none.
pub const DEFAULT_PAGE_SIZE: i64 = 50;

/// The summary rule: trimmed, non-empty, at most [`MAX_SUMMARY`] characters, and
/// a single line with no control characters.
pub open spec fn summary_rule(s: Seq<char>) -> Result<Seq<char>, Seq<char>> {
    name_rule(
        s,
        MAX_SUMMARY as nat,
        true,
        "Summary must not be empty."@,
        "Summary must be at most 255 characters long."@,
        "Summary must be a single line, with no control characters."@,
    )
}

/// The description rule: markdown, so only the length is bounded.
pub open spec fn description_rule(s: Seq<char>) -> Result<Seq<char>, Seq<char>> {
    length_rule(s, MAX_DESCRIPTION as nat, "Description must be at most 65536 characters long."@)
}

/// Checks a card summary, returning it trimmed.
pub fn validate_summary(summary: &str) -> (res: AppResult<String>)
    ensures
        crate::error::validated(res, summary_rule(summary@)),
{
    check_name(
        summary,
        MAX_SUMMARY,
        true,
        "Summary must not be empty.",
        "Summary must be at most 255 characters long.",
        "Summary must be a single line, with no control characters.",
    )
}

/// Checks a card description. Markdown, so only the length is bounded.
pub fn validate_description(description: &str) -> (res: AppResult<String>)
    ensures
        crate::error::validated(res, description_rule(description@)),
{
    check_length(description, MAX_DESCRIPTION, "Description must be at most 65536 characters long.")
}

/// Which cards of a project a listing wants, by parent.
#[derive(Debug, Clone, PartialEq, Eq)]
pub enum ParentFilter {
    /// Every card, at any depth: the flat project view.
    Any,
    /// Only the roots: the project's top-level board.
    Root,
    /// Only the children of one card: the nested board.
    Card(String),
}

impl Default for ParentFilter {
    fn default() -> (f: Self)
        ensures
            f == ParentFilter::Any,
    {
        ParentFilter::Any
    }
}

impl ParentFilter {
    /// The mode string the fixed listing statement branches on.
    pub fn mode(&self) -> (m: &'static str)
        ensures
            m@ == match *self {
                ParentFilter::Any => "any"@,
                ParentFilter::Root => "root"@,
                ParentFilter::Card(_) => "card"@,
            },
    {
        match self {
            ParentFilter::Any => "any",
            ParentFilter::Root => "root",
            ParentFilter::Card(_) => "card",
        }
    }

    /// The parent id, when there is one.
    pub fn id(&self) -> (id: Option<&str>)
        ensures
            match *self {
                ParentFilter::Card(c) => id matches Some(i) && i@ == c@,
                _ => id is None,
            },
    {
        match self {
            ParentFilter::Card(id) => Some(id.as_str()),
            _ => None,
        }
    }
}

/// What a card listing is asking for.
#[derive(Debug, Clone)]
pub struct CardFilter {
    /// Which slice of the tree.
    pub parent: ParentFilter,
    /// Only this status.
    pub status_id: Option<String>,
    /// Only this assignee.
    pub assignee_id: Option<String>,
    /// Whether archived cards are included. The trash never is.
    pub include_archived: bool,
    /// Page size, capped at [`MAX_PAGE_SIZE`].
    pub limit: i64,
    /// How many to skip.
    pub offset: i64,
}

impl Default for CardFilter {
    fn default() -> (f: Self)
        ensures
            f.parent == ParentFilter::Any,
            f.status_id is None,
            f.assignee_id is None,
            !f.include_archived,
            f.limit == DEFAULT_PAGE_SIZE,
            f.offset == 0,
    {
        CardFilter {
            parent: ParentFilter::Any,
            status_id: None,
            assignee_id: None,
            include_archived: false,
            limit: DEFAULT_PAGE_SIZE,
            offset: 0,
        }
    }
}

impl CardFilter {
    /// The page this listing reads: the size clamped to `1..=MAX_PAGE_SIZE`,
    /// and a negative offset read as none.
    pub fn window(&self) -> (w: (i64, i64))
        ensures
            w.0 == (if self.limit < 1 {
                1
            } else if self.limit > MAX_PAGE_SIZE {
                MAX_PAGE_SIZE
            } else {
                self.limit
            }),
            w.1 == (if self.offset < 0 {
                0
            } else {
                self.offset
            }),
    {
        let limit = if self.limit < 1 {
            1
        } else if self.limit > MAX_PAGE_SIZE {
            MAX_PAGE_SIZE
        } else {
            self.limit
        };
        let offset = if self.offset < 0 {
            0
        } else {
            self.offset
        };
        (limit, offset)
    }
}

/// One page of a card listing, and how many cards match in all.
pub struct CardPage {
    /// The cards on this page, in rank order.
    pub cards: Vec<Card>,
    /// How many cards match the filter across all pages.
    pub total: i64,
}

/// Where a new card lands in its column.
#[derive(Debug, Clone, Copy, PartialEq, Eq, Structural)]
pub enum Placement {
    /// The top of the column.
    Top,
    /// The bottom of the column: where a backlog item belongs.
    Bottom,
}

impl Default for Placement {
    fn default() -> (p: Self)
        ensures
            p == Placement::Bottom,
    {
        Placement::Bottom
    }
}

/// Where a card is being dropped: a column, and the two neighbours the user saw
/// either side of the drop point.
#[derive(Debug, Default)]
pub struct Drop {
    /// The target column. `None` keeps the card where it is.
    pub status_id: Option<String>,
    /// The card immediately above the drop point, if any.
    pub previous_card_id: Option<String>,
    /// The card immediately below the drop point, if any.
    pub next_card_id: Option<String>,
}

/// The refusal when a done status has no resolution to give a card.
pub open spec fn no_resolutions_message(project_key: Seq<char>, status_name: Seq<char>) -> Seq<char> {
    "Project "@ + project_key + " has no resolutions, so a card cannot be moved to "@ + debug_quoted(status_name)
        + " \u{2014} a card in a done status must say why it stopped. Add a resolution to the project first."@
}

/// The `Conflict` for a card that would land in a done status of a project
/// with no resolutions.
pub fn no_resolutions(project_key: &str, status_name: &str) -> (e: AppError)
    ensures
        e matches AppError::Conflict(m) && m@ == no_resolutions_message(project_key@, status_name@),
{
    let mut m = "Project ".to_owned();
    m.append(project_key);
    m.append(" has no resolutions, so a card cannot be moved to ");
    let q = debug_quote(status_name);
    m.append(q.as_str());
    m.append(" \u{2014} a card in a done status must say why it stopped. Add a resolution to the project first.");
    AppError::Conflict(m)
}

/// The `Validation` for an id that names no `what` (`card type`, `status`,
/// ...) of the project.
pub fn not_of_project(id: &str, what: &str, project_key: &str) -> (e: AppError)
    ensures
        e matches AppError::Validation(m) && m@ == debug_quoted(id@) + " is not a "@ + what@ + " of project "@
            + project_key@ + "."@,
{
    let mut m = debug_quote(id);
    m.append(" is not a ");
    m.append(what);
    m.append(" of project ");
    m.append(project_key);
    m.append(".");
    AppError::Validation(m)
}

/// The resolution a card ends up with: in a done status, the one it is being
/// given, else the one it already had, else the project's default (and with
/// no default, a refusal: `None` here); in any other status, none at all,
/// whatever was asked for.
pub open spec fn resolution_rule(
    now_done: bool,
    current: Option<Seq<char>>,
    next: Option<Seq<char>>,
    default: Option<Seq<char>>,
) -> Option<Option<Seq<char>>> {
    if now_done {
        if next is Some {
            Some(next)
        } else if current is Some {
            Some(current)
        } else if default is Some {
            Some(default)
        } else {
            None
        }
    } else {
        Some(None)
    }
}

/// When the card was resolved: never, if it has no resolution; now, if its
/// resolution changed; otherwise when it already was, or now if that date
/// was never recorded. So a card has a resolution date exactly when it has a
/// resolution.
pub open spec fn resolved_at_rule(
    current: Option<Seq<char>>,
    resolution: Option<Seq<char>>,
    resolved_at: Option<Seq<char>>,
    now: Seq<char>,
) -> Option<Seq<char>> {
    if resolution is None {
        None
    } else if resolution != current {
        Some(now)
    } else if resolved_at is Some {
        resolved_at
    } else {
        Some(now)
    }
}

/// A card's resolution and when it was set.
#[derive(Debug, Clone, PartialEq, Eq)]
pub struct Resolved {
    /// The resolution, or `None` for an open card.
    pub resolution_id: Option<String>,
    /// When it was resolved, as RFC 3339 text.
    pub resolved_at: Option<String>,
}

/// Applies the resolution rules to a card landing in a status: `now_done`
/// says whether that status is done, `current_*` is the card as stored,
/// `next_resolution_id` what the edit asks for, and `default_resolution_id`
/// the project's default. A done landing with nothing to give is a
/// `Conflict`.
pub fn apply_resolution_rules(
    now_done: bool,
    current_resolution_id: Option<&str>,
    current_resolved_at: Option<&str>,
    next_resolution_id: Option<&str>,
    default_resolution_id: Option<&str>,
    project_key: &str,
    status_name: &str,
    now: &str,
) -> (res: AppResult<Resolved>)
    ensures
        match resolution_rule(
            now_done,
            opt_str_view(current_resolution_id),
            opt_str_view(next_resolution_id),
            opt_str_view(default_resolution_id),
        ) {
            None => res matches Err(AppError::Conflict(m)) && m@ == no_resolutions_message(project_key@, status_name@),
            Some(r) => res matches Ok(out) && opt_string_view(out.resolution_id) == r && opt_string_view(out.resolved_at)
                == resolved_at_rule(opt_str_view(current_resolution_id), r, opt_str_view(current_resolved_at), now@),
        },
{
    let chosen: Option<&str> = if now_done {
        match next_resolution_id {
            Some(n) => Some(n),
            None => match current_resolution_id {
                Some(c) => Some(c),
                None => match default_resolution_id {
                    Some(d) => Some(d),
                    None => {
                        return Err(no_resolutions(project_key, status_name));
                    },
                },
            },
        }
    } else {
        None
    };
    let resolution_id = match chosen {
        Some(c) => Some(crate::text::copy_str(c)),
        None => None,
    };
    let same = match (chosen, current_resolution_id) {
        (Some(a), Some(b)) => str_eq(a, b),
        (None, None) => true,
        _ => false,
    };
    let resolved_at = if chosen.is_none() {
        None
    } else if !same {
        Some(crate::text::copy_str(now))
    } else {
        match current_resolved_at {
            Some(t) => Some(crate::text::copy_str(t)),
            None => Some(crate::text::copy_str(now)),
        }
    };
    Ok(Resolved { resolution_id, resolved_at })
}

/// The resolution invariant holds after every update, whatever the row held
/// before: the card has a resolution exactly when it lands in a done status,
/// and a resolution date exactly when it has a resolution. A resolution that
/// changes is dated now; one that stays keeps the date it had; in a done
/// status the resolution the edit names is the one the card gets.
pub proof fn lemma_resolution_invariant(
    now_done: bool,
    current: Option<Seq<char>>,
    resolved_at: Option<Seq<char>>,
    next: Option<Seq<char>>,
    default: Option<Seq<char>>,
    now: Seq<char>,
)
    ensures
        resolution_rule(now_done, current, next, default) matches Some(r) ==> (r is Some == now_done && (
        resolved_at_rule(current, r, resolved_at, now) is Some == r is Some)),
        resolution_rule(now_done, current, next, default) matches Some(r) ==> (r is Some && r != current
            ==> resolved_at_rule(current, r, resolved_at, now) == Some(now)),
        resolution_rule(now_done, current, next, default) matches Some(r) ==> (r is Some && r == current
            && resolved_at is Some ==> resolved_at_rule(current, r, resolved_at, now) == resolved_at),
        now_done && next is Some ==> resolution_rule(now_done, current, next, default) == Some(next),
        now_done && next is None && current is Some ==> resolution_rule(now_done, current, next, default) == Some(
            current,
        ),
        now_done && next is None && current is None && default is Some ==> resolution_rule(
            now_done,
            current,
            next,
            default,
        ) == Some(default),
        !now_done ==> resolution_rule(now_done, current, next, default) == Some(None::<Seq<char>>),
        resolution_rule(now_done, current, next, default) is None <==> (now_done && next is None && current is None
            && default is None),
{
}

/// The resolution a card created straight into a status arrives with: in a
/// done status the project's default, resolved now; otherwise none.
pub fn arrival_resolution(
    status_done: bool,
    default_resolution_id: Option<&str>,
    project_key: &str,
    status_name: &str,
    now: &str,
) -> (res: AppResult<Resolved>)
    ensures
        !status_done ==> (res matches Ok(r) && r.resolution_id is None && r.resolved_at is None),
        status_done && default_resolution_id is None ==> (res matches Err(AppError::Conflict(m)) && m@
            == no_resolutions_message(project_key@, status_name@)),
        status_done && default_resolution_id is Some ==> (res matches Ok(r) && opt_string_view(r.resolution_id)
            == opt_str_view(default_resolution_id) && opt_string_view(r.resolved_at) == Some(now@)),
{
    apply_resolution_rules(status_done, None, None, None, default_resolution_id, project_key, status_name, now)
}

/// When a card is archived after an edit that archives (`true`) or
/// unarchives it: an archived card keeps the date it was first archived.
pub fn archived_at_after(archived: bool, current: Option<&str>, now: &str) -> (at: Option<String>)
    ensures
        opt_string_view(at) == (if !archived {
            None
        } else if current is Some {
            opt_str_view(current)
        } else {
            Some(now@)
        }),
{
    match (archived, current) {
        (true, Some(at)) => Some(crate::text::copy_str(at)),
        (true, None) => Some(crate::text::copy_str(now)),
        (false, _) => None,
    }
}

/// The checks on a card type change, once the levels are read: the new level
/// must stay below the parent's (if any) and above the deepest child's (if
/// any).
pub fn check_type_change(
    key: &str,
    new_level: i64,
    parent_level: Option<i64>,
    deepest_child: Option<i64>,
) -> (res: AppResult<()>)
    ensures
        parent_level matches Some(p) ==> (p <= new_level ==> (res matches Err(AppError::Conflict(m)) && m@ == key@
            + " would sit at hierarchy level "@ + signed_decimal(new_level as int)
            + ", which is not below its parent's level "@ + signed_decimal(p as int)
            + ". Move it out from under its parent first."@)),
        !(parent_level matches Some(p) && p <= new_level) && (deepest_child matches Some(c) && c >= new_level) ==> (
        res matches Err(AppError::Conflict(m)) && m@ == key@ + " would sit at hierarchy level "@ + signed_decimal(
            new_level as int,
        ) + ", which is not above its children's level "@ + signed_decimal(deepest_child.unwrap() as int)
            + ". Move its children out first."@),
        !(parent_level matches Some(p) && p <= new_level) && !(deepest_child matches Some(c) && c >= new_level)
            ==> res is Ok,
{
    if let Some(p) = parent_level {
        if p <= new_level {
            let mut m = key.to_owned();
            m.append(" would sit at hierarchy level ");
            let n = i64_to_decimal(new_level);
            m.append(n.as_str());
            m.append(", which is not below its parent's level ");
            let pl = i64_to_decimal(p);
            m.append(pl.as_str());
            m.append(". Move it out from under its parent first.");
            return Err(AppError::Conflict(m));
        }
    }
    if let Some(c) = deepest_child {
        if c >= new_level {
            let mut m = key.to_owned();
            m.append(" would sit at hierarchy level ");
            let n = i64_to_decimal(new_level);
            m.append(n.as_str());
            m.append(", which is not above its children's level ");
            let cl = i64_to_decimal(c);
            m.append(cl.as_str());
            m.append(". Move its children out first.");
            return Err(AppError::Conflict(m));
        }
    }
    Ok(())
}

/// The checks on the parent a new card is created under, once it is read:
/// it must be in the same project, at a higher level than the new card's type,
/// and shallow enough that the new card stays within [`MAX_DEPTH`].
pub fn check_new_parent(
    parent_key: &str,
    parent_project_id: &str,
    project_id: &str,
    parent_level: i64,
    kind_name: &str,
    type_level: i64,
    parent_depth: usize,
) -> (res: AppResult<()>)
    requires
        parent_depth < usize::MAX,
    ensures
        parent_project_id@ != project_id@ ==> (res matches Err(AppError::Conflict(m)) && m@ == parent_key@
            + " is in another project."@),
        parent_project_id@ == project_id@ && parent_level <= type_level ==> (res matches Err(AppError::Conflict(m))
            && m@ == parent_key@ + " sits at hierarchy level "@ + signed_decimal(parent_level as int) + ", and a "@
            + kind_name@ + " sits at level "@ + signed_decimal(type_level as int)
            + ". A parent must be at a higher level than its child."@),
        parent_project_id@ == project_id@ && parent_level > type_level && parent_depth + 1 > MAX_DEPTH ==> (
        res matches Err(AppError::Conflict(m)) && m@ == "That would nest cards "@ + decimal(parent_depth + 1)
            + " levels deep; the limit is 5."@),
        parent_project_id@ == project_id@ && parent_level > type_level && parent_depth + 1 <= MAX_DEPTH ==> res is Ok,
{
    if !str_eq(parent_project_id, project_id) {
        let mut m = parent_key.to_owned();
        m.append(" is in another project.");
        return Err(AppError::Conflict(m));
    }
    if parent_level <= type_level {
        let mut m = parent_key.to_owned();
        m.append(" sits at hierarchy level ");
        let pl = i64_to_decimal(parent_level);
        m.append(pl.as_str());
        m.append(", and a ");
        m.append(kind_name);
        m.append(" sits at level ");
        let tl = i64_to_decimal(type_level);
        m.append(tl.as_str());
        m.append(". A parent must be at a higher level than its child.");
        return Err(AppError::Conflict(m));
    }
    let depth = parent_depth + 1;
    if depth > MAX_DEPTH {
        let mut m = "That would nest cards ".to_owned();
        let d = usize_to_decimal(depth);
        m.append(d.as_str());
        m.append(" levels deep; the limit is 5.");
        return Err(AppError::Conflict(m));
    }
    Ok(())
}

/// The rank for a card arriving at the top or bottom of a column, given the
/// column's first (for the top) or last (for the bottom) card, if any.
pub fn placement_rank(placement: Placement, neighbour: Option<&Rank>) -> (res: Result<Rank, RankError>)
    ensures
        match (placement, neighbour) {
            (_, None) => res matches Ok(r) && r@ == "80"@,
            (Placement::Top, Some(f)) => res matches Ok(r) && Some(r@) == index_new(None, Some(f@)),
            (Placement::Bottom, Some(l)) => res matches Ok(r) && Some(r@) == index_new(Some(l@), None),
        },
{
    match (placement, neighbour) {
        (_, None) => Ok(Rank::first()),
        (Placement::Top, Some(first)) => Rank::between(None, Some(first)),
        (Placement::Bottom, Some(last)) => Rank::between(Some(last), None),
    }
}

/// What is known of a named drop neighbour once it is looked up.
#[derive(Debug, Clone)]
pub struct Neighbour {
    /// Its project.
    pub project_id: String,
    /// Its column.
    pub status_id: String,
    /// Its key.
    pub key: String,
    /// Its rank.
    pub rank: Rank,
}

/// Checks a named drop neighbour: not the card itself, still there, and in
/// the column the card is landing in. Gives its rank.
pub fn neighbour_rank(
    card_id: &str,
    card_project_id: &str,
    status_id: &str,
    neighbour_id: &str,
    neighbour: Option<&Neighbour>,
) -> (res: AppResult<Rank>)
    ensures
        neighbour_id@ == card_id@ ==> (res matches Err(AppError::Validation(m)) && m@
            == "A card cannot be dropped next to itself."@),
        neighbour_id@ != card_id@ && neighbour is None ==> (res matches Err(AppError::Conflict(m)) && m@
            == "That card no longer exists; refetch the board."@),
        neighbour_id@ != card_id@ ==> (neighbour matches Some(n) ==> (if n.project_id@ != card_project_id@
            || n.status_id@ != status_id@ {
            res matches Err(AppError::Conflict(m)) && m@ == n.key@
                + " is not in that column any more; refetch the board and try again."@
        } else {
            res matches Ok(r) && r@ == n.rank@
        })),
{
    if str_eq(neighbour_id, card_id) {
        return Err(AppError::Validation("A card cannot be dropped next to itself.".to_owned()));
    }
    let n = match neighbour {
        Some(n) => n,
        None => {
            return Err(AppError::Conflict("That card no longer exists; refetch the board.".to_owned()));
        },
    };
    if !str_eq(n.project_id.as_str(), card_project_id) || !str_eq(n.status_id.as_str(), status_id) {
        let mut m = n.key.clone();
        m.append(" is not in that column any more; refetch the board and try again.");
        return Err(AppError::Conflict(m));
    }
    Ok(n.rank.clone())
}

/// The rank a dropped card takes: with no neighbour named, the bottom of the
/// column (after `last`, the column's last card); otherwise strictly between
/// the named neighbours, unless another card (`intruder`) already sits in that
/// gap, which means the client's board is stale.
pub fn drop_rank(
    previous: Option<&Rank>,
    next: Option<&Rank>,
    last: Option<&Rank>,
    intruder: Option<&str>,
) -> (res: AppResult<Rank>)
    ensures
        previous is None && next is None ==> (res matches Ok(r) && Some(r@) == (match last {
            None => Some("80"@),
            Some(l) => index_new(Some(l@), None),
        })),
        !(previous is None && next is None) ==> (intruder matches Some(k) ==> (res matches Err(AppError::Conflict(m))
            && m@ == k@ + " is between those two cards now; refetch the board and try again."@)),
        !(previous is None && next is None) && intruder is None ==> (match index_new(
            opt_rank_view(previous),
            opt_rank_view(next),
        ) {
            Some(t) => res matches Ok(r) && r@ == t,
            None => res matches Err(AppError::Conflict(m)) && m@ == crate::rank::out_of_order_message(
                previous.unwrap()@,
                next.unwrap()@,
            ),
        }),
{
    if previous.is_none() && next.is_none() {
        return match placement_rank(Placement::Bottom, last) {
            Ok(r) => Ok(r),
            Err(e) => Err(AppError::from_rank_error(e)),
        };
    }
    if let Some(key) = intruder {
        let mut m = crate::text::copy_str(key);
        m.append(" is between those two cards now; refetch the board and try again.");
        return Err(AppError::Conflict(m));
    }
    match Rank::between(previous, next) {
        Ok(r) => Ok(r),
        Err(e) => Err(AppError::from_rank_error(e)),
    }
}


/// A card as the rules read it. Ids are text; timestamps are the text they
/// are stored as, dates are `YYYY-MM-DD`, and the estimate is the text the
/// changelog shows for it.
pub struct Card {
    /// The card's id.
    pub id: String,
    /// `ATLAS-123`. Unique across the instance.
    pub key: String,
    /// The owning project.
    pub project_id: String,
    /// The card type, which fixes the card's hierarchy level.
    pub type_id: String,
    /// The parent card; `None` for a root of the project's tree.
    pub parent_id: Option<String>,
    /// The one-line title.
    pub summary: String,
    /// Markdown source.
    pub description: Option<String>,
    /// The workflow status.
    pub status_id: String,
    /// The priority.
    pub priority_id: Option<String>,
    /// Who is doing it.
    pub assignee_id: Option<String>,
    /// Who asked for it.
    pub reporter_id: Option<String>,
    /// Who created it.
    pub creator_id: String,
    /// Why it stopped: a card is resolved exactly when this is set.
    pub resolution_id: Option<String>,
    /// When it was resolved.
    pub resolved_at: Option<String>,
    /// The due date.
    pub due_date: Option<String>,
    /// The start date.
    pub start_date: Option<String>,
    /// The estimate.
    pub estimate: Option<String>,
    /// The board sort key.
    pub rank: Rank,
    /// When it was archived; `None` for a live card.
    pub archived_at: Option<String>,
    /// When it was moved to the trash.
    pub deleted_at: Option<String>,
    /// When it was created.
    pub created_at: String,
    /// When it last changed.
    pub updated_at: String,
}

impl Card {
    /// Whether the card is resolved: it has a resolution, whatever its status.
    pub fn is_resolved(&self) -> (b: bool)
        ensures
            b == self.resolution_id is Some,
    {
        self.resolution_id.is_some()
    }

    /// Whether the card is in the trash.
    pub fn is_deleted(&self) -> (b: bool)
        ensures
            b == self.deleted_at is Some,
    {
        self.deleted_at.is_some()
    }
}

/// The fields an edit may name. An absent field is left as it is; for an
/// optional field, `Some(None)` clears it.
#[derive(Default)]
pub struct CardPatch {
    /// The one-line title.
    pub summary: Option<String>,
    /// The markdown body.
    pub description: Option<Option<String>>,
    /// The card type.
    pub type_id: Option<String>,
    /// The status.
    pub status_id: Option<String>,
    /// The priority.
    pub priority_id: Option<Option<String>>,
    /// Who is doing it.
    pub assignee_id: Option<Option<String>>,
    /// Who asked for it.
    pub reporter_id: Option<Option<String>>,
    /// The resolution.
    pub resolution_id: Option<Option<String>>,
    /// The due date.
    pub due_date: Option<Option<String>>,
    /// The start date.
    pub start_date: Option<Option<String>>,
    /// The estimate.
    pub estimate: Option<Option<String>>,
    /// The board sort key.
    pub rank: Option<Rank>,
    /// Archive (`true`) or unarchive (`false`).
    pub archived: Option<bool>,
}

impl CardPatch {
    /// Whether this patch names no field at all. Naming a field is not
    /// changing it: whether anything moved is the diff's to say.
    pub fn is_empty(&self) -> (b: bool)
        ensures
            b == (self.summary is None && self.description is None && self.type_id is None
                && self.status_id is None && self.priority_id is None && self.assignee_id is None
                && self.reporter_id is None && self.resolution_id is None && self.due_date is None
                && self.start_date is None && self.estimate is None && self.rank is None
                && self.archived is None),
    {
        self.summary.is_none() && self.description.is_none() && self.type_id.is_none()
            && self.status_id.is_none() && self.priority_id.is_none() && self.assignee_id.is_none()
            && self.reporter_id.is_none() && self.resolution_id.is_none() && self.due_date.is_none()
            && self.start_date.is_none() && self.estimate.is_none() && self.rank.is_none()
            && self.archived.is_none()
    }
}

/// A required field after an edit: the patch's value if it names one.
pub open spec fn set_to(p: Option<String>, current: String) -> Seq<char> {
    match p {
        Some(v) => v@,
        None => current@,
    }
}

/// An optional field after an edit: the patch's value (possibly none) if it
/// names the field.
pub open spec fn set_opt_to(p: Option<Option<String>>, current: Option<String>) -> Option<Seq<char>> {
    match p {
        Some(v) => opt_string_view(v),
        None => opt_string_view(current),
    }
}

/// The archive date after an edit.
pub open spec fn archived_rule(archived: Option<bool>, current: Option<Seq<char>>, now: Seq<char>) -> Option<
    Seq<char>,
> {
    match archived {
        None => current,
        Some(false) => None,
        Some(true) => if current is Some {
            current
        } else {
            Some(now)
        },
    }
}

/// Whether `next` is `current` with the fields of `patch` written over it,
/// the archive flag turned into a date (kept if it was already archived,
/// `now` otherwise), and every field an edit cannot name left as it was.
pub open spec fn is_patched(current: Card, patch: CardPatch, now: Seq<char>, next: Card) -> bool {
    &&& next.id@ == current.id@
    &&& next.key@ == current.key@
    &&& next.project_id@ == current.project_id@
    &&& next.type_id@ == set_to(patch.type_id, current.type_id)
    &&& opt_string_view(next.parent_id) == opt_string_view(current.parent_id)
    &&& next.summary@ == set_to(patch.summary, current.summary)
    &&& opt_string_view(next.description) == set_opt_to(patch.description, current.description)
    &&& next.status_id@ == set_to(patch.status_id, current.status_id)
    &&& opt_string_view(next.priority_id) == set_opt_to(patch.priority_id, current.priority_id)
    &&& opt_string_view(next.assignee_id) == set_opt_to(patch.assignee_id, current.assignee_id)
    &&& opt_string_view(next.reporter_id) == set_opt_to(patch.reporter_id, current.reporter_id)
    &&& next.creator_id@ == current.creator_id@
    &&& opt_string_view(next.resolution_id) == set_opt_to(patch.resolution_id, current.resolution_id)
    &&& opt_string_view(next.resolved_at) == opt_string_view(current.resolved_at)
    &&& opt_string_view(next.due_date) == set_opt_to(patch.due_date, current.due_date)
    &&& opt_string_view(next.start_date) == set_opt_to(patch.start_date, current.start_date)
    &&& opt_string_view(next.estimate) == set_opt_to(patch.estimate, current.estimate)
    &&& next.rank@ == (match patch.rank {
        Some(r) => r@,
        None => current.rank@,
    })
    &&& opt_string_view(next.archived_at) == archived_rule(
        patch.archived,
        opt_string_view(current.archived_at),
        now,
    )
    &&& opt_string_view(next.deleted_at) == opt_string_view(current.deleted_at)
    &&& next.created_at@ == current.created_at@
    &&& next.updated_at@ == current.updated_at@
}

fn pick(p: &Option<String>, current: &String) -> (out: String)
    ensures
        out@ == set_to(*p, *current),
{
    match p {
        Some(v) => v.clone(),
        None => current.clone(),
    }
}

fn copy_opt(s: &Option<String>) -> (c: Option<String>)
    ensures
        opt_string_view(c) == opt_string_view(*s),
{
    match s {
        Some(v) => Some(v.clone()),
        None => None,
    }
}

fn pick_opt(p: &Option<Option<String>>, current: &Option<String>) -> (out: Option<String>)
    ensures
        opt_string_view(out) == set_opt_to(*p, *current),
{
    match p {
        Some(v) => copy_opt(v),
        None => copy_opt(current),
    }
}

/// The card an edit asks for, before any rule has looked at it: `current`
/// with the named fields of `patch` written over it. `now` dates an archive.
pub fn patched(current: &Card, patch: &CardPatch, now: &str) -> (next: Card)
    ensures
        is_patched(*current, *patch, now@, next),
{
    let archived_at = match patch.archived {
        Some(archived) => {
            let at: Option<&str> = match &current.archived_at {
                Some(a) => Some(a.as_str()),
                None => None,
            };
            archived_at_after(archived, at, now)
        },
        None => copy_opt(&current.archived_at),
    };
    Card {
        id: current.id.clone(),
        key: current.key.clone(),
        project_id: current.project_id.clone(),
        type_id: pick(&patch.type_id, &current.type_id),
        parent_id: copy_opt(&current.parent_id),
        summary: pick(&patch.summary, &current.summary),
        description: pick_opt(&patch.description, &current.description),
        status_id: pick(&patch.status_id, &current.status_id),
        priority_id: pick_opt(&patch.priority_id, &current.priority_id),
        assignee_id: pick_opt(&patch.assignee_id, &current.assignee_id),
        reporter_id: pick_opt(&patch.reporter_id, &current.reporter_id),
        creator_id: current.creator_id.clone(),
        resolution_id: pick_opt(&patch.resolution_id, &current.resolution_id),
        resolved_at: copy_opt(&current.resolved_at),
        due_date: pick_opt(&patch.due_date, &current.due_date),
        start_date: pick_opt(&patch.start_date, &current.start_date),
        estimate: pick_opt(&patch.estimate, &current.estimate),
        rank: match &patch.rank {
            Some(r) => r.clone(),
            None => current.rank.clone(),
        },
        archived_at,
        deleted_at: copy_opt(&current.deleted_at),
        created_at: current.created_at.clone(),
        updated_at: current.updated_at.clone(),
    }
}


/// The names a changelog row shows for a referenced entity, before and after
/// an edit, as they were read for it. A referent that has vanished is named
/// by its id.
pub struct NamePair {
    /// The name of what the card referred to before.
    pub from: String,
    /// The name of what the card refers to after.
    pub to: String,
}

/// The names of every referenced field of a card, before and after an edit.
pub struct ReferenceNames {
    /// The card type.
    pub card_type: NamePair,
    /// The status.
    pub status: NamePair,
    /// The priority.
    pub priority: NamePair,
    /// The assignee.
    pub assignee: NamePair,
    /// The reporter.
    pub reporter: NamePair,
    /// The resolution.
    pub resolution: NamePair,
}

/// A changelog row as plain values: the field, then the old id or value, the
/// old display text, the new id or value and the new display text.
pub type ChangeView = (Field, Option<Seq<char>>, Option<Seq<char>>, Option<Seq<char>>, Option<Seq<char>>);

/// The view of a changelog row.
pub open spec fn change_view(c: Change) -> ChangeView {
    (
        c.field,
        opt_string_view(c.from_value),
        opt_string_view(c.from_display),
        opt_string_view(c.to_value),
        opt_string_view(c.to_display),
    )
}

/// The views of a run of changelog rows.
pub open spec fn changes_view(cs: Seq<Change>) -> Seq<ChangeView> {
    cs.map_values(|c: Change| change_view(c))
}

/// A row whose raw value is what a human reads.
pub open spec fn plain_row(f: Field, from: Option<Seq<char>>, to: Option<Seq<char>>) -> ChangeView {
    (f, from, from, to, to)
}

/// An optional reference with the name it is shown by.
pub open spec fn named(id: Option<Seq<char>>, name: Seq<char>) -> (Option<Seq<char>>, Option<Seq<char>>) {
    match id {
        Some(i) => (Some(i), Some(name)),
        None => (None, None),
    }
}

/// A row for a referenced entity: ids in the value columns, names in the
/// display columns.
pub open spec fn reference_row(
    f: Field,
    from: Option<Seq<char>>,
    from_name: Seq<char>,
    to: Option<Seq<char>>,
    to_name: Seq<char>,
) -> ChangeView {
    (f, named(from, from_name).0, named(from, from_name).1, named(to, to_name).0, named(to, to_name).1)
}

/// A row if the field changed, nothing otherwise.
pub open spec fn row_if(changed: bool, row: ChangeView) -> Seq<ChangeView> {
    if changed {
        seq![row]
    } else {
        Seq::empty()
    }
}

/// Which way a rank change moved the card: a later key sorts lower.
pub open spec fn rank_direction(from: Seq<char>, to: Seq<char>) -> Seq<char> {
    if lex_lt(from, to) {
        "Ranked lower"@
    } else {
        "Ranked higher"@
    }
}

/// The rows of the edited text fields, after `rows`.
pub open spec fn head_rows(rows: Seq<ChangeView>, c: Card, n: Card) -> Seq<ChangeView> {
    rows + row_if(c.summary@ != n.summary@, plain_row(Field::Summary, Some(c.summary@), Some(n.summary@)))
        + row_if(
        opt_string_view(c.description) != opt_string_view(n.description),
        plain_row(Field::Description, opt_string_view(c.description), opt_string_view(n.description)),
    )
}

/// The rows of the referenced fields, after `rows`.
pub open spec fn reference_rows(rows: Seq<ChangeView>, c: Card, n: Card, names: ReferenceNames) -> Seq<
    ChangeView,
> {
    rows + row_if(
        c.type_id@ != n.type_id@,
        reference_row(Field::Type, Some(c.type_id@), names.card_type.from@, Some(n.type_id@), names.card_type.to@),
    ) + row_if(
        c.status_id@ != n.status_id@,
        reference_row(Field::Status, Some(c.status_id@), names.status.from@, Some(n.status_id@), names.status.to@),
    ) + row_if(
        opt_string_view(c.priority_id) != opt_string_view(n.priority_id),
        reference_row(
            Field::Priority,
            opt_string_view(c.priority_id),
            names.priority.from@,
            opt_string_view(n.priority_id),
            names.priority.to@,
        ),
    ) + row_if(
        opt_string_view(c.assignee_id) != opt_string_view(n.assignee_id),
        reference_row(
            Field::Assignee,
            opt_string_view(c.assignee_id),
            names.assignee.from@,
            opt_string_view(n.assignee_id),
            names.assignee.to@,
        ),
    ) + row_if(
        opt_string_view(c.reporter_id) != opt_string_view(n.reporter_id),
        reference_row(
            Field::Reporter,
            opt_string_view(c.reporter_id),
            names.reporter.from@,
            opt_string_view(n.reporter_id),
            names.reporter.to@,
        ),
    ) + row_if(
        opt_string_view(c.resolution_id) != opt_string_view(n.resolution_id),
        reference_row(
            Field::Resolution,
            opt_string_view(c.resolution_id),
            names.resolution.from@,
            opt_string_view(n.resolution_id),
            names.resolution.to@,
        ),
    )
}

/// The row of a rank change: the keys as values, the direction as the new
/// display text.
pub open spec fn rank_row(c: Card, n: Card) -> ChangeView {
    (Field::Rank, Some(c.rank@), None, Some(n.rank@), Some(rank_direction(c.rank@, n.rank@)))
}

/// The rows of the dates, the estimate, the rank and the archive and trash
/// marks, after `rows`.
pub open spec fn tail_rows(rows: Seq<ChangeView>, c: Card, n: Card) -> Seq<ChangeView> {
    rows + row_if(
        opt_string_view(c.resolved_at) != opt_string_view(n.resolved_at),
        plain_row(Field::ResolvedAt, opt_string_view(c.resolved_at), opt_string_view(n.resolved_at)),
    ) + row_if(
        opt_string_view(c.due_date) != opt_string_view(n.due_date),
        plain_row(Field::DueDate, opt_string_view(c.due_date), opt_string_view(n.due_date)),
    ) + row_if(
        opt_string_view(c.start_date) != opt_string_view(n.start_date),
        plain_row(Field::StartDate, opt_string_view(c.start_date), opt_string_view(n.start_date)),
    ) + row_if(
        opt_string_view(c.estimate) != opt_string_view(n.estimate),
        plain_row(Field::Estimate, opt_string_view(c.estimate), opt_string_view(n.estimate)),
    ) + row_if(c.rank@ != n.rank@, rank_row(c, n)) + row_if(
        opt_string_view(c.archived_at) != opt_string_view(n.archived_at),
        plain_row(Field::Archived, opt_string_view(c.archived_at), opt_string_view(n.archived_at)),
    ) + row_if(
        opt_string_view(c.deleted_at) != opt_string_view(n.deleted_at),
        plain_row(Field::Deleted, opt_string_view(c.deleted_at), opt_string_view(n.deleted_at)),
    )
}

/// The changelog of an edit from `c` to `n`: one row per field that differs,
/// in a fixed order. References show their names; a rank change shows its
/// direction rather than a key.
pub open spec fn diff_rows(c: Card, n: Card, names: ReferenceNames) -> Seq<ChangeView> {
    tail_rows(reference_rows(head_rows(Seq::empty(), c, n), c, n, names), c, n)
}

/// Whether an edit from `c` to `n` moved none of the fields the changelog
/// tracks.
pub open spec fn same_tracked_fields(c: Card, n: Card) -> bool {
    &&& c.summary@ == n.summary@
    &&& opt_string_view(c.description) == opt_string_view(n.description)
    &&& c.type_id@ == n.type_id@
    &&& c.status_id@ == n.status_id@
    &&& opt_string_view(c.priority_id) == opt_string_view(n.priority_id)
    &&& opt_string_view(c.assignee_id) == opt_string_view(n.assignee_id)
    &&& opt_string_view(c.reporter_id) == opt_string_view(n.reporter_id)
    &&& opt_string_view(c.resolution_id) == opt_string_view(n.resolution_id)
    &&& opt_string_view(c.resolved_at) == opt_string_view(n.resolved_at)
    &&& opt_string_view(c.due_date) == opt_string_view(n.due_date)
    &&& opt_string_view(c.start_date) == opt_string_view(n.start_date)
    &&& opt_string_view(c.estimate) == opt_string_view(n.estimate)
    &&& c.rank@ == n.rank@
    &&& opt_string_view(c.archived_at) == opt_string_view(n.archived_at)
    &&& opt_string_view(c.deleted_at) == opt_string_view(n.deleted_at)
}

/// An edit writes and records something exactly when it moved a tracked
/// field: the changelog of an edit is empty if and only if no tracked field
/// differs.
pub proof fn lemma_diff_empty_iff_unchanged(c: Card, n: Card, names: ReferenceNames)
    ensures
        diff_rows(c, n, names).len() == 0 <==> same_tracked_fields(c, n),
{
    let h = head_rows(Seq::empty(), c, n);
    let r = reference_rows(h, c, n, names);
    lemma_head_len(Seq::empty(), c, n);
    lemma_reference_len(h, c, n, names);
    lemma_tail_len(r, c, n);
}

proof fn lemma_head_len(rows: Seq<ChangeView>, c: Card, n: Card)
    ensures
        head_rows(rows, c, n).len() >= rows.len(),
        head_rows(rows, c, n).len() == rows.len() <==> (c.summary@ == n.summary@ && opt_string_view(
            c.description,
        ) == opt_string_view(n.description)),
{
}

proof fn lemma_reference_len(rows: Seq<ChangeView>, c: Card, n: Card, names: ReferenceNames)
    ensures
        reference_rows(rows, c, n, names).len() >= rows.len(),
        reference_rows(rows, c, n, names).len() == rows.len() <==> (c.type_id@ == n.type_id@ && c.status_id@
            == n.status_id@ && opt_string_view(c.priority_id) == opt_string_view(n.priority_id)
            && opt_string_view(c.assignee_id) == opt_string_view(n.assignee_id) && opt_string_view(
            c.reporter_id,
        ) == opt_string_view(n.reporter_id) && opt_string_view(c.resolution_id) == opt_string_view(
            n.resolution_id,
        )),
{
}

proof fn lemma_tail_len(rows: Seq<ChangeView>, c: Card, n: Card)
    ensures
        tail_rows(rows, c, n).len() >= rows.len(),
        tail_rows(rows, c, n).len() == rows.len() <==> (opt_string_view(c.resolved_at) == opt_string_view(
            n.resolved_at,
        ) && opt_string_view(c.due_date) == opt_string_view(n.due_date) && opt_string_view(c.start_date)
            == opt_string_view(n.start_date) && opt_string_view(c.estimate) == opt_string_view(n.estimate)
            && c.rank@ == n.rank@ && opt_string_view(c.archived_at) == opt_string_view(n.archived_at)
            && opt_string_view(c.deleted_at) == opt_string_view(n.deleted_at)),
{
}

/// Where a field stands in the changelog's order.
pub open spec fn field_rank(f: Field) -> int {
    match f {
        Field::Summary => 0,
        Field::Description => 1,
        Field::Type => 2,
        Field::Status => 3,
        Field::Priority => 4,
        Field::Assignee => 5,
        Field::Reporter => 6,
        Field::Resolution => 7,
        Field::ResolvedAt => 8,
        Field::DueDate => 9,
        Field::StartDate => 10,
        Field::Estimate => 11,
        Field::Rank => 12,
        Field::Archived => 13,
        Field::Deleted => 14,
        _ => 15,
    }
}

/// Whether the rows of `s` come in strictly increasing field order, all of
/// them before position `bound`.
#[verifier::opaque]
pub open spec fn ordered_below(s: Seq<ChangeView>, bound: int) -> bool {
    &&& forall|i: int, j: int| 0 <= i < j < s.len() ==> field_rank(#[trigger] s[i].0) < field_rank(#[trigger] s[j].0)
    &&& forall|i: int| 0 <= i < s.len() ==> field_rank(#[trigger] s[i].0) < bound
}

proof fn lemma_ordered_step(s: Seq<ChangeView>, changed: bool, row: ChangeView, bound: int)
    requires
        ordered_below(s, bound),
        field_rank(row.0) == bound,
    ensures
        ordered_below(s + row_if(changed, row), bound + 1),
{
    reveal(ordered_below);
    let t = s + row_if(changed, row);
    assert forall|i: int, j: int| 0 <= i < j < t.len() implies field_rank(#[trigger] t[i].0) < field_rank(#[trigger] t[j].0) by {
        if j >= s.len() {
            assert(t[j] == row);
            assert(t[i] == s[i]);
        } else {
            assert(t[i] == s[i] && t[j] == s[j]);
        }
    }
    assert forall|i: int| 0 <= i < t.len() implies field_rank(#[trigger] t[i].0) < bound + 1 by {
        if i >= s.len() {
            assert(t[i] == row);
        } else {
            assert(t[i] == s[i]);
        }
    }
}

proof fn lemma_head_ordered(rows: Seq<ChangeView>, c: Card, n: Card)
    requires
        ordered_below(rows, 0),
    ensures
        ordered_below(head_rows(rows, c, n), 2),
{
    let b0 = c.summary@ != n.summary@;
    let x0 = plain_row(Field::Summary, Some(c.summary@), Some(n.summary@));
    lemma_ordered_step(rows, b0, x0, 0);
    let b1 = opt_string_view(c.description) != opt_string_view(n.description);
    let x1 = plain_row(Field::Description, opt_string_view(c.description), opt_string_view(n.description));
    lemma_ordered_step(rows + row_if(b0, x0), b1, x1, 1);
}

proof fn lemma_reference_ordered(rows: Seq<ChangeView>, c: Card, n: Card, names: ReferenceNames)
    requires
        ordered_below(rows, 2),
    ensures
        ordered_below(reference_rows(rows, c, n, names), 8),
{
    let b2 = c.type_id@ != n.type_id@;
    let x2 = reference_row(Field::Type, Some(c.type_id@), names.card_type.from@, Some(n.type_id@), names.card_type.to@);
    lemma_ordered_step(rows, b2, x2, 2);
    let r2 = rows + row_if(b2, x2);
    let b3 = c.status_id@ != n.status_id@;
    let x3 = reference_row(Field::Status, Some(c.status_id@), names.status.from@, Some(n.status_id@), names.status.to@);
    lemma_ordered_step(r2, b3, x3, 3);
    let r3 = r2 + row_if(b3, x3);
    let b4 = opt_string_view(c.priority_id) != opt_string_view(n.priority_id);
    let x4 = reference_row(Field::Priority, opt_string_view(c.priority_id), names.priority.from@, opt_string_view(n.priority_id), names.priority.to@);
    lemma_ordered_step(r3, b4, x4, 4);
    let r4 = r3 + row_if(b4, x4);
    let b5 = opt_string_view(c.assignee_id) != opt_string_view(n.assignee_id);
    let x5 = reference_row(Field::Assignee, opt_string_view(c.assignee_id), names.assignee.from@, opt_string_view(n.assignee_id), names.assignee.to@);
    lemma_ordered_step(r4, b5, x5, 5);
    let r5 = r4 + row_if(b5, x5);
    let b6 = opt_string_view(c.reporter_id) != opt_string_view(n.reporter_id);
    let x6 = reference_row(Field::Reporter, opt_string_view(c.reporter_id), names.reporter.from@, opt_string_view(n.reporter_id), names.reporter.to@);
    lemma_ordered_step(r5, b6, x6, 6);
    let r6 = r5 + row_if(b6, x6);
    let b7 = opt_string_view(c.resolution_id) != opt_string_view(n.resolution_id);
    let x7 = reference_row(Field::Resolution, opt_string_view(c.resolution_id), names.resolution.from@, opt_string_view(n.resolution_id), names.resolution.to@);
    lemma_ordered_step(r6, b7, x7, 7);
}

proof fn lemma_tail_ordered(rows: Seq<ChangeView>, c: Card, n: Card)
    requires
        ordered_below(rows, 8),
    ensures
        ordered_below(tail_rows(rows, c, n), 15),
{
    let b8 = opt_string_view(c.resolved_at) != opt_string_view(n.resolved_at);
    let x8 = plain_row(Field::ResolvedAt, opt_string_view(c.resolved_at), opt_string_view(n.resolved_at));
    lemma_ordered_step(rows, b8, x8, 8);
    let r8 = rows + row_if(b8, x8);
    let b9 = opt_string_view(c.due_date) != opt_string_view(n.due_date);
    let x9 = plain_row(Field::DueDate, opt_string_view(c.due_date), opt_string_view(n.due_date));
    lemma_ordered_step(r8, b9, x9, 9);
    let r9 = r8 + row_if(b9, x9);
    let b10 = opt_string_view(c.start_date) != opt_string_view(n.start_date);
    let x10 = plain_row(Field::StartDate, opt_string_view(c.start_date), opt_string_view(n.start_date));
    lemma_ordered_step(r9, b10, x10, 10);
    let r10 = r9 + row_if(b10, x10);
    let b11 = opt_string_view(c.estimate) != opt_string_view(n.estimate);
    let x11 = plain_row(Field::Estimate, opt_string_view(c.estimate), opt_string_view(n.estimate));
    lemma_ordered_step(r10, b11, x11, 11);
    let r11 = r10 + row_if(b11, x11);
    let b12 = c.rank@ != n.rank@;
    lemma_ordered_step(r11, b12, rank_row(c, n), 12);
    let r12 = r11 + row_if(b12, rank_row(c, n));
    let b13 = opt_string_view(c.archived_at) != opt_string_view(n.archived_at);
    let x13 = plain_row(Field::Archived, opt_string_view(c.archived_at), opt_string_view(n.archived_at));
    lemma_ordered_step(r12, b13, x13, 13);
    let r13 = r12 + row_if(b13, x13);
    let b14 = opt_string_view(c.deleted_at) != opt_string_view(n.deleted_at);
    let x14 = plain_row(Field::Deleted, opt_string_view(c.deleted_at), opt_string_view(n.deleted_at));
    lemma_ordered_step(r13, b14, x14, 14);
}

/// Every row of a changelog names a different field, in a fixed order: one
/// edit records each field at most once.
pub proof fn lemma_diff_fields_distinct(c: Card, n: Card, names: ReferenceNames)
    ensures
        forall|i: int, j: int|
            0 <= i < j < diff_rows(c, n, names).len() ==> #[trigger] diff_rows(c, n, names)[i].0
                != #[trigger] diff_rows(c, n, names)[j].0,
{
    assert(ordered_below(Seq::<ChangeView>::empty(), 0)) by {
        reveal(ordered_below);
    }
    let h = head_rows(Seq::empty(), c, n);
    lemma_head_ordered(Seq::empty(), c, n);
    let r = reference_rows(h, c, n, names);
    lemma_reference_ordered(h, c, n, names);
    lemma_tail_ordered(r, c, n);
    let d = diff_rows(c, n, names);
    reveal(ordered_below);
    assert forall|i: int, j: int| 0 <= i < j < d.len() implies #[trigger] d[i].0 != #[trigger] d[j].0 by {
        assert(field_rank(d[i].0) < field_rank(d[j].0));
    }
}

fn opt_eq(a: &Option<String>, b: &Option<String>) -> (eq: bool)
    ensures
        eq == (opt_string_view(*a) == opt_string_view(*b)),
{
    match (a, b) {
        (Some(x), Some(y)) => str_eq(x.as_str(), y.as_str()),
        (None, None) => true,
        _ => false,
    }
}

fn named_pair(id: &Option<String>, name: &String) -> (p: Option<(String, String)>)
    ensures
        crate::domain::history::split_spec(p).0 == None::<String> <==> id is None,
        (opt_string_view(crate::domain::history::split_spec(p).0), opt_string_view(
            crate::domain::history::split_spec(p).1,
        )) == named(opt_string_view(*id), name@),
{
    match id {
        Some(i) => Some((i.clone(), name.clone())),
        None => None,
    }
}

fn record_if(out: &mut Vec<Change>, changed: bool, c: Change)
    ensures
        changes_view(final(out)@) == changes_view(old(out)@) + row_if(changed, change_view(c)),
{
    let ghost before = out@;
    if changed {
        out.push(c);
        assert(changes_view(out@) =~= changes_view(before) + seq![change_view(c)]);
    } else {
        assert(changes_view(out@) =~= changes_view(before) + Seq::<ChangeView>::empty());
    }
}

fn push_head_rows(out: &mut Vec<Change>, c: &Card, n: &Card)
    ensures
        changes_view(final(out)@) == head_rows(changes_view(old(out)@), *c, *n),
{
    record_if(
        out,
        !str_eq(c.summary.as_str(), n.summary.as_str()),
        Change::plain(Field::Summary, Some(c.summary.clone()), Some(n.summary.clone())),
    );
    record_if(
        out,
        !opt_eq(&c.description, &n.description),
        Change::plain(Field::Description, copy_opt(&c.description), copy_opt(&n.description)),
    );
}

fn push_reference_rows(out: &mut Vec<Change>, c: &Card, n: &Card, names: &ReferenceNames)
    ensures
        changes_view(final(out)@) == reference_rows(changes_view(old(out)@), *c, *n, *names),
{
    let from_type = Some(c.type_id.clone());
    let to_type = Some(n.type_id.clone());
    record_if(
        out,
        !str_eq(c.type_id.as_str(), n.type_id.as_str()),
        Change::reference(
            Field::Type,
            named_pair(&from_type, &names.card_type.from),
            named_pair(&to_type, &names.card_type.to),
        ),
    );
    let from_status = Some(c.status_id.clone());
    let to_status = Some(n.status_id.clone());
    record_if(
        out,
        !str_eq(c.status_id.as_str(), n.status_id.as_str()),
        Change::reference(
            Field::Status,
            named_pair(&from_status, &names.status.from),
            named_pair(&to_status, &names.status.to),
        ),
    );
    record_if(
        out,
        !opt_eq(&c.priority_id, &n.priority_id),
        Change::reference(
            Field::Priority,
            named_pair(&c.priority_id, &names.priority.from),
            named_pair(&n.priority_id, &names.priority.to),
        ),
    );
    record_if(
        out,
        !opt_eq(&c.assignee_id, &n.assignee_id),
        Change::reference(
            Field::Assignee,
            named_pair(&c.assignee_id, &names.assignee.from),
            named_pair(&n.assignee_id, &names.assignee.to),
        ),
    );
    record_if(
        out,
        !opt_eq(&c.reporter_id, &n.reporter_id),
        Change::reference(
            Field::Reporter,
            named_pair(&c.reporter_id, &names.reporter.from),
            named_pair(&n.reporter_id, &names.reporter.to),
        ),
    );
    record_if(
        out,
        !opt_eq(&c.resolution_id, &n.resolution_id),
        Change::reference(
            Field::Resolution,
            named_pair(&c.resolution_id, &names.resolution.from),
            named_pair(&n.resolution_id, &names.resolution.to),
        ),
    );
}

fn rank_change(c: &Card, n: &Card) -> (ch: Change)
    ensures
        change_view(ch) == rank_row(*c, *n),
{
    let direction = if str_lt(c.rank.as_str(), n.rank.as_str()) {
        "Ranked lower"
    } else {
        "Ranked higher"
    };
    Change {
        field: Field::Rank,
        from_value: Some(c.rank.to_string()),
        from_display: None,
        to_value: Some(n.rank.to_string()),
        to_display: Some(crate::text::copy_str(direction)),
    }
}

fn push_tail_rows(out: &mut Vec<Change>, c: &Card, n: &Card)
    ensures
        changes_view(final(out)@) == tail_rows(changes_view(old(out)@), *c, *n),
{
    record_if(
        out,
        !opt_eq(&c.resolved_at, &n.resolved_at),
        Change::plain(Field::ResolvedAt, copy_opt(&c.resolved_at), copy_opt(&n.resolved_at)),
    );
    record_if(
        out,
        !opt_eq(&c.due_date, &n.due_date),
        Change::plain(Field::DueDate, copy_opt(&c.due_date), copy_opt(&n.due_date)),
    );
    record_if(
        out,
        !opt_eq(&c.start_date, &n.start_date),
        Change::plain(Field::StartDate, copy_opt(&c.start_date), copy_opt(&n.start_date)),
    );
    record_if(
        out,
        !opt_eq(&c.estimate, &n.estimate),
        Change::plain(Field::Estimate, copy_opt(&c.estimate), copy_opt(&n.estimate)),
    );
    record_if(out, !str_eq(c.rank.as_str(), n.rank.as_str()), rank_change(c, n));
    record_if(
        out,
        !opt_eq(&c.archived_at, &n.archived_at),
        Change::plain(Field::Archived, copy_opt(&c.archived_at), copy_opt(&n.archived_at)),
    );
    record_if(
        out,
        !opt_eq(&c.deleted_at, &n.deleted_at),
        Change::plain(Field::Deleted, copy_opt(&c.deleted_at), copy_opt(&n.deleted_at)),
    );
}

/// The changelog of an edit from `current` to `next`, given the names the
/// referenced fields are shown by: one row per tracked field that differs,
/// in a fixed order. An empty changelog means nothing moved, and the edit
/// writes nothing.
pub fn diff(current: &Card, next: &Card, names: &ReferenceNames) -> (changes: Vec<Change>)
    ensures
        changes_view(changes@) == diff_rows(*current, *next, *names),
{
    let mut out: Vec<Change> = Vec::new();
    proof {
        assert(changes_view(out@) =~= Seq::<ChangeView>::empty());
    }
    push_head_rows(&mut out, current, next);
    push_reference_rows(&mut out, current, next, names);
    push_tail_rows(&mut out, current, next);
    out
}

/// What an update does once its changelog is known: whether it writes the row
/// and its history, and whether the transition's deferred post-functions run.
#[derive(Debug, Clone, Copy, PartialEq, Eq, Structural)]
pub struct UpdateEffects {
    /// Write the row and record the changelog.
    pub write: bool,
    /// Run the transition's deferred post-functions (comments, events).
    pub run_deferred: bool,
}

/// The effects of an update whose changelog has `change_count` rows and which
/// did or did not take a transition.
pub open spec fn effects_rule(change_count: nat, transition_taken: bool) -> UpdateEffects {
    UpdateEffects { write: change_count > 0, run_deferred: transition_taken }
}

/// The write gate of an update. An edit that moved no tracked field writes
/// nothing, not even `updated_at`; a transition is a deliberate act, so its
/// deferred post-functions run whether or not a field moved.
pub fn update_effects(changes: &Vec<Change>, transition_taken: bool) -> (e: UpdateEffects)
    ensures
        e == effects_rule(changes@.len(), transition_taken),
{
    UpdateEffects { write: changes.len() > 0, run_deferred: transition_taken }
}

/// An update that moves no tracked field writes nothing, and the transition it
/// took, if any, still runs its deferred post-functions; one that moves a
/// field writes.
pub proof fn lemma_noop_update_writes_nothing(c: Card, n: Card, names: ReferenceNames, transition_taken: bool)
    ensures
        effects_rule(diff_rows(c, n, names).len(), transition_taken).write <==> !same_tracked_fields(c, n),
        effects_rule(diff_rows(c, n, names).len(), transition_taken).run_deferred == transition_taken,
{
    lemma_diff_empty_iff_unchanged(c, n, names);
}

/// Where a card lands in another project, once the target's rows are read:
/// its new key, the type at its level, the status, priority and resolution
/// matched in the target, and a rank at the bottom of its new column.
pub struct Landing {
    /// The target project.
    pub project_id: String,
    /// The key minted in the target.
    pub key: String,
    /// The target's card type at the card's level.
    pub type_id: String,
    /// The target's status for the card.
    pub status_id: String,
    /// The target's priority of the same name, if any.
    pub priority_id: Option<String>,
    /// The resolution the card keeps, if any.
    pub resolution_id: Option<String>,
    /// The card's place in its new column.
    pub rank: Rank,
}

/// Whether `next` is `current` set down in another project: the landing's
/// fields written over it, the parent link cut when asked, and a resolution
/// date kept (or, for a newly resolved card, `now`) only while a resolution
/// is.
pub open spec fn is_landed(current: Card, landing: Landing, detach_parent: bool, now: Seq<char>, next: Card) -> bool {
    &&& next.id@ == current.id@
    &&& next.key@ == landing.key@
    &&& next.project_id@ == landing.project_id@
    &&& next.type_id@ == landing.type_id@
    &&& opt_string_view(next.parent_id) == (if detach_parent {
        None
    } else {
        opt_string_view(current.parent_id)
    })
    &&& next.summary@ == current.summary@
    &&& opt_string_view(next.description) == opt_string_view(current.description)
    &&& next.status_id@ == landing.status_id@
    &&& opt_string_view(next.priority_id) == opt_string_view(landing.priority_id)
    &&& opt_string_view(next.assignee_id) == opt_string_view(current.assignee_id)
    &&& opt_string_view(next.reporter_id) == opt_string_view(current.reporter_id)
    &&& next.creator_id@ == current.creator_id@
    &&& opt_string_view(next.resolution_id) == opt_string_view(landing.resolution_id)
    &&& opt_string_view(next.resolved_at) == (if landing.resolution_id is None {
        None
    } else if current.resolved_at is Some {
        opt_string_view(current.resolved_at)
    } else {
        Some(now)
    })
    &&& opt_string_view(next.due_date) == opt_string_view(current.due_date)
    &&& opt_string_view(next.start_date) == opt_string_view(current.start_date)
    &&& opt_string_view(next.estimate) == opt_string_view(current.estimate)
    &&& next.rank@ == landing.rank@
    &&& opt_string_view(next.archived_at) == opt_string_view(current.archived_at)
    &&& opt_string_view(next.deleted_at) == opt_string_view(current.deleted_at)
    &&& next.created_at@ == current.created_at@
    &&& next.updated_at@ == current.updated_at@
}

/// A card of a moving subtree, set down in the target project. Only the
/// subtree's root has its parent link cut (`detach_parent`): the links
/// inside the subtree join cards that all move.
pub fn landed(current: &Card, landing: Landing, detach_parent: bool, now: &str) -> (next: Card)
    ensures
        is_landed(*current, landing, detach_parent, now@, next),
{
    let resolved_at = if landing.resolution_id.is_none() {
        None
    } else {
        match &current.resolved_at {
            Some(at) => Some(at.clone()),
            None => Some(crate::text::copy_str(now)),
        }
    };
    Card {
        id: current.id.clone(),
        key: landing.key,
        project_id: landing.project_id,
        type_id: landing.type_id,
        parent_id: if detach_parent {
            None
        } else {
            copy_opt(&current.parent_id)
        },
        summary: current.summary.clone(),
        description: copy_opt(&current.description),
        status_id: landing.status_id,
        priority_id: landing.priority_id,
        assignee_id: copy_opt(&current.assignee_id),
        reporter_id: copy_opt(&current.reporter_id),
        creator_id: current.creator_id.clone(),
        resolution_id: landing.resolution_id,
        resolved_at,
        due_date: copy_opt(&current.due_date),
        start_date: copy_opt(&current.start_date),
        estimate: copy_opt(&current.estimate),
        rank: landing.rank,
        archived_at: copy_opt(&current.archived_at),
        deleted_at: copy_opt(&current.deleted_at),
        created_at: current.created_at.clone(),
        updated_at: current.updated_at.clone(),
    }
}

/// A move keeps `resolved_at` in lockstep with the resolution: the card
/// that lands has a resolution date exactly when it has a resolution, and a
/// resolution only when it lands in a done status.
pub proof fn lemma_move_keeps_resolution_lockstep(
    current: Card,
    landing: Landing,
    detach_parent: bool,
    now: Seq<char>,
    next: Card,
    landing_done: bool,
    same_name: Option<Seq<char>>,
    default: Option<Seq<char>>,
)
    requires
        is_landed(current, landing, detach_parent, now, next),
        opt_string_view(landing.resolution_id) == (if !landing_done {
            None
        } else if same_name is Some {
            same_name
        } else {
            default
        }),
    ensures
        (next.resolution_id is Some) == (next.resolved_at is Some),
        next.resolution_id is Some ==> landing_done,
{
}

/// The resolution a moving card keeps: none unless it lands in a done
/// status; there, the target's resolution of the same name if it has one,
/// else the target's default.
pub fn moved_resolution(landing_done: bool, same_name: Option<&str>, default: Option<&str>) -> (r: Option<
    String,
>)
    ensures
        opt_string_view(r) == (if !landing_done {
            None
        } else if same_name is Some {
            opt_str_view(same_name)
        } else {
            opt_str_view(default)
        }),
{
    if !landing_done {
        return None;
    }
    match same_name {
        Some(n) => Some(crate::text::copy_str(n)),
        None => match default {
            Some(d) => Some(crate::text::copy_str(d)),
            None => None,
        },
    }
}

/// The rows a move adds to the changelog after the field rows: the project
/// and the key, and, where the parent link was cut, the parent (shown by its
/// key).
pub open spec fn move_rows(
    rows: Seq<ChangeView>,
    current: Card,
    source_id: Seq<char>,
    source_key: Seq<char>,
    target_id: Seq<char>,
    target_key: Seq<char>,
    new_key: Seq<char>,
    detach_parent: bool,
    parent_key: Seq<char>,
) -> Seq<ChangeView> {
    rows + seq![
        (Field::Project, Some(source_id), Some(source_key), Some(target_id), Some(target_key)),
        plain_row(Field::Key, Some(current.key@), Some(new_key)),
    ] + row_if(
        detach_parent && current.parent_id is Some,
        reference_row(Field::Parent, opt_string_view(current.parent_id), parent_key, None, Seq::empty()),
    )
}

/// Appends the rows of a move to the changelog of its field changes.
pub fn move_changes(
    changes: Vec<Change>,
    current: &Card,
    source_id: &str,
    source_key: &str,
    target_id: &str,
    target_key: &str,
    new_key: &str,
    detach_parent: bool,
    parent_key: &str,
) -> (out: Vec<Change>)
    ensures
        changes_view(out@) == move_rows(
            changes_view(changes@),
            *current,
            source_id@,
            source_key@,
            target_id@,
            target_key@,
            new_key@,
            detach_parent,
            parent_key@,
        ),
{
    let mut out = changes;
    let ghost start = changes_view(out@);
    let project = Change::reference(
        Field::Project,
        Some((crate::text::copy_str(source_id), crate::text::copy_str(source_key))),
        Some((crate::text::copy_str(target_id), crate::text::copy_str(target_key))),
    );
    record_if(&mut out, true, project);
    let key = Change::plain(Field::Key, Some(current.key.clone()), Some(crate::text::copy_str(new_key)));
    record_if(&mut out, true, key);
    let name = crate::text::copy_str(parent_key);
    let parent = Change::reference(Field::Parent, named_pair(&current.parent_id, &name), None);
    record_if(&mut out, detach_parent && current.parent_id.is_some(), parent);
    proof {
        let p = (Field::Project, Some(source_id@), Some(source_key@), Some(target_id@), Some(target_key@));
        let k = plain_row(Field::Key, Some(current.key@), Some(new_key@));
        assert(start + row_if(true, p) + row_if(true, k) =~= start + seq![p, k]);
    }
    out
}

/// The refusal of a move whose target has no card type at the card's level.
pub open spec fn no_type_at_level_message(key: Seq<char>, level: int, target_key: Seq<char>) -> Seq<char> {
    key + " sits at hierarchy level "@ + signed_decimal(level) + ", and project "@ + target_key
        + " has no card type at that level. Add one to "@ + target_key
        + ", or move the cards one rung at a time."@
}

/// Refuses a move whose target has no card type at the card's level: the
/// level is what keeps a parent above its child, so it is not negotiable.
pub fn no_type_at_level(key: &str, level: i64, target_key: &str) -> (e: AppError)
    ensures
        e matches AppError::Conflict(m) && m@ == no_type_at_level_message(key@, level as int, target_key@),
{
    let mut m = crate::text::copy_str(key);
    m.append(" sits at hierarchy level ");
    let l = i64_to_decimal(level);
    m.append(l.as_str());
    m.append(", and project ");
    m.append(target_key);
    m.append(" has no card type at that level. Add one to ");
    m.append(target_key);
    m.append(", or move the cards one rung at a time.");
    AppError::Conflict(m)
}

/// Refuses a move into a project with no statuses at all.
pub fn no_statuses(target_key: &str) -> (e: AppError)
    ensures
        e matches AppError::Conflict(m) && m@ == "Project "@ + target_key@
            + " has no statuses, so nothing can be moved into it."@,
{
    let mut m = crate::text::copy_str("Project ");
    m.append(target_key);
    m.append(" has no statuses, so nothing can be moved into it.");
    AppError::Conflict(m)
}

/// A new card, as asked for.
pub struct NewCard {
    /// The card type; it fixes the card's level.
    pub type_id: String,
    /// The parent, for a card created inside another card's board.
    pub parent_id: Option<String>,
    /// The one-line title.
    pub summary: String,
    /// Markdown source.
    pub description: Option<String>,
    /// The status; `None` for the project's first column.
    pub status_id: Option<String>,
    /// The priority.
    pub priority_id: Option<String>,
    /// Who is doing it.
    pub assignee_id: Option<String>,
    /// Who asked for it; `None` for the creator.
    pub reporter_id: Option<String>,
    /// The due date.
    pub due_date: Option<String>,
    /// The start date.
    pub start_date: Option<String>,
    /// The estimate.
    pub estimate: Option<String>,
    /// Top or bottom of the column.
    pub placement: Placement,
}

/// Whether `card` is the row a creation inserts: what was asked for, in the
/// column `status_id`, with the minted id, key and rank, the creator as the
/// reporter unless another was named, the resolution it arrives with, live,
/// and created and updated `now`.
pub open spec fn is_created(
    new: NewCard,
    id: Seq<char>,
    key: Seq<char>,
    project_id: Seq<char>,
    status_id: Seq<char>,
    creator_id: Seq<char>,
    arrival: Resolved,
    rank: Seq<char>,
    now: Seq<char>,
    card: Card,
) -> bool {
    &&& card.id@ == id
    &&& card.key@ == key
    &&& card.project_id@ == project_id
    &&& card.type_id@ == new.type_id@
    &&& opt_string_view(card.parent_id) == opt_string_view(new.parent_id)
    &&& card.summary@ == new.summary@
    &&& opt_string_view(card.description) == opt_string_view(new.description)
    &&& card.status_id@ == status_id
    &&& opt_string_view(card.priority_id) == opt_string_view(new.priority_id)
    &&& opt_string_view(card.assignee_id) == opt_string_view(new.assignee_id)
    &&& opt_string_view(card.reporter_id) == (match new.reporter_id {
        Some(r) => Some(r@),
        None => Some(creator_id),
    })
    &&& card.creator_id@ == creator_id
    &&& opt_string_view(card.resolution_id) == opt_string_view(arrival.resolution_id)
    &&& opt_string_view(card.resolved_at) == opt_string_view(arrival.resolved_at)
    &&& opt_string_view(card.due_date) == opt_string_view(new.due_date)
    &&& opt_string_view(card.start_date) == opt_string_view(new.start_date)
    &&& opt_string_view(card.estimate) == opt_string_view(new.estimate)
    &&& card.rank@ == rank
    &&& card.archived_at is None
    &&& card.deleted_at is None
    &&& card.created_at@ == now
    &&& card.updated_at@ == now
}

/// The row a creation inserts, once the checks have passed and the column,
/// id, key, rank and arrival resolution are known.
pub fn created(
    new: &NewCard,
    id: &str,
    key: &str,
    project_id: &str,
    status_id: &str,
    creator_id: &str,
    arrival: Resolved,
    rank: Rank,
    now: &str,
) -> (card: Card)
    ensures
        is_created(*new, id@, key@, project_id@, status_id@, creator_id@, arrival, rank@, now@, card),
{
    let reporter = match &new.reporter_id {
        Some(r) => r.clone(),
        None => crate::text::copy_str(creator_id),
    };
    Card {
        id: crate::text::copy_str(id),
        key: crate::text::copy_str(key),
        project_id: crate::text::copy_str(project_id),
        type_id: new.type_id.clone(),
        parent_id: copy_opt(&new.parent_id),
        summary: new.summary.clone(),
        description: copy_opt(&new.description),
        status_id: crate::text::copy_str(status_id),
        priority_id: copy_opt(&new.priority_id),
        assignee_id: copy_opt(&new.assignee_id),
        reporter_id: Some(reporter),
        creator_id: crate::text::copy_str(creator_id),
        resolution_id: arrival.resolution_id,
        resolved_at: arrival.resolved_at,
        due_date: copy_opt(&new.due_date),
        start_date: copy_opt(&new.start_date),
        estimate: copy_opt(&new.estimate),
        rank,
        archived_at: None,
        deleted_at: None,
        created_at: crate::text::copy_str(now),
        updated_at: crate::text::copy_str(now),
    }
}

/// Refuses a creation with no status named in a project that has none.
pub fn no_first_column(project_key: &str) -> (e: AppError)
    ensures
        e matches AppError::Conflict(m) && m@ == "Project "@ + project_key@
            + " has no statuses, so a card has nowhere to go. Add a status first."@,
{
    let mut m = crate::text::copy_str("Project ");
    m.append(project_key);
    m.append(" has no statuses, so a card has nowhere to go. Add a status first.");
    AppError::Conflict(m)
}

/// Whether a patch names the field a changelog row is about. The
/// resolution date and the trash are never named by an edit.
pub open spec fn names_field(patch: CardPatch, f: Field) -> bool {
    match f {
        Field::Summary => patch.summary is Some,
        Field::Description => patch.description is Some,
        Field::Type => patch.type_id is Some,
        Field::Status => patch.status_id is Some,
        Field::Priority => patch.priority_id is Some,
        Field::Assignee => patch.assignee_id is Some,
        Field::Reporter => patch.reporter_id is Some,
        Field::Resolution => patch.resolution_id is Some,
        Field::DueDate => patch.due_date is Some,
        Field::StartDate => patch.start_date is Some,
        Field::Estimate => patch.estimate is Some,
        Field::Rank => patch.rank is Some,
        Field::Archived => patch.archived is Some,
        _ => false,
    }
}

/// Whether every row of `rows` is about a field `patch` names.
#[verifier::opaque]
pub open spec fn all_named(rows: Seq<ChangeView>, patch: CardPatch) -> bool {
    forall|i: int| 0 <= i < rows.len() ==> names_field(patch, #[trigger] rows[i].0)
}

proof fn lemma_named_step(rows: Seq<ChangeView>, changed: bool, row: ChangeView, patch: CardPatch)
    requires
        all_named(rows, patch),
        changed ==> names_field(patch, row.0),
    ensures
        all_named(rows + row_if(changed, row), patch),
{
    reveal(all_named);
    let t = rows + row_if(changed, row);
    assert forall|i: int| 0 <= i < t.len() implies names_field(patch, #[trigger] t[i].0) by {
        if i < rows.len() {
            assert(t[i] == rows[i]);
        } else {
            assert(t[i] == row);
        }
    }
}

proof fn lemma_head_named(rows: Seq<ChangeView>, c: Card, patch: CardPatch, now: Seq<char>, n: Card)
    requires
        all_named(rows, patch),
        is_patched(c, patch, now, n),
    ensures
        all_named(head_rows(rows, c, n), patch),
{
    let b0 = c.summary@ != n.summary@;
    let x0 = plain_row(Field::Summary, Some(c.summary@), Some(n.summary@));
    lemma_named_step(rows, b0, x0, patch);
    let b1 = opt_string_view(c.description) != opt_string_view(n.description);
    let x1 = plain_row(Field::Description, opt_string_view(c.description), opt_string_view(n.description));
    lemma_named_step(rows + row_if(b0, x0), b1, x1, patch);
}

proof fn lemma_reference_named(
    rows: Seq<ChangeView>,
    c: Card,
    patch: CardPatch,
    now: Seq<char>,
    n: Card,
    names: ReferenceNames,
)
    requires
        all_named(rows, patch),
        is_patched(c, patch, now, n),
    ensures
        all_named(reference_rows(rows, c, n, names), patch),
{
    let b2 = c.type_id@ != n.type_id@;
    let x2 = reference_row(Field::Type, Some(c.type_id@), names.card_type.from@, Some(n.type_id@), names.card_type.to@);
    lemma_named_step(rows, b2, x2, patch);
    let r2 = rows + row_if(b2, x2);
    let b3 = c.status_id@ != n.status_id@;
    let x3 = reference_row(Field::Status, Some(c.status_id@), names.status.from@, Some(n.status_id@), names.status.to@);
    lemma_named_step(r2, b3, x3, patch);
    let r3 = r2 + row_if(b3, x3);
    let b4 = opt_string_view(c.priority_id) != opt_string_view(n.priority_id);
    let x4 = reference_row(Field::Priority, opt_string_view(c.priority_id), names.priority.from@, opt_string_view(n.priority_id), names.priority.to@);
    lemma_named_step(r3, b4, x4, patch);
    let r4 = r3 + row_if(b4, x4);
    let b5 = opt_string_view(c.assignee_id) != opt_string_view(n.assignee_id);
    let x5 = reference_row(Field::Assignee, opt_string_view(c.assignee_id), names.assignee.from@, opt_string_view(n.assignee_id), names.assignee.to@);
    lemma_named_step(r4, b5, x5, patch);
    let r5 = r4 + row_if(b5, x5);
    let b6 = opt_string_view(c.reporter_id) != opt_string_view(n.reporter_id);
    let x6 = reference_row(Field::Reporter, opt_string_view(c.reporter_id), names.reporter.from@, opt_string_view(n.reporter_id), names.reporter.to@);
    lemma_named_step(r5, b6, x6, patch);
    let r6 = r5 + row_if(b6, x6);
    let b7 = opt_string_view(c.resolution_id) != opt_string_view(n.resolution_id);
    let x7 = reference_row(Field::Resolution, opt_string_view(c.resolution_id), names.resolution.from@, opt_string_view(n.resolution_id), names.resolution.to@);
    lemma_named_step(r6, b7, x7, patch);
}

proof fn lemma_tail_named(rows: Seq<ChangeView>, c: Card, patch: CardPatch, now: Seq<char>, n: Card)
    requires
        all_named(rows, patch),
        is_patched(c, patch, now, n),
    ensures
        all_named(tail_rows(rows, c, n), patch),
{
    let b8 = opt_string_view(c.resolved_at) != opt_string_view(n.resolved_at);
    let x8 = plain_row(Field::ResolvedAt, opt_string_view(c.resolved_at), opt_string_view(n.resolved_at));
    lemma_named_step(rows, b8, x8, patch);
    let r8 = rows + row_if(b8, x8);
    let b9 = opt_string_view(c.due_date) != opt_string_view(n.due_date);
    let x9 = plain_row(Field::DueDate, opt_string_view(c.due_date), opt_string_view(n.due_date));
    lemma_named_step(r8, b9, x9, patch);
    let r9 = r8 + row_if(b9, x9);
    let b10 = opt_string_view(c.start_date) != opt_string_view(n.start_date);
    let x10 = plain_row(Field::StartDate, opt_string_view(c.start_date), opt_string_view(n.start_date));
    lemma_named_step(r9, b10, x10, patch);
    let r10 = r9 + row_if(b10, x10);
    let b11 = opt_string_view(c.estimate) != opt_string_view(n.estimate);
    let x11 = plain_row(Field::Estimate, opt_string_view(c.estimate), opt_string_view(n.estimate));
    lemma_named_step(r10, b11, x11, patch);
    let r11 = r10 + row_if(b11, x11);
    let b12 = c.rank@ != n.rank@;
    lemma_named_step(r11, b12, rank_row(c, n), patch);
    let r12 = r11 + row_if(b12, rank_row(c, n));
    let b13 = opt_string_view(c.archived_at) != opt_string_view(n.archived_at);
    let x13 = plain_row(Field::Archived, opt_string_view(c.archived_at), opt_string_view(n.archived_at));
    lemma_named_step(r12, b13, x13, patch);
    let r13 = r12 + row_if(b13, x13);
    let b14 = opt_string_view(c.deleted_at) != opt_string_view(n.deleted_at);
    let x14 = plain_row(Field::Deleted, opt_string_view(c.deleted_at), opt_string_view(n.deleted_at));
    lemma_named_step(r13, b14, x14, patch);
}

/// An edit records only what it named: every row of the changelog of a
/// patch is about a field the patch names. Naming a field is not changing
/// it, so a named field that kept its value has no row either.
pub proof fn lemma_patch_records_only_named_fields(
    current: Card,
    patch: CardPatch,
    now: Seq<char>,
    next: Card,
    names: ReferenceNames,
)
    requires
        is_patched(current, patch, now, next),
    ensures
        forall|i: int|
            0 <= i < diff_rows(current, next, names).len() ==> names_field(
                patch,
                #[trigger] diff_rows(current, next, names)[i].0,
            ),
{
    let e: Seq<ChangeView> = Seq::empty();
    assert(all_named(e, patch)) by {
        reveal(all_named);
    }
    lemma_head_named(e, current, patch, now, next);
    let h = head_rows(e, current, next);
    lemma_reference_named(h, current, patch, now, next, names);
    lemma_tail_named(reference_rows(h, current, next, names), current, patch, now, next);
    reveal(all_named);
}

/// Whether `next` is `card` with only its trash date changed, to `deleted_at`.
pub open spec fn is_trash_moved(card: Card, deleted_at: Option<Seq<char>>, next: Card) -> bool {
    &&& opt_string_view(next.deleted_at) == deleted_at
    &&& next.id@ == card.id@
    &&& next.key@ == card.key@
    &&& next.project_id@ == card.project_id@
    &&& next.type_id@ == card.type_id@
    &&& opt_string_view(next.parent_id) == opt_string_view(card.parent_id)
    &&& next.summary@ == card.summary@
    &&& opt_string_view(next.description) == opt_string_view(card.description)
    &&& next.status_id@ == card.status_id@
    &&& opt_string_view(next.priority_id) == opt_string_view(card.priority_id)
    &&& opt_string_view(next.assignee_id) == opt_string_view(card.assignee_id)
    &&& opt_string_view(next.reporter_id) == opt_string_view(card.reporter_id)
    &&& next.creator_id@ == card.creator_id@
    &&& opt_string_view(next.resolution_id) == opt_string_view(card.resolution_id)
    &&& opt_string_view(next.resolved_at) == opt_string_view(card.resolved_at)
    &&& opt_string_view(next.due_date) == opt_string_view(card.due_date)
    &&& opt_string_view(next.start_date) == opt_string_view(card.start_date)
    &&& opt_string_view(next.estimate) == opt_string_view(card.estimate)
    &&& next.rank@ == card.rank@
    &&& opt_string_view(next.archived_at) == opt_string_view(card.archived_at)
    &&& next.created_at@ == card.created_at@
    &&& next.updated_at@ == card.updated_at@
}

/// Moves a card into the trash (`to_trash`), dated `now`, or brings it back
/// out. A card already where it is asked to go is left alone: `None`, and
/// nothing is written.
pub fn trash_move(card: &Card, to_trash: bool, now: &str) -> (next: Option<Card>)
    ensures
        (card.deleted_at is Some) == to_trash <==> next is None,
        next matches Some(n) ==> is_trash_moved(*card, if to_trash {
            Some(now@)
        } else {
            None
        }, n),
{
    if card.is_deleted() == to_trash {
        return None;
    }
    Some(Card {
        id: card.id.clone(),
        key: card.key.clone(),
        project_id: card.project_id.clone(),
        type_id: card.type_id.clone(),
        parent_id: copy_opt(&card.parent_id),
        summary: card.summary.clone(),
        description: copy_opt(&card.description),
        status_id: card.status_id.clone(),
        priority_id: copy_opt(&card.priority_id),
        assignee_id: copy_opt(&card.assignee_id),
        reporter_id: copy_opt(&card.reporter_id),
        creator_id: card.creator_id.clone(),
        resolution_id: copy_opt(&card.resolution_id),
        resolved_at: copy_opt(&card.resolved_at),
        due_date: copy_opt(&card.due_date),
        start_date: copy_opt(&card.start_date),
        estimate: copy_opt(&card.estimate),
        rank: card.rank.clone(),
        archived_at: copy_opt(&card.archived_at),
        deleted_at: if to_trash {
            Some(crate::text::copy_str(now))
        } else {
            None
        },
        created_at: card.created_at.clone(),
        updated_at: card.updated_at.clone(),
    })
}

/// The trash is reversible and leaves one changelog row each way: trashing
/// a live card records exactly a `Deleted` row, and restoring it gives back
/// a card whose tracked fields are all as they were.
pub proof fn lemma_trash_round_trip(
    card: Card,
    now: Seq<char>,
    trashed: Card,
    restored: Card,
    names: ReferenceNames,
)
    requires
        card.deleted_at is None,
        is_trash_moved(card, Some(now), trashed),
        is_trash_moved(trashed, None, restored),
    ensures
        diff_rows(card, trashed, names) == seq![plain_row(Field::Deleted, None, Some(now))],
        same_tracked_fields(card, restored),
{
    let e: Seq<ChangeView> = Seq::empty();
    let h = head_rows(e, card, trashed);
    lemma_head_len(e, card, trashed);
    lemma_reference_len(h, card, trashed, names);
    let r = reference_rows(h, card, trashed, names);
    assert(r.len() == 0);
    assert(r =~= e);
    assert(tail_rows(r, card, trashed) =~= seq![plain_row(Field::Deleted, None, Some(now))]);
}

} // verus!
