//! The card tree's guards: one uniform parent pointer is a graph, and a graph
//! can hold a cycle, so every reparent is checked before it is written.
//!
//! The walks themselves read the database; what they find is handed to
//! [`check_reparent`], which decides.

use vstd::prelude::*;

use crate::error::{AppError, AppResult};
use crate::text::{i64_to_decimal, signed_decimal, str_eq, usize_to_decimal, decimal};

verus! {

/// The deepest a card tree may go, counting the root as 1.
pub const MAX_DEPTH: usize = 5;

/// How far a recursive walk of the tree goes before it concludes the data is
/// corrupt. Well above [`MAX_DEPTH`] on purpose: it is not the product rule
/// but the backstop that keeps a cycle already in the table from hanging a
/// read.
pub const WALK_LIMIT: i64 = 64;

/// The refusal of an ancestor walk that ran past [`WALK_LIMIT`].
pub open spec fn cycle_message(card_id: Seq<char>) -> Seq<char> {
    "card "@ + card_id + " has an ancestor chain longer than 64: the tree contains a cycle"@
}

/// Checks the ids an ancestor walk from `card_id` returned: the walk is
/// bounded, so more ids than [`WALK_LIMIT`] can only mean a cycle in the
/// table, which is an internal error rather than an answer.
pub fn check_ancestor_walk(card_id: &str, ids: Vec<String>) -> (res: AppResult<Vec<String>>)
    ensures
        ids.len() <= WALK_LIMIT ==> (res matches Ok(v) && v@ == ids@),
        ids.len() > WALK_LIMIT ==> (res matches Err(AppError::Internal(m)) && m@ == cycle_message(card_id@)),
{
    if ids.len() > 64 {
        let mut m = "card ".to_owned();
        m.append(card_id);
        m.append(" has an ancestor chain longer than 64: the tree contains a cycle");
        return Err(AppError::Internal(m));
    }
    Ok(ids)
}

/// The height of a subtree from what the bounded walk reported: its deepest
/// level, or 1 (the card alone) when the walk reported none or a level that
/// is not a size.
pub fn subtree_height_of(max_depth: Option<i64>) -> (h: usize)
    ensures
        h == (match max_depth {
            Some(d) => if 0 <= d <= usize::MAX {
                d as usize
            } else {
                1
            },
            None => 1,
        }),
{
    match max_depth {
        Some(d) => if d >= 0 && (d as u64) <= (usize::MAX as u64) {
            d as usize
        } else {
            1
        },
        None => 1,
    }
}

/// What the reparent guard needs to know of a card.
#[derive(Debug, Clone)]
pub struct TreeCard {
    /// The card's id.
    pub id: String,
    /// The project the card belongs to.
    pub project_id: String,
    /// The card's human key, such as `ATL-12`.
    pub key: String,
}

/// Whether `id` is one of `ids`.
pub open spec fn listed(ids: Seq<Seq<char>>, id: Seq<char>) -> bool {
    exists|i: int| 0 <= i < ids.len() && ids[i] == id
}

/// The verdict on hanging `card` under `parent`, given the ids on the walk from
/// the parent up to the root (the parent included), the two cards' hierarchy
/// levels, and the height of the subtree that travels with the card. The first
/// rule broken decides the message.
pub open spec fn reparent_rule(
    card: (Seq<char>, Seq<char>, Seq<char>),
    parent: (Seq<char>, Seq<char>, Seq<char>),
    ancestors: Seq<Seq<char>>,
    child_level: int,
    parent_level: int,
    height: int,
) -> Result<(), Seq<char>> {
    let (card_id, card_project, card_key) = card;
    let (parent_id, parent_project, parent_key) = parent;
    if parent_id == card_id {
        Err("A card cannot be its own parent."@)
    } else if parent_project != card_project {
        Err(card_key + " and "@ + parent_key
            + " are in different projects. Move the card to the other project first."@)
    } else if listed(ancestors, card_id) {
        Err(card_key + " is already somewhere above "@ + parent_key
            + " in the hierarchy, so this would make a loop."@)
    } else if parent_level <= child_level {
        Err(parent_key + " sits at hierarchy level "@ + signed_decimal(parent_level) + " and "@
            + card_key + " at level "@ + signed_decimal(child_level)
            + ". A parent must be at a higher level than its child."@)
    } else if ancestors.len() + height > MAX_DEPTH {
        Err("That would nest cards "@ + decimal(ancestors.len() + height)
            + " levels deep; the limit is 5."@)
    } else {
        Ok(())
    }
}

/// The plain view of a card for [`reparent_rule`].
pub open spec fn tree_view(c: TreeCard) -> (Seq<char>, Seq<char>, Seq<char>) {
    (c.id@, c.project_id@, c.key@)
}

/// The ids of a walk, as text.
pub open spec fn ids_view(v: Seq<String>) -> Seq<Seq<char>> {
    v.map_values(|s: String| s@)
}

/// Decides whether `card` may move under `new_parent`: not onto itself, not
/// across projects, not under one of its own descendants, only under a card at
/// a higher level, and never deeper than [`MAX_DEPTH`]. Every refusal is a
/// `Conflict` with a sentence naming the rule.
pub fn check_reparent(
    card: &TreeCard,
    new_parent: &TreeCard,
    ancestors: &Vec<String>,
    child_level: i64,
    parent_level: i64,
    height: usize,
) -> (res: AppResult<()>)
    requires
        ancestors.len() + height <= usize::MAX,
    ensures
        match reparent_rule(
            tree_view(*card),
            tree_view(*new_parent),
            ids_view(ancestors@),
            child_level as int,
            parent_level as int,
            height as int,
        ) {
            Ok(_) => res is Ok,
            Err(m) => res matches Err(AppError::Conflict(e)) && e@ == m,
        },
{
    if str_eq(new_parent.id.as_str(), card.id.as_str()) {
        proof {
            reveal_strlit("A card cannot be its own parent.");
        }
        return Err(AppError::Conflict("A card cannot be its own parent.".to_owned()));
    }
    if !str_eq(new_parent.project_id.as_str(), card.project_id.as_str()) {
        let mut m = card.key.clone();
        m.append(" and ");
        m.append(new_parent.key.as_str());
        m.append(" are in different projects. Move the card to the other project first.");
        return Err(AppError::Conflict(m));
    }
    let mut i: usize = 0;
    while i < ancestors.len()
        invariant
            0 <= i <= ancestors.len(),
            new_parent.id@ != card.id@,
            new_parent.project_id@ == card.project_id@,
            forall|j: int| 0 <= j < i ==> ancestors@[j]@ != card.id@,
        decreases ancestors.len() - i,
    {
        if str_eq(ancestors[i].as_str(), card.id.as_str()) {
            proof {
                assert(ids_view(ancestors@).len() == ancestors@.len());
                assert(ids_view(ancestors@)[i as int] == card.id@);
                assert(listed(ids_view(ancestors@), card.id@));
            }
            let mut m = card.key.clone();
            m.append(" is already somewhere above ");
            m.append(new_parent.key.as_str());
            m.append(" in the hierarchy, so this would make a loop.");
            return Err(AppError::Conflict(m));
        }
        i = i + 1;
    }
    proof {
        assert(!listed(ids_view(ancestors@), card.id@)) by {
            if listed(ids_view(ancestors@), card.id@) {
                let j = choose|j: int| 0 <= j < ids_view(ancestors@).len() && ids_view(ancestors@)[j] == card.id@;
                assert(ancestors@[j]@ == card.id@);
            }
        }
    }
    if parent_level <= child_level {
        let mut m = new_parent.key.clone();
        m.append(" sits at hierarchy level ");
        let p = i64_to_decimal(parent_level);
        m.append(p.as_str());
        m.append(" and ");
        m.append(card.key.as_str());
        m.append(" at level ");
        let c = i64_to_decimal(child_level);
        m.append(c.as_str());
        m.append(". A parent must be at a higher level than its child.");
        return Err(AppError::Conflict(m));
    }
    let depth = ancestors.len() + height;
    if depth > MAX_DEPTH {
        let mut m = "That would nest cards ".to_owned();
        let d = usize_to_decimal(depth);
        m.append(d.as_str());
        m.append(" levels deep; the limit is 5.");
        return Err(AppError::Conflict(m));
    }
    Ok(())
}

} // verus!
