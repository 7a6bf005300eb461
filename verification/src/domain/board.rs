//! The board rules that need no database: the scope a board renders, how its
//! rows are grouped into swimlanes, how text is quoted into a query, and what
//! a saved board may be called.

use vstd::prelude::*;

use crate::domain::StatusCategory;
use crate::error::{AppError, AppResult};
use crate::text::{
    chars_of, check_name, debug_quote, debug_quoted, name_rule, opt_str_view, opt_string_view, push_char, str_eq,
};

verus! {

/// The longest a saved board name may be, in characters.
pub const MAX_BOARD_NAME: usize = 120;

/// Which slice of the tree a board renders.
#[derive(Debug, Clone)]
pub enum BoardScope {
    /// The project's top-level cards.
    Root,
    /// One card's direct children: the nested board.
    Child {
        /// The parent card's id.
        id: String,
        /// The parent card's key.
        key: String,
    },
}

impl BoardScope {
    /// The `(mode, parent_id)` pair the fixed scope queries branch on: `root`
    /// with no id, or `child` with the parent card's id.
    pub fn mode_and_id(&self) -> (r: (&'static str, Option<&str>))
        ensures
            match *self {
                BoardScope::Root => r.0@ == "root"@ && r.1 is None,
                BoardScope::Child { id, .. } => r.0@ == "child"@ && (r.1 matches Some(i) && i@ == id@),
            },
    {
        match self {
            BoardScope::Root => ("root", None),
            BoardScope::Child { id, .. } => ("child", Some(id.as_str())),
        }
    }
}

/// How a board groups its rows into swimlanes.
#[derive(Debug, Clone, Copy, PartialEq, Eq, Structural)]
pub enum Swimlane {
    /// No swimlanes: the flat set of columns only. Spelled `none`.
    Flat,
    /// One lane per assignee, plus an "Unassigned" lane.
    Assignee,
    /// One lane per parent card, plus a "No parent" lane.
    Parent,
}

impl Default for Swimlane {
    fn default() -> (s: Self)
        ensures
            s == Swimlane::Flat,
    {
        Swimlane::Flat
    }
}

/// The swimlane a query parameter asks for, or the refusal's message.
pub open spec fn swimlane_rule(value: Option<Seq<char>>) -> Result<Swimlane, Seq<char>> {
    match value {
        None => Ok(Swimlane::Flat),
        Some(v) => if v == "none"@ || v == ""@ {
            Ok(Swimlane::Flat)
        } else if v == "assignee"@ {
            Ok(Swimlane::Assignee)
        } else if v == "parent"@ {
            Ok(Swimlane::Parent)
        } else {
            Err(debug_quoted(v) + " is not a swimlane; use none, assignee or parent."@)
        },
    }
}

impl Swimlane {
    /// Parses the `swimlane` query parameter; absent means [`Swimlane::Flat`].
    ///
    /// # Errors
    ///
    /// [`AppError::Validation`] naming the three legal values for anything else.
    pub fn from_query(value: Option<&str>) -> (res: AppResult<Self>)
        ensures
            match swimlane_rule(crate::text::opt_str_view(value)) {
                Ok(s) => res matches Ok(r) && r == s,
                Err(m) => res matches Err(AppError::Validation(e)) && e@ == m,
            },
    {
        match value {
            None => Ok(Swimlane::Flat),
            Some(v) => {
                if str_eq(v, "none") || str_eq(v, "") {
                    Ok(Swimlane::Flat)
                } else if str_eq(v, "assignee") {
                    Ok(Swimlane::Assignee)
                } else if str_eq(v, "parent") {
                    Ok(Swimlane::Parent)
                } else {
                    let mut msg = debug_quote(v);
                    msg.append(" is not a swimlane; use none, assignee or parent.");
                    Err(AppError::Validation(msg))
                }
            },
        }
    }
}

/// A card's children summarised by status category: the mini-board preview.
#[derive(Debug, Clone, Copy, PartialEq, Eq, Structural)]
pub struct ChildRollup {
    /// Total live children.
    pub total: i64,
    /// Children in a To Do status.
    pub todo: i64,
    /// Children in an In Progress status.
    pub in_progress: i64,
    /// Children in a Done status.
    pub done: i64,
}

/// A column's status header: enough for the frontend to label and colour it.
#[derive(Debug, Clone)]
pub struct BoardColumnStatus {
    /// The status id.
    pub id: String,
    /// The status name.
    pub name: String,
    /// Which of the three categories it falls into.
    pub category: StatusCategory,
}

/// One character of a double-quoted query string: a backslash and a double
/// quote are escaped with a backslash, everything else stands for itself.
pub open spec fn escaped_char(c: char) -> Seq<char> {
    if c == '\\' {
        seq!['\\', '\\']
    } else if c == '"' {
        seq!['\\', '"']
    } else {
        seq![c]
    }
}

/// `s` escaped for a double-quoted query string.
pub open spec fn escaped(s: Seq<char>) -> Seq<char>
    decreases s.len(),
{
    if s.len() == 0 {
        Seq::empty()
    } else {
        escaped(s.drop_last()) + escaped_char(s.last())
    }
}

/// Escapes a value for a double-quoted query string.
pub fn aql_escape(text: &str) -> (out: String)
    ensures
        out@ == escaped(text@),
{
    let v = chars_of(text);
    let mut out = String::new();
    let mut i: usize = 0;
    while i < v.len()
        invariant
            i <= v.len(),
            v@ == text@,
            out@ == escaped(v@.take(i as int)),
        decreases v.len() - i,
    {
        let c = v[i];
        if c == '\\' {
            push_char(&mut out, '\\');
            push_char(&mut out, '\\');
        } else if c == '"' {
            push_char(&mut out, '\\');
            push_char(&mut out, '"');
        } else {
            push_char(&mut out, c);
        }
        assert(v@.take(i + 1).drop_last() == v@.take(i as int));
        assert(out@ == escaped(v@.take(i as int)) + escaped_char(c));
        i = i + 1;
    }
    assert(v@.take(v@.len() as int) == v@);
    out
}

/// The saved board name rule: trimmed, non-empty, at most [`MAX_BOARD_NAME`].
pub open spec fn board_name_rule(s: Seq<char>) -> Result<Seq<char>, Seq<char>> {
    name_rule(
        s,
        MAX_BOARD_NAME as nat,
        false,
        "Board name must not be empty."@,
        "Board name must be at most 120 characters long."@,
        Seq::empty(),
    )
}

/// Checks a saved board name, returning it trimmed.
pub fn validate_board_name(name: &str) -> (res: AppResult<String>)
    ensures
        crate::error::validated(res, board_name_rule(name@)),
{
    check_name(
        name,
        MAX_BOARD_NAME,
        false,
        "Board name must not be empty.",
        "Board name must be at most 120 characters long.",
        "",
    )
}

/// The column a status id lands in: the last status with that id, if any.
pub open spec fn column_of(statuses: Seq<Seq<char>>, id: Seq<char>) -> Option<int>
    decreases statuses.len(),
{
    if statuses.len() == 0 {
        None
    } else if statuses.last() == id {
        Some(statuses.len() - 1)
    } else {
        column_of(statuses.drop_last(), id)
    }
}

/// The board's columns as card positions: one column per status, holding, in
/// order, the positions of the kept cards whose status is that column's.
/// A card whose status is not among the statuses is dropped.
pub open spec fn bucket_rule(statuses: Seq<Seq<char>>, cards: Seq<Seq<char>>, keep: Seq<bool>) -> Seq<Seq<int>>
    decreases cards.len(),
{
    if cards.len() == 0 {
        Seq::new(statuses.len(), |i: int| Seq::<int>::empty())
    } else {
        let before = bucket_rule(statuses, cards.drop_last(), keep);
        let k = cards.len() - 1;
        if k < keep.len() && keep[k] {
            match column_of(statuses, cards[k]) {
                Some(i) => before.update(i, before[i].push(k)),
                None => before,
            }
        } else {
            before
        }
    }
}

proof fn lemma_bucket_step(statuses: Seq<Seq<char>>, cards: Seq<Seq<char>>, keep: Seq<bool>, k: int)
    requires
        0 <= k < cards.len(),
        keep.len() == cards.len(),
    ensures
        ({
            let b = bucket_rule(statuses, cards.take(k), keep);
            bucket_rule(statuses, cards.take(k + 1), keep) == if keep[k] {
                match column_of(statuses, cards[k]) {
                    Some(i) => b.update(i, b[i].push(k)),
                    None => b,
                }
            } else {
                b
            }
        }),
{
    let c1 = cards.take(k + 1);
    assert(c1.drop_last() == cards.take(k));
    assert(c1[c1.len() - 1] == cards[k]);
    assert(c1.len() - 1 == k);
}

proof fn lemma_column_of_bounds(statuses: Seq<Seq<char>>, id: Seq<char>)
    ensures
        column_of(statuses, id) matches Some(i) ==> 0 <= i < statuses.len() && statuses[i] == id,
    decreases statuses.len(),
{
    if statuses.len() > 0 && statuses.last() != id {
        lemma_column_of_bounds(statuses.drop_last(), id);
    }
}

/// Every card lands where it belongs and nowhere else: a card is in column
/// `i` exactly when it is kept and its status is the `i`th, and each column
/// keeps the cards' order.
pub proof fn lemma_bucket_places_each_card(statuses: Seq<Seq<char>>, cards: Seq<Seq<char>>, keep: Seq<bool>)
    requires
        keep.len() == cards.len(),
    ensures
        bucket_rule(statuses, cards, keep).len() == statuses.len(),
        forall|i: int, k: int|
            0 <= i < statuses.len() ==> (#[trigger] bucket_rule(statuses, cards, keep)[i].contains(k) <==> (0 <= k
                < cards.len() && keep[k] && column_of(statuses, cards[k]) == Some(i))),
        forall|i: int, a: int, b: int|
            0 <= i < statuses.len() && 0 <= a < b < bucket_rule(statuses, cards, keep)[i].len() ==> #[trigger] bucket_rule(
                statuses,
                cards,
                keep,
            )[i][a] < #[trigger] bucket_rule(statuses, cards, keep)[i][b],
    decreases cards.len(),
{
    lemma_bucket_len(statuses, cards, keep);
    if cards.len() > 0 {
        let rest = cards.drop_last();
        let kr = keep.drop_last();
        let k = cards.len() - 1;
        lemma_bucket_places_each_card(statuses, rest, kr);
        assert(bucket_rule(statuses, rest, kr) == bucket_rule(statuses, rest, keep)) by {
            lemma_bucket_keep_prefix(statuses, rest, kr, keep);
        }
        lemma_column_of_bounds(statuses, cards[k]);
        let before = bucket_rule(statuses, rest, keep);
        let after = bucket_rule(statuses, cards, keep);
        assert forall|i: int, j: int| 0 <= i < statuses.len() implies (#[trigger] after[i].contains(j) <==> (0 <= j
            < cards.len() && keep[j] && column_of(statuses, cards[j]) == Some(i))) by {
            assert forall|j2: int| 0 <= j2 < rest.len() implies rest[j2] == cards[j2] && kr[j2] == keep[j2] by {}
            if after[i].contains(j) {
                let w = choose|w: int| 0 <= w < after[i].len() && after[i][w] == j;
                if keep[k] && column_of(statuses, cards[k]) == Some(i) && w == before[i].len() {
                } else {
                    assert(before[i].contains(j));
                }
            }
            if 0 <= j < cards.len() && keep[j] && column_of(statuses, cards[j]) == Some(i) {
                if j == k {
                    assert(after[i][before[i].len() as int] == k);
                } else {
                    assert(rest[j] == cards[j] && kr[j] == keep[j]);
                    assert(before[i].contains(j));
                    let w = choose|w: int| 0 <= w < before[i].len() && before[i][w] == j;
                    assert(after[i][w] == j);
                }
            }
        }
        assert forall|i: int, a: int, b: int| 0 <= i < statuses.len() && 0 <= a < b < after[i].len() implies #[trigger] after[i][a]
            < #[trigger] after[i][b] by {
            if b < before[i].len() {
                assert(after[i][a] == before[i][a] && after[i][b] == before[i][b]);
            } else {
                assert(after[i][b] == k);
                assert(after[i][a] == before[i][a]);
                assert(before[i].contains(before[i][a]));
            }
        }
    }
}

proof fn lemma_bucket_keep_prefix(statuses: Seq<Seq<char>>, cards: Seq<Seq<char>>, short: Seq<bool>, long: Seq<bool>)
    requires
        short.len() == cards.len(),
        long.len() >= short.len(),
        forall|j: int| 0 <= j < short.len() ==> short[j] == long[j],
    ensures
        bucket_rule(statuses, cards, short) == bucket_rule(statuses, cards, long),
    decreases cards.len(),
{
    if cards.len() > 0 {
        lemma_bucket_keep_prefix(statuses, cards.drop_last(), short.drop_last(), long);
        lemma_bucket_keep_prefix(statuses, cards.drop_last(), short.drop_last(), short);
    }
}

proof fn lemma_bucket_len(statuses: Seq<Seq<char>>, cards: Seq<Seq<char>>, keep: Seq<bool>)
    ensures
        bucket_rule(statuses, cards, keep).len() == statuses.len(),
    decreases cards.len(),
{
    if cards.len() > 0 {
        lemma_bucket_len(statuses, cards.drop_last(), keep);
        lemma_column_of_bounds(statuses, cards[cards.len() - 1]);
    }
}

/// The last position of `id` among `statuses`, by [`column_of`].
fn find_column(statuses: &Vec<String>, id: &str) -> (c: Option<usize>)
    ensures
        c matches Some(x) ==> column_of(strings_of(statuses@), id@) == Some(x as int),
        c is None ==> column_of(strings_of(statuses@), id@) is None,
{
    let ghost all = strings_of(statuses@);
    let mut j = statuses.len();
    assert(all.take(j as int) == all);
    while j > 0
        invariant
            j <= statuses.len(),
            all == strings_of(statuses@),
            all.len() == statuses@.len(),
            column_of(all.take(j as int), id@) == column_of(all, id@),
        decreases j,
    {
        proof {
            assert(all.take(j as int).drop_last() == all.take(j - 1));
            assert(all.take(j as int).last() == statuses@[j - 1]@);
        }
        if str_eq(statuses[j - 1].as_str(), id) {
            return Some(j - 1);
        }
        j = j - 1;
    }
    proof {
        assert(all.take(0) == Seq::<Seq<char>>::empty());
    }
    None
}

/// `v` with `k` added at the end.
fn pushed(v: &Vec<usize>, k: usize) -> (out: Vec<usize>)
    ensures
        out@ == v@.push(k),
{
    let mut out: Vec<usize> = Vec::new();
    let mut i: usize = 0;
    while i < v.len()
        invariant
            i <= v.len(),
            out@ == v@.take(i as int),
        decreases v.len() - i,
    {
        out.push(v[i]);
        assert(v@.take(i + 1) == v@.take(i as int).push(v@[i as int]));
        i = i + 1;
    }
    assert(v@.take(v.len() as int) == v@);
    out.push(k);
    out
}

/// The plain form of a list of strings.
pub open spec fn strings_of(v: Seq<String>) -> Seq<Seq<char>> {
    v.map_values(|s: String| s@)
}

/// The plain form of columns of card positions.
pub open spec fn columns_of(v: Seq<Vec<usize>>) -> Seq<Seq<int>> {
    v.map_values(|c: Vec<usize>| c@.map_values(|k: usize| k as int))
}

/// [`bucket`] over the cards' statuses and the keep flags side by side.
fn bucket_columns(statuses: &Vec<String>, card_statuses: &Vec<String>, keep: &Vec<bool>) -> (columns: Vec<
    Vec<usize>,
>)
    requires
        keep@.len() == card_statuses@.len(),
    ensures
        columns_of(columns@) == bucket_rule(strings_of(statuses@), strings_of(card_statuses@), keep@),
{
    let ghost st = strings_of(statuses@);
    let ghost cs = strings_of(card_statuses@);
    let mut columns: Vec<Vec<usize>> = Vec::new();
    let mut i: usize = 0;
    while i < statuses.len()
        invariant
            i <= statuses.len(),
            columns@.len() == i,
            forall|j: int| 0 <= j < i ==> (#[trigger] columns@[j])@.len() == 0,
        decreases statuses.len() - i,
    {
        columns.push(Vec::new());
        i = i + 1;
    }
    proof {
        assert(columns_of(columns@) =~= bucket_rule(st, cs.take(0), keep@)) by {
            assert(cs.take(0).len() == 0);
            assert forall|j: int| 0 <= j < columns@.len() implies columns_of(columns@)[j] == Seq::<int>::empty() by {
                assert(columns@[j]@.len() == 0);
                assert(columns_of(columns@)[j] =~= Seq::<int>::empty());
            }
        }
    }
    let mut k: usize = 0;
    while k < card_statuses.len()
        invariant
            k <= card_statuses.len(),
            keep@.len() == card_statuses@.len(),
            st == strings_of(statuses@),
            cs == strings_of(card_statuses@),
            cs.len() == card_statuses@.len(),
            columns_of(columns@) == bucket_rule(st, cs.take(k as int), keep@),
        decreases card_statuses.len() - k,
    {
        let ghost before = columns_of(columns@);
        proof {
            assert(cs.take(k + 1).drop_last() == cs.take(k as int));
            assert(cs.take(k + 1)[k as int] == cs[k as int]);
            assert(cs[k as int] == card_statuses@[k as int]@);
            assert(cs.take(k + 1).len() - 1 == k);
            lemma_bucket_len(st, cs.take(k as int), keep@);
            lemma_bucket_step(st, cs, keep@, k as int);
            lemma_column_of_bounds(st, cs[k as int]);
        }
        if keep[k] {
            match find_column(statuses, card_statuses[k].as_str()) {
                Some(c) => {
                    let ghost old_cols = columns@;
                    proof {
                        assert(st.len() == statuses@.len());
                        assert(column_of(st, cs[k as int]) == Some(c as int));
                        assert(keep@[k as int]);
                    }
                    let col = pushed(&columns[c], k);
                    columns.set(c, col);
                    proof {
                        assert(columns@ == old_cols.update(c as int, col));
                        assert(col@ == old_cols[c as int]@.push(k));
                        assert(before[c as int] == old_cols[c as int]@.map_values(|x: usize| x as int));
                        assert(col@.map_values(|x: usize| x as int) =~= old_cols[c as int]@.map_values(
                            |x: usize| x as int,
                        ).push(k as int));
                        assert(columns_of(columns@) =~= before.update(c as int, before[c as int].push(k as int)));
                        assert(columns_of(columns@) == bucket_rule(st, cs.take(k + 1), keep@));
                    }
                },
                None => {
                    assert(columns_of(columns@) == bucket_rule(st, cs.take(k + 1), keep@));
                },
            }
        } else {
            assert(columns_of(columns@) == bucket_rule(st, cs.take(k + 1), keep@));
        }
        k = k + 1;
    }
    proof {
        assert(cs.take(card_statuses.len() as int) == cs);
    }
    columns
}

/// One swimlane as card positions: its grouping key (`""` for the catch-all),
/// its label, and the columns holding its cards.
#[derive(Debug, Clone, PartialEq, Eq)]
pub struct LaneLayout {
    /// The grouping key: an assignee or parent id, or `""` for the catch-all.
    pub key: String,
    /// The human label.
    pub label: String,
    /// The same columns as the flat board, holding only this lane's cards.
    pub columns: Vec<Vec<usize>>,
}

/// Which cards are grouped under `id`.
pub open spec fn in_group(groups: Seq<Option<Seq<char>>>, id: Seq<char>) -> Seq<bool> {
    Seq::new(groups.len(), |k: int| groups[k] == Some(id))
}

/// Which cards are in no group.
pub open spec fn in_no_group(groups: Seq<Option<Seq<char>>>) -> Seq<bool> {
    Seq::new(groups.len(), |k: int| groups[k] is None)
}

/// The lanes for the candidate groups `lanes[..n]`, in order: one per
/// candidate that some card is grouped under.
pub open spec fn group_lanes(
    statuses: Seq<Seq<char>>,
    cards: Seq<Seq<char>>,
    groups: Seq<Option<Seq<char>>>,
    lanes: Seq<(Seq<char>, Seq<char>)>,
) -> Seq<(Seq<char>, Seq<char>, Seq<Seq<int>>)>
    decreases lanes.len(),
{
    if lanes.len() == 0 {
        Seq::empty()
    } else {
        let before = group_lanes(statuses, cards, groups, lanes.drop_last());
        let (id, label) = lanes.last();
        if groups.contains(Some(id)) {
            before.push((id, label, bucket_rule(statuses, cards, in_group(groups, id))))
        } else {
            before
        }
    }
}

/// The swimlanes of a board: one per candidate group (an assignee or a parent,
/// with its label, in the order given) that has a card on the board, then a
/// catch-all lane labelled `none_label` when some card is in no group.
pub open spec fn lanes_rule(
    statuses: Seq<Seq<char>>,
    cards: Seq<Seq<char>>,
    groups: Seq<Option<Seq<char>>>,
    lanes: Seq<(Seq<char>, Seq<char>)>,
    none_label: Seq<char>,
) -> Seq<(Seq<char>, Seq<char>, Seq<Seq<int>>)> {
    let named = group_lanes(statuses, cards, groups, lanes);
    if groups.contains(None) {
        named.push((Seq::empty(), none_label, bucket_rule(statuses, cards, in_no_group(groups))))
    } else {
        named
    }
}

/// The plain form of lanes.
pub open spec fn lanes_of(v: Seq<LaneLayout>) -> Seq<(Seq<char>, Seq<char>, Seq<Seq<int>>)> {
    v.map_values(|l: LaneLayout| (l.key@, l.label@, columns_of(l.columns@)))
}

/// The plain form of optional strings.
pub open spec fn opt_strings_of(v: Seq<Option<String>>) -> Seq<Option<Seq<char>>> {
    v.map_values(|o: Option<String>| crate::text::opt_string_view(o))
}

/// The plain form of `(id, label)` pairs.
pub open spec fn pairs_of(v: Seq<(String, String)>) -> Seq<(Seq<char>, Seq<char>)> {
    v.map_values(|p: (String, String)| (p.0@, p.1@))
}

/// Whether some card is grouped under `id` (or, for `None`, under nothing).
fn any_in_group(groups: &Vec<Option<String>>, id: Option<&str>) -> (b: bool)
    ensures
        b == opt_strings_of(groups@).contains(opt_str_view(id)),
{
    let ghost g = opt_strings_of(groups@);
    let mut k: usize = 0;
    while k < groups.len()
        invariant
            k <= groups.len(),
            g == opt_strings_of(groups@),
            g.len() == groups@.len(),
            forall|j: int| 0 <= j < k ==> g[j] != opt_str_view(id),
        decreases groups.len() - k,
    {
        let hit = match (&groups[k], id) {
            (Some(a), Some(b)) => str_eq(a.as_str(), b),
            (None, None) => true,
            _ => false,
        };
        if hit {
            assert(g[k as int] == opt_str_view(id));
            return true;
        }
        k = k + 1;
    }
    false
}

/// Which cards are grouped under `id` (or, for `None`, under nothing).
fn membership(groups: &Vec<Option<String>>, id: Option<&str>) -> (m: Vec<bool>)
    ensures
        id matches Some(i) ==> m@ == in_group(opt_strings_of(groups@), i@),
        id is None ==> m@ == in_no_group(opt_strings_of(groups@)),
{
    let ghost g = opt_strings_of(groups@);
    let mut m: Vec<bool> = Vec::new();
    let mut k: usize = 0;
    while k < groups.len()
        invariant
            k <= groups.len(),
            g == opt_strings_of(groups@),
            g.len() == groups@.len(),
            m@.len() == k,
            forall|j: int| 0 <= j < k ==> #[trigger] m@[j] == (g[j] == opt_str_view(id)),
        decreases groups.len() - k,
    {
        let hit = match (&groups[k], id) {
            (Some(a), Some(b)) => str_eq(a.as_str(), b),
            (None, None) => true,
            _ => false,
        };
        m.push(hit);
        k = k + 1;
    }
    proof {
        if let Some(i) = id {
            assert(m@ =~= in_group(g, i@));
        } else {
            assert(m@ =~= in_no_group(g));
        }
    }
    m
}

/// The swimlanes of a board, by [`lanes_rule`], over the cards' statuses and
/// groups side by side.
fn swimlane_layout(
    statuses: &Vec<String>,
    card_statuses: &Vec<String>,
    card_groups: &Vec<Option<String>>,
    lanes: &Vec<(String, String)>,
    none_label: &str,
) -> (out: Vec<LaneLayout>)
    requires
        card_groups@.len() == card_statuses@.len(),
    ensures
        lanes_of(out@) == lanes_rule(
            strings_of(statuses@),
            strings_of(card_statuses@),
            opt_strings_of(card_groups@),
            pairs_of(lanes@),
            none_label@,
        ),
{
    let ghost st = strings_of(statuses@);
    let ghost cs = strings_of(card_statuses@);
    let ghost g = opt_strings_of(card_groups@);
    let ghost ls = pairs_of(lanes@);
    let mut out: Vec<LaneLayout> = Vec::new();
    let mut i: usize = 0;
    while i < lanes.len()
        invariant
            i <= lanes.len(),
            card_groups@.len() == card_statuses@.len(),
            st == strings_of(statuses@),
            cs == strings_of(card_statuses@),
            g == opt_strings_of(card_groups@),
            ls == pairs_of(lanes@),
            ls.len() == lanes@.len(),
            lanes_of(out@) == group_lanes(st, cs, g, ls.take(i as int)),
        decreases lanes.len() - i,
    {
        let (id, label) = &lanes[i];
        proof {
            assert(ls.take(i + 1).drop_last() == ls.take(i as int));
            assert(ls.take(i + 1).last() == (id@, label@));
        }
        if any_in_group(card_groups, Some(id.as_str())) {
            let m = membership(card_groups, Some(id.as_str()));
            let columns = bucket_columns(statuses, card_statuses, &m);
            out.push(LaneLayout { key: id.clone(), label: label.clone(), columns });
            proof {
                assert(lanes_of(out@) == lanes_of(out@.drop_last()).push(
                    (out@.last().key@, out@.last().label@, columns_of(out@.last().columns@)),
                ));
            }
        }
        i = i + 1;
    }
    proof {
        assert(ls.take(lanes.len() as int) == ls);
    }
    if any_in_group(card_groups, None) {
        let m = membership(card_groups, None);
        let columns = bucket_columns(statuses, card_statuses, &m);
        out.push(LaneLayout { key: String::new(), label: crate::text::copy_str(none_label), columns });
        proof {
            assert(lanes_of(out@) == lanes_of(out@.drop_last()).push(
                (out@.last().key@, out@.last().label@, columns_of(out@.last().columns@)),
            ));
        }
    }
    out
}

/// The status ids of cards given as `(status id, x)` pairs.
pub open spec fn card_status_ids<T>(cards: Seq<(String, T)>) -> Seq<Seq<char>> {
    cards.map_values(|c: (String, T)| c.0@)
}

/// Splits `(status id, kept)` pairs into the two lists.
fn split_kept(cards: &Vec<(String, bool)>) -> (out: (Vec<String>, Vec<bool>))
    ensures
        strings_of(out.0@) == card_status_ids(cards@),
        out.1@ == cards@.map_values(|c: (String, bool)| c.1),
{
    let mut ids: Vec<String> = Vec::new();
    let mut keep: Vec<bool> = Vec::new();
    let mut i: usize = 0;
    while i < cards.len()
        invariant
            i <= cards.len(),
            strings_of(ids@) == card_status_ids(cards@.take(i as int)),
            keep@ == cards@.take(i as int).map_values(|c: (String, bool)| c.1),
        decreases cards.len() - i,
    {
        let ghost (bi, bk) = (ids@, keep@);
        ids.push(crate::text::copy_str(cards[i].0.as_str()));
        keep.push(cards[i].1);
        proof {
            assert(cards@.take(i + 1) == cards@.take(i as int).push(cards@[i as int]));
            assert(strings_of(ids@) == strings_of(bi).push(cards@[i as int].0@));
        }
        i = i + 1;
    }
    proof {
        assert(cards@.take(cards.len() as int) == cards@);
    }
    (ids, keep)
}

/// Splits `(status id, group)` pairs into the two lists.
fn split_grouped(cards: &Vec<(String, Option<String>)>) -> (out: (Vec<String>, Vec<Option<String>>))
    ensures
        strings_of(out.0@) == card_status_ids(cards@),
        opt_strings_of(out.1@) == cards@.map_values(|c: (String, Option<String>)| opt_string_view(c.1)),
        out.0@.len() == out.1@.len(),
{
    let mut ids: Vec<String> = Vec::new();
    let mut groups: Vec<Option<String>> = Vec::new();
    let mut i: usize = 0;
    while i < cards.len()
        invariant
            i <= cards.len(),
            ids@.len() == i,
            groups@.len() == i,
            strings_of(ids@) == card_status_ids(cards@.take(i as int)),
            opt_strings_of(groups@) == cards@.take(i as int).map_values(
                |c: (String, Option<String>)| opt_string_view(c.1),
            ),
        decreases cards.len() - i,
    {
        let ghost (bi, bg) = (ids@, groups@);
        ids.push(crate::text::copy_str(cards[i].0.as_str()));
        let g = match &cards[i].1 {
            Some(x) => Some(crate::text::copy_str(x.as_str())),
            None => None,
        };
        groups.push(g);
        proof {
            assert(cards@.take(i + 1) == cards@.take(i as int).push(cards@[i as int]));
            assert(strings_of(ids@) == strings_of(bi).push(cards@[i as int].0@));
            assert(opt_strings_of(groups@) == opt_strings_of(bg).push(opt_string_view(cards@[i as int].1)));
        }
        i = i + 1;
    }
    proof {
        assert(cards@.take(cards.len() as int) == cards@);
    }
    (ids, groups)
}

/// Buckets cards into one column per status, by [`bucket_rule`]: `statuses`
/// are the project's status ids in column order, and `cards` each card in rank
/// order as its status id and whether it belongs on this board (or lane). The
/// result holds card positions.
pub fn bucket(statuses: &Vec<String>, cards: &Vec<(String, bool)>) -> (columns: Vec<Vec<usize>>)
    ensures
        columns_of(columns@) == bucket_rule(
            strings_of(statuses@),
            card_status_ids(cards@),
            cards@.map_values(|c: (String, bool)| c.1),
        ),
{
    let (ids, keep) = split_kept(cards);
    bucket_columns(statuses, &ids, &keep)
}

/// The swimlanes of a board grouped by assignee, by [`lanes_rule`]: `cards` is
/// each card as its status id and assignee, `lanes` the assignees with their
/// display names; the catch-all lane is "Unassigned".
pub fn assignee_swimlanes(
    statuses: &Vec<String>,
    cards: &Vec<(String, Option<String>)>,
    lanes: &Vec<(String, String)>,
) -> (out: Vec<LaneLayout>)
    ensures
        lanes_of(out@) == lanes_rule(
            strings_of(statuses@),
            card_status_ids(cards@),
            cards@.map_values(|c: (String, Option<String>)| opt_string_view(c.1)),
            pairs_of(lanes@),
            "Unassigned"@,
        ),
{
    let (ids, groups) = split_grouped(cards);
    swimlane_layout(statuses, &ids, &groups, lanes, "Unassigned")
}

/// The swimlanes of a board grouped by parent, by [`lanes_rule`]: `cards` is
/// each card as its status id and parent, `lanes` the parents with their
/// summaries; the catch-all lane is "No parent".
pub fn parent_swimlanes(
    statuses: &Vec<String>,
    cards: &Vec<(String, Option<String>)>,
    lanes: &Vec<(String, String)>,
) -> (out: Vec<LaneLayout>)
    ensures
        lanes_of(out@) == lanes_rule(
            strings_of(statuses@),
            card_status_ids(cards@),
            cards@.map_values(|c: (String, Option<String>)| opt_string_view(c.1)),
            pairs_of(lanes@),
            "No parent"@,
        ),
{
    let (ids, groups) = split_grouped(cards);
    swimlane_layout(statuses, &ids, &groups, lanes, "No parent")
}

/// The plain form of rollup rows: `(parent id, child category, count)`.
pub open spec fn rows_of(v: Seq<(String, StatusCategory, i64)>) -> Seq<(Seq<char>, StatusCategory, int)> {
    v.map_values(|r: (String, StatusCategory, i64)| (r.0@, r.1, r.2 as int))
}

/// The sum of the counts of the rows for parent `p`: all of them, or (with
/// `Some(c)`) those of category `c`.
pub open spec fn rollup_sum(rows: Seq<(Seq<char>, StatusCategory, int)>, p: Seq<char>, c: Option<StatusCategory>) -> int
    decreases rows.len(),
{
    if rows.len() == 0 {
        0
    } else {
        let r = rows.last();
        rollup_sum(rows.drop_last(), p, c) + if r.0 == p && (c is None || c == Some(r.1)) {
            r.2
        } else {
            0
        }
    }
}

/// The parents of the rows, each once, in the order they first appear.
pub open spec fn parents_of(rows: Seq<(Seq<char>, StatusCategory, int)>) -> Seq<Seq<char>>
    decreases rows.len(),
{
    if rows.len() == 0 {
        Seq::empty()
    } else {
        let before = parents_of(rows.drop_last());
        if before.contains(rows.last().0) {
            before
        } else {
            before.push(rows.last().0)
        }
    }
}

/// Whether every running sum the rollup computes fits in an `i64`.
pub open spec fn rollup_fits(rows: Seq<(Seq<char>, StatusCategory, int)>) -> bool {
    forall|k: int, p: Seq<char>, c: Option<StatusCategory>|
        0 <= k <= rows.len() ==> i64::MIN <= #[trigger] rollup_sum(rows.take(k), p, c) <= i64::MAX
}

/// The rollup a parent gets from the rows.
pub open spec fn rollup_for(rows: Seq<(Seq<char>, StatusCategory, int)>, p: Seq<char>) -> (int, int, int, int) {
    (
        rollup_sum(rows, p, None),
        rollup_sum(rows, p, Some(StatusCategory::Todo)),
        rollup_sum(rows, p, Some(StatusCategory::InProgress)),
        rollup_sum(rows, p, Some(StatusCategory::Done)),
    )
}

/// The plain form of a rollup.
pub open spec fn rollup_view(r: ChildRollup) -> (int, int, int, int) {
    (r.total as int, r.todo as int, r.in_progress as int, r.done as int)
}

/// The rollups of [`child_rollups`], or `None` exactly when some running sum
/// would not fit in an `i64`: the check a caller makes before folding rows it
/// cannot bound.
pub fn try_child_rollups(rows: &Vec<(String, StatusCategory, i64)>) -> (res: Option<Vec<(String, ChildRollup)>>)
    ensures
        res is None <==> !rollup_fits(rows_of(rows@)),
        res matches Some(out) ==> out@.map_values(|e: (String, ChildRollup)| e.0@) == parents_of(rows_of(rows@)),
        res matches Some(out) ==> forall|j: int| 0 <= j < out@.len() ==> rollup_view((#[trigger] out@[j]).1) == rollup_for(rows_of(rows@), out@[j].0@),
{
    let ghost rv = rows_of(rows@);
    let mut out: Vec<(String, ChildRollup)> = Vec::new();
    let mut k: usize = 0;
    while k < rows.len()
        invariant
            k <= rows.len(),
            rv == rows_of(rows@),
            rv.len() == rows@.len(),
            forall|i: int, q: Seq<char>, c: Option<StatusCategory>|
                0 <= i <= k ==> i64::MIN <= #[trigger] rollup_sum(rv.take(i), q, c) <= i64::MAX,
            out@.map_values(|e: (String, ChildRollup)| e.0@) == parents_of(rv.take(k as int)),
            forall|j: int| 0 <= j < out@.len() ==> rollup_view((#[trigger] out@[j]).1) == rollup_for(rv.take(k as int), out@[j].0@),
        decreases rows.len() - k,
    {
        let (p, cat, n) = &rows[k];
        let ghost prev = rv.take(k as int);
        let ghost next = rv.take(k + 1);
        proof {
            assert(next.drop_last() == prev);
            assert(next.last() == (p@, *cat, *n as int));
        }
        let ghost names = out@.map_values(|e: (String, ChildRollup)| e.0@);
        let mut found: Option<usize> = None;
        let mut j: usize = 0;
        while j < out.len()
            invariant
                j <= out.len(),
                names == out@.map_values(|e: (String, ChildRollup)| e.0@),
                found matches Some(f) ==> f < out.len() && out@[f as int].0@ == p@,
                found is None ==> forall|i: int| 0 <= i < j ==> out@[i].0@ != p@,
            decreases out.len() - j,
        {
            if found.is_none() && str_eq(out[j].0.as_str(), p.as_str()) {
                found = Some(j);
            }
            j = j + 1;
        }
        proof {
            assert(next =~= prev.push((p@, *cat, *n as int)));
            lemma_parents_distinct(prev);
            assert forall|q: Seq<char>, c: Option<StatusCategory>| #[trigger] rollup_sum(next, q, c) == rollup_sum(prev, q, c)
                + (if q == p@ && (c is None || c == Some(*cat)) { *n as int } else { 0int }) by {
                lemma_sum_step(prev, (p@, *cat, *n as int), q, c);
            }
        }
        let ghost s_all = rollup_sum(next, p@, None);
        let ghost s_todo = rollup_sum(next, p@, Some(StatusCategory::Todo));
        let ghost s_prog = rollup_sum(next, p@, Some(StatusCategory::InProgress));
        let ghost s_done = rollup_sum(next, p@, Some(StatusCategory::Done));
        let base: ChildRollup = match found {
            Some(f) => out[f].1,
            None => ChildRollup { total: 0, todo: 0, in_progress: 0, done: 0 },
        };
        proof {
            if found is None {
                assert(!names.contains(p@)) by {
                    if names.contains(p@) {
                        let i = choose|i: int| 0 <= i < names.len() && names[i] == p@;
                        assert(out@[i].0@ == p@);
                    }
                }
                lemma_absent_parent_sums(prev, p@);
            }
        }
        proof {
            assert(base.total as int == rollup_sum(prev, p@, None));
            assert(base.todo as int == rollup_sum(prev, p@, Some(StatusCategory::Todo)));
            assert(base.in_progress as int == rollup_sum(prev, p@, Some(StatusCategory::InProgress)));
            assert(base.done as int == rollup_sum(prev, p@, Some(StatusCategory::Done)));
            assert(rv.take(k + 1) == next);
        }
        let total = match base.total.checked_add(*n) {
            Some(v) => v,
            None => {
                proof {
                    assert(!(i64::MIN <= rollup_sum(rv.take(k + 1), p@, None) <= i64::MAX));
                }
                return None;
            },
        };
        let in_cat = match *cat {
            StatusCategory::Todo => base.todo,
            StatusCategory::InProgress => base.in_progress,
            StatusCategory::Done => base.done,
        };
        let grown = match in_cat.checked_add(*n) {
            Some(v) => v,
            None => {
                proof {
                    assert(!(i64::MIN <= rollup_sum(rv.take(k + 1), p@, Some(*cat)) <= i64::MAX));
                }
                return None;
            },
        };
        let updated = ChildRollup {
            total,
            todo: if *cat == StatusCategory::Todo { grown } else { base.todo },
            in_progress: if *cat == StatusCategory::InProgress { grown } else { base.in_progress },
            done: if *cat == StatusCategory::Done { grown } else { base.done },
        };
        proof {
            assert forall|i: int, q: Seq<char>, c: Option<StatusCategory>|
                0 <= i <= k + 1 implies i64::MIN <= #[trigger] rollup_sum(rv.take(i), q, c) <= i64::MAX by {
                if i == k + 1 {
                    assert(rollup_sum(rv.take(k as int), q, c) == rollup_sum(prev, q, c));
                    if q == p@ && c is None {
                        assert(rollup_sum(next, q, c) == total);
                    } else if q == p@ && c == Some(*cat) {
                        assert(rollup_sum(next, q, c) == grown);
                    }
                }
            }
        }
        let ghost old_out = out@;
        match found {
            Some(f) => {
                out.set(f, (p.clone(), updated));
                proof {
                    assert(out@.map_values(|e: (String, ChildRollup)| e.0@) =~= names);
                    assert(parents_of(next) == parents_of(prev)) by {
                        assert(names[f as int] == p@);
                        assert(next.drop_last() == prev);
                    }
                    assert forall|i: int| 0 <= i < out@.len() implies rollup_view((#[trigger] out@[i]).1) == rollup_for(
                        next,
                        out@[i].0@,
                    ) by {
                        if i != f {
                            assert(out@[i] == old_out[i]);
                            assert(names[i] != names[f as int]);
                        }
                    }
                }
            },
            None => {
                out.push((p.clone(), updated));
                proof {
                    assert(out@.map_values(|e: (String, ChildRollup)| e.0@) =~= names.push(p@));
                    assert(parents_of(next) == parents_of(prev).push(p@)) by {
                        assert(next.drop_last() == prev);
                    }
                    assert forall|i: int| 0 <= i < out@.len() implies rollup_view((#[trigger] out@[i]).1) == rollup_for(
                        next,
                        out@[i].0@,
                    ) by {
                        if i < old_out.len() {
                            assert(out@[i] == old_out[i]);
                            assert(old_out[i].0@ != p@);
                        }
                    }
                }
            },
        }
        k = k + 1;
    }
    proof {
        assert(rv.take(rows.len() as int) == rv);
        assert forall|i: int, q: Seq<char>, c: Option<StatusCategory>|
            0 <= i <= rv.len() implies i64::MIN <= #[trigger] rollup_sum(rv.take(i), q, c) <= i64::MAX by {}
    }
    Some(out)
}

/// Folds the rollup query's rows (`(parent, child category, count)`) into one
/// rollup per parent, the parents in the order they first appear.
pub fn child_rollups(rows: &Vec<(String, StatusCategory, i64)>) -> (out: Vec<(String, ChildRollup)>)
    requires
        rollup_fits(rows_of(rows@)),
    ensures
        out@.map_values(|e: (String, ChildRollup)| e.0@) == parents_of(rows_of(rows@)),
        forall|j: int| 0 <= j < out@.len() ==> rollup_view((#[trigger] out@[j]).1) == rollup_for(rows_of(rows@), out@[j].0@),
{
    match try_child_rollups(rows) {
        Some(out) => out,
        None => {
            proof {
                assert(false);
            }
            Vec::new()
        },
    }
}

proof fn lemma_sum_step(
    rows: Seq<(Seq<char>, StatusCategory, int)>,
    r: (Seq<char>, StatusCategory, int),
    q: Seq<char>,
    c: Option<StatusCategory>,
)
    ensures
        rollup_sum(rows.push(r), q, c) == rollup_sum(rows, q, c) + (if r.0 == q && (c is None || c == Some(r.1)) {
            r.2
        } else {
            0int
        }),
{
    assert(rows.push(r).drop_last() == rows);
}

proof fn lemma_parents_distinct(rows: Seq<(Seq<char>, StatusCategory, int)>)
    ensures
        parents_of(rows).no_duplicates(),
    decreases rows.len(),
{
    if rows.len() > 0 {
        lemma_parents_distinct(rows.drop_last());
        let before = parents_of(rows.drop_last());
        let x = rows.last().0;
        if !before.contains(x) {
            assert forall|i: int, j: int| 0 <= i < j < before.push(x).len() implies before.push(x)[i] != before.push(
                x,
            )[j] by {
                if j == before.len() {
                    assert(before.push(x)[i] == before[i]);
                }
            }
        }
    }
}

proof fn lemma_absent_parent_sums(rows: Seq<(Seq<char>, StatusCategory, int)>, p: Seq<char>)
    requires
        !parents_of(rows).contains(p),
    ensures
        forall|c: Option<StatusCategory>| #[trigger] rollup_sum(rows, p, c) == 0,
    decreases rows.len(),
{
    if rows.len() > 0 {
        let before = parents_of(rows.drop_last());
        assert(!before.contains(p)) by {
            if before.contains(p) {
                let i = choose|i: int| 0 <= i < before.len() && before[i] == p;
                if !before.contains(rows.last().0) {
                    assert(before.push(rows.last().0)[i] == p);
                }
            }
        }
        assert(rows.last().0 != p) by {
            if rows.last().0 == p {
                assert(parents_of(rows) == before.push(p));
                assert(parents_of(rows)[before.len() as int] == p);
            }
        }
        lemma_absent_parent_sums(rows.drop_last(), p);
        assert forall|c: Option<StatusCategory>| #[trigger] rollup_sum(rows, p, c) == 0 by {
            assert(rollup_sum(rows, p, c) == rollup_sum(rows.drop_last(), p, c));
        }
    }
}


/// A saved board. The WIP limits are the JSON object text they are stored
/// as, `{status_id: max}`; timestamps are the text they are stored as.
#[derive(Debug, Clone)]
pub struct Board {
    /// The board's id.
    pub id: String,
    /// The owning project.
    pub project_id: String,
    /// The display name, unique per project.
    pub name: String,
    /// The card whose children this board renders, or `None` for the top
    /// level.
    pub default_parent_id: Option<String>,
    /// The saved quick filter, or `None`.
    pub aql_filter: Option<String>,
    /// `none`, `assignee` or `parent`.
    pub swimlane: String,
    /// Per-status WIP limits, as JSON text.
    pub wip_limits: String,
    /// When it was created.
    pub created_at: String,
    /// When it last changed.
    pub updated_at: String,
}

/// A new saved board, ready to insert.
#[derive(Debug)]
pub struct NewBoard {
    /// The display name, already validated.
    pub name: String,
    /// The card whose children this board renders, or `None`.
    pub default_parent_id: Option<String>,
    /// The saved filter, or `None`.
    pub aql_filter: Option<String>,
    /// `none`, `assignee` or `parent`.
    pub swimlane: String,
    /// Per-status WIP limits, as JSON text.
    pub wip_limits: String,
}

/// The fields a board patch may change. An absent field is left as it is;
/// for a nullable field, `Some(None)` clears it.
#[derive(Debug, Default)]
pub struct BoardPatch {
    /// The new name.
    pub name: Option<String>,
    /// The card whose children the board renders.
    pub default_parent_id: Option<Option<String>>,
    /// The saved filter.
    pub aql_filter: Option<Option<String>>,
    /// The new swimlane mode.
    pub swimlane: Option<String>,
    /// The new WIP limits, as JSON text.
    pub wip_limits: Option<String>,
}

impl BoardPatch {
    /// Whether the patch names any field.
    pub fn is_empty(&self) -> (b: bool)
        ensures
            b == (self.name is None && self.default_parent_id is None && self.aql_filter is None
                && self.swimlane is None && self.wip_limits is None),
    {
        self.name.is_none() && self.default_parent_id.is_none() && self.aql_filter.is_none()
            && self.swimlane.is_none() && self.wip_limits.is_none()
    }

    /// The board this patch makes of `current`: each named field written
    /// over it, every other field as it was, and `updated_at` set to `now`.
    pub fn applied_to(&self, current: &Board, now: &str) -> (next: Board)
        ensures
            next.id@ == current.id@,
            next.project_id@ == current.project_id@,
            next.name@ == (match self.name {
                Some(v) => v@,
                None => current.name@,
            }),
            opt_string_view(next.default_parent_id) == (match self.default_parent_id {
                Some(v) => opt_string_view(v),
                None => opt_string_view(current.default_parent_id),
            }),
            opt_string_view(next.aql_filter) == (match self.aql_filter {
                Some(v) => opt_string_view(v),
                None => opt_string_view(current.aql_filter),
            }),
            next.swimlane@ == (match self.swimlane {
                Some(v) => v@,
                None => current.swimlane@,
            }),
            next.wip_limits@ == (match self.wip_limits {
                Some(v) => v@,
                None => current.wip_limits@,
            }),
            next.created_at@ == current.created_at@,
            next.updated_at@ == now@,
    {
        Board {
            id: current.id.clone(),
            project_id: current.project_id.clone(),
            name: pick_text(&self.name, &current.name),
            default_parent_id: pick_nullable(&self.default_parent_id, &current.default_parent_id),
            aql_filter: pick_nullable(&self.aql_filter, &current.aql_filter),
            swimlane: pick_text(&self.swimlane, &current.swimlane),
            wip_limits: pick_text(&self.wip_limits, &current.wip_limits),
            created_at: current.created_at.clone(),
            updated_at: crate::text::copy_str(now),
        }
    }
}

fn pick_text(patch: &Option<String>, current: &String) -> (out: String)
    ensures
        out@ == (match *patch {
            Some(v) => v@,
            None => current@,
        }),
{
    match patch {
        Some(v) => v.clone(),
        None => current.clone(),
    }
}

fn pick_nullable(patch: &Option<Option<String>>, current: &Option<String>) -> (out: Option<String>)
    ensures
        opt_string_view(out) == (match *patch {
            Some(v) => opt_string_view(v),
            None => opt_string_view(*current),
        }),
{
    let chosen: &Option<String> = match patch {
        Some(v) => v,
        None => current,
    };
    match chosen {
        Some(v) => Some(v.clone()),
        None => None,
    }
}

} // verus!
