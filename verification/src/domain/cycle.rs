//! Cycles (sprints): their lifecycle states and the shapes their operations take.

use vstd::prelude::*;

use crate::domain::StatusCategory;
use crate::error::{AppError, AppResult};
use crate::text::{copy_str, str_eq};

verus! {

/// A cycle's lifecycle state.
#[derive(Debug, Clone, Copy, PartialEq, Eq, Structural)]
pub enum CycleState {
    /// Created, not yet started. Dates are unset.
    Future,
    /// Running. Exactly one cycle per project may be in this state.
    Active,
    /// Finished. Not terminal: a closed cycle can be reopened.
    Closed,
}

/// The database and JSON spelling of each state.
pub open spec fn cycle_state_name(s: CycleState) -> Seq<char> {
    match s {
        CycleState::Future => "future"@,
        CycleState::Active => "active"@,
        CycleState::Closed => "closed"@,
    }
}

/// The state a spelling names, if any.
pub open spec fn cycle_state_named(s: Seq<char>) -> Option<CycleState> {
    if s == "future"@ {
        Some(CycleState::Future)
    } else if s == "active"@ {
        Some(CycleState::Active)
    } else if s == "closed"@ {
        Some(CycleState::Closed)
    } else {
        None
    }
}

/// Why a cycle state could not be read: the text that was offered.
#[derive(Debug)]
pub struct CycleStateError(pub String);

impl CycleState {
    /// The state's database and JSON spelling.
    pub fn as_str(self) -> (s: &'static str)
        ensures
            s@ == cycle_state_name(self),
    {
        match self {
            CycleState::Future => "future",
            CycleState::Active => "active",
            CycleState::Closed => "closed",
        }
    }

    /// Reads a state from its spelling, refusing anything else.
    pub fn parse(s: &str) -> (res: Result<Self, CycleStateError>)
        ensures
            match cycle_state_named(s@) {
                Some(c) => res == Ok::<Self, CycleStateError>(c),
                None => res matches Err(CycleStateError(t)) && t@ == s@,
            },
    {
        if str_eq(s, "future") {
            Ok(CycleState::Future)
        } else if str_eq(s, "active") {
            Ok(CycleState::Active)
        } else if str_eq(s, "closed") {
            Ok(CycleState::Closed)
        } else {
            Err(CycleStateError(copy_str(s)))
        }
    }
}

/// Every state reads back from its own spelling.
pub proof fn lemma_cycle_state_round_trip(c: CycleState)
    ensures
        cycle_state_named(cycle_state_name(c)) == Some(c),
{
    reveal_strlit("future");
    reveal_strlit("active");
    reveal_strlit("closed");
    assert("future"@[0] != "active"@[0] && "future"@[0] != "closed"@[0] && "active"@[0] != "closed"@[0]);
}

impl std::str::FromStr for CycleState {
    type Err = CycleStateError;

    fn from_str(s: &str) -> (res: Result<Self, Self::Err>)
        ensures
            match cycle_state_named(s@) {
                Some(c) => res == Ok::<Self, CycleStateError>(c),
                None => res matches Err(CycleStateError(t)) && t@ == s@,
            },
    {
        Self::parse(s)
    }
}

/// A new cycle, ready to insert. Always created `future`, with no dates.
#[derive(Debug)]
pub struct NewCycle<'a> {
    /// The owning project.
    pub project_id: &'a str,
    /// The cycle's name.
    pub name: &'a str,
    /// What the cycle is for.
    pub goal: Option<&'a str>,
}

/// Where a cycle's incomplete cards go when it completes.
#[derive(Debug)]
pub enum CarryTo<'a> {
    /// Out of any cycle: back to the plain backlog.
    Backlog,
    /// An existing `future` or `active` cycle in the same project.
    ExistingCycle(&'a str),
    /// A brand new `future` cycle, created for this purpose.
    NewCycle(&'a str),
}

/// The fields a cycle patch may carry. `None` leaves a field alone;
/// `goal: Some(None)` clears it.
#[derive(Debug, Default)]
pub struct CyclePatch {
    /// The new name.
    pub name: Option<String>,
    /// The new goal, or `Some(None)` to clear it.
    pub goal: Option<Option<String>>,
}

/// What can be done to a cycle.
#[derive(Debug, Clone, Copy, PartialEq, Eq, Structural)]
pub enum CycleAction {
    /// `future -> active`.
    Start,
    /// `active -> closed`.
    Complete,
    /// `closed -> active`.
    Reopen,
}

/// The state an action needs, and the state it leaves.
pub open spec fn action_edge(action: CycleAction) -> (CycleState, CycleState) {
    match action {
        CycleAction::Start => (CycleState::Future, CycleState::Active),
        CycleAction::Complete => (CycleState::Active, CycleState::Closed),
        CycleAction::Reopen => (CycleState::Closed, CycleState::Active),
    }
}

/// The refusal of an action from the wrong state.
pub open spec fn wrong_state_message(action: CycleAction, state: CycleState) -> Seq<char> {
    (match action {
        CycleAction::Start => "only a future cycle can be started (this one is "@,
        CycleAction::Complete => "only an active cycle can be completed (this one is "@,
        CycleAction::Reopen => "only a closed cycle can be reopened (this one is "@,
    }) + cycle_state_name(state) + ")"@
}

/// The refusal of a second active cycle in a project.
pub open spec fn parallel_message() -> Seq<char> {
    "another cycle in this project is already active; parallel cycles are not supported yet"@
}

/// Why an action on a cycle is refused.
pub enum Refusal {
    /// The cycle is not in the state the action starts from.
    WrongState,
    /// A start's end date is before its start date.
    EndBeforeStart,
    /// Another cycle of the project is already active.
    ParallelActive,
}

/// The verdict on an action: refused from the wrong state; a start whose end
/// date (a day number) is before its start date refused; a start or reopen
/// while another cycle of the project is active refused. Otherwise the state
/// the cycle moves to.
pub open spec fn action_rule(
    action: CycleAction,
    state: CycleState,
    start_day: int,
    end_day: int,
    other_active: bool,
) -> Result<CycleState, Refusal> {
    let (from, to) = action_edge(action);
    if state != from {
        Err(Refusal::WrongState)
    } else if action == CycleAction::Start && end_day < start_day {
        Err(Refusal::EndBeforeStart)
    } else if action != CycleAction::Complete && other_active {
        Err(Refusal::ParallelActive)
    } else {
        Ok(to)
    }
}

/// Decides an action on a cycle, by [`action_rule`], with the message each
/// refusal carries. `start_day` and `end_day` are the dates a start sets, as
/// day numbers; `other_active` is whether another cycle of the project is
/// active.
pub fn check_action(
    action: CycleAction,
    state: CycleState,
    start_day: i64,
    end_day: i64,
    other_active: bool,
) -> (res: AppResult<CycleState>)
    ensures
        match action_rule(action, state, start_day as int, end_day as int, other_active) {
            Ok(s) => res == Ok::<CycleState, AppError>(s),
            Err(Refusal::WrongState) => res matches Err(AppError::Conflict(m)) && m@ == wrong_state_message(
                action,
                state,
            ),
            Err(Refusal::EndBeforeStart) => res matches Err(AppError::Validation(m)) && m@
                == "a cycle's end date cannot be before its start date"@,
            Err(Refusal::ParallelActive) => res matches Err(AppError::Conflict(m)) && m@ == parallel_message(),
        },
{
    let (from, to) = match action {
        CycleAction::Start => (CycleState::Future, CycleState::Active),
        CycleAction::Complete => (CycleState::Active, CycleState::Closed),
        CycleAction::Reopen => (CycleState::Closed, CycleState::Active),
    };
    if state != from {
        let mut m = match action {
            CycleAction::Start => "only a future cycle can be started (this one is ".to_owned(),
            CycleAction::Complete => "only an active cycle can be completed (this one is ".to_owned(),
            CycleAction::Reopen => "only a closed cycle can be reopened (this one is ".to_owned(),
        };
        m.append(state.as_str());
        m.append(")");
        return Err(AppError::Conflict(m));
    }
    if action == CycleAction::Start && end_day < start_day {
        return Err(AppError::Validation("a cycle's end date cannot be before its start date".to_owned()));
    }
    if action != CycleAction::Complete && other_active {
        return Err(AppError::Conflict(
            "another cycle in this project is already active; parallel cycles are not supported yet".to_owned(),
        ));
    }
    Ok(to)
}

/// How many of `states` are active.
pub open spec fn active_count(states: Seq<CycleState>) -> nat
    decreases states.len(),
{
    if states.len() == 0 {
        0
    } else {
        active_count(states.drop_last()) + if states.last() == CycleState::Active {
            1nat
        } else {
            0nat
        }
    }
}

proof fn lemma_active_count_update(states: Seq<CycleState>, i: int, s: CycleState)
    requires
        0 <= i < states.len(),
    ensures
        active_count(states.update(i, s)) + (if states[i] == CycleState::Active {
            1int
        } else {
            0int
        }) == active_count(states) + (if s == CycleState::Active {
            1int
        } else {
            0int
        }),
    decreases states.len(),
{
    if i < states.len() - 1 {
        assert(states.update(i, s).drop_last() == states.drop_last().update(i, s));
        lemma_active_count_update(states.drop_last(), i, s);
    } else {
        assert(states.update(i, s).drop_last() == states.drop_last());
    }
}

proof fn lemma_no_other_active(states: Seq<CycleState>, i: int)
    requires
        0 <= i < states.len(),
        forall|j: int| 0 <= j < states.len() && j != i ==> states[j] != CycleState::Active,
    ensures
        active_count(states) <= 1,
        states[i] != CycleState::Active ==> active_count(states) == 0,
    decreases states.len(),
{
    let rest = states.drop_last();
    if i < states.len() - 1 {
        assert forall|j: int| 0 <= j < rest.len() && j != i implies rest[j] != CycleState::Active by {
            assert(rest[j] == states[j]);
        }
        assert(states.last() == states[states.len() - 1]);
        lemma_no_other_active(rest, i);
    } else {
        assert forall|j: int| 0 <= j < rest.len() implies rest[j] != CycleState::Active by {
            assert(rest[j] == states[j]);
        }
        lemma_none_active(rest);
    }
}

proof fn lemma_none_active(states: Seq<CycleState>)
    requires
        forall|j: int| 0 <= j < states.len() ==> states[j] != CycleState::Active,
    ensures
        active_count(states) == 0,
    decreases states.len(),
{
    if states.len() > 0 {
        let rest = states.drop_last();
        assert forall|j: int| 0 <= j < rest.len() implies rest[j] != CycleState::Active by {
            assert(rest[j] == states[j]);
        }
        lemma_none_active(rest);
    }
}

/// A project never has two active cycles: when its cycles' states hold at
/// most one active, an action the guard accepts on cycle `i` (with
/// `other_active` read from the other cycles) leaves at most one active.
pub proof fn lemma_one_active_cycle(
    states: Seq<CycleState>,
    i: int,
    action: CycleAction,
    start_day: int,
    end_day: int,
)
    requires
        0 <= i < states.len(),
        active_count(states) <= 1,
    ensures
        ({
            let other_active = exists|j: int| 0 <= j < states.len() && j != i && states[j] == CycleState::Active;
            action_rule(action, states[i], start_day, end_day, other_active) matches Ok(s) ==> active_count(
                states.update(i, s),
            ) <= 1
        }),
{
    let other_active = exists|j: int| 0 <= j < states.len() && j != i && states[j] == CycleState::Active;
    if let Ok(s) = action_rule(action, states[i], start_day, end_day, other_active) {
        lemma_active_count_update(states, i, s);
        if action != CycleAction::Complete {
            assert(!other_active);
            lemma_no_other_active(states.update(i, s), i);
        }
    }
}

/// The cards a completing cycle leaves open, in order: of the cards in its
/// scope, given as `(card id, category of its status)`, those whose status is
/// not in the done category.
pub open spec fn open_cards(in_scope: Seq<(String, StatusCategory)>) -> Seq<Seq<char>>
    decreases in_scope.len(),
{
    if in_scope.len() == 0 {
        Seq::empty()
    } else {
        let rest = open_cards(in_scope.drop_last());
        if in_scope.last().1 == StatusCategory::Done {
            rest
        } else {
            rest.push(in_scope.last().0@)
        }
    }
}

/// Picks out the cards a completing cycle leaves open, by [`open_cards`].
pub fn incomplete_cards(in_scope: &Vec<(String, StatusCategory)>) -> (ids: Vec<String>)
    ensures
        ids@.map_values(|s: String| s@) == open_cards(in_scope@),
{
    let mut ids: Vec<String> = Vec::new();
    let mut i: usize = 0;
    while i < in_scope.len()
        invariant
            i <= in_scope.len(),
            ids@.map_values(|s: String| s@) == open_cards(in_scope@.take(i as int)),
        decreases in_scope.len() - i,
    {
        proof {
            assert(in_scope@.take(i + 1).drop_last() == in_scope@.take(i as int));
            assert(in_scope@.take(i + 1).last() == in_scope@[i as int]);
        }
        let (id, category) = &in_scope[i];
        if !category.is_done() {
            let c = copy_str(id.as_str());
            let ghost before = ids@;
            ids.push(c);
            proof {
                assert(ids@.map_values(|s: String| s@) == before.map_values(|s: String| s@).push(c@));
            }
        }
        i = i + 1;
    }
    proof {
        assert(in_scope@.take(in_scope.len() as int) == in_scope@);
    }
    ids
}

/// What completing a cycle does with its open cards.
#[derive(Debug, Clone, Copy, PartialEq, Eq, Structural)]
pub enum CarryStep {
    /// No card is open: nothing leaves, no target is looked up or created.
    Nothing,
    /// The open cards leave the cycle for the backlog.
    ToBacklog,
    /// The open cards leave the cycle and join the named existing cycle, once
    /// [`check_carry_target`] accepts it.
    IntoExisting,
    /// The open cards leave the cycle and join a cycle created for them.
    IntoNew,
}

/// The carry step of a completion with `open` cards left open: nothing at all
/// when none is, else where `carry_to` sends them.
pub fn carry_step(open: usize, carry_to: &CarryTo) -> (step: CarryStep)
    ensures
        open == 0 ==> step == CarryStep::Nothing,
        open > 0 ==> step == match carry_to {
            CarryTo::Backlog => CarryStep::ToBacklog,
            CarryTo::ExistingCycle(_) => CarryStep::IntoExisting,
            CarryTo::NewCycle(_) => CarryStep::IntoNew,
        },
{
    if open == 0 {
        return CarryStep::Nothing;
    }
    match carry_to {
        CarryTo::Backlog => CarryStep::ToBacklog,
        CarryTo::ExistingCycle(_) => CarryStep::IntoExisting,
        CarryTo::NewCycle(_) => CarryStep::IntoNew,
    }
}

/// The checks on the cycle a completion carries its open cards into, once it
/// is looked up (`None` when there is no such cycle): it must be in the same
/// project and not closed.
pub fn check_carry_target(
    target: Option<(&str, CycleState)>,
    project_id: &str,
) -> (res: AppResult<()>)
    ensures
        match target {
            None => res matches Err(AppError::Validation(m)) && m@ == "no such cycle in this project to carry into"@,
            Some((p, st)) => if p@ != project_id@ {
                res matches Err(AppError::Validation(m)) && m@ == "no such cycle in this project to carry into"@
            } else if st == CycleState::Closed {
                res matches Err(AppError::Validation(m)) && m@ == "cannot carry cards into a closed cycle"@
            } else {
                res is Ok
            },
        },
{
    match target {
        Some((p, st)) => {
            if !str_eq(p, project_id) {
                return Err(AppError::Validation("no such cycle in this project to carry into".to_owned()));
            }
            if st == CycleState::Closed {
                return Err(AppError::Validation("cannot carry cards into a closed cycle".to_owned()));
            }
            Ok(())
        },
        None => Err(AppError::Validation("no such cycle in this project to carry into".to_owned())),
    }
}

/// Whether a card may join a cycle, once it is looked up (`None` when there
/// is no such cycle): not into a closed one.
pub fn check_add_card(state: Option<CycleState>) -> (res: AppResult<()>)
    ensures
        state is None ==> res matches Err(AppError::NotFound),
        state == Some(CycleState::Closed) ==> (res matches Err(AppError::Conflict(m)) && m@
            == "cannot add a card to a closed cycle"@),
        (state == Some(CycleState::Future) || state == Some(CycleState::Active)) ==> res is Ok,
{
    match state {
        None => Err(AppError::NotFound),
        Some(CycleState::Closed) => Err(AppError::Conflict("cannot add a card to a closed cycle".to_owned())),
        Some(_) => Ok(()),
    }
}

/// A cycle. Dates are `YYYY-MM-DD`; timestamps are the text they are stored
/// as.
#[derive(Debug, Clone)]
pub struct Cycle {
    /// The cycle's id.
    pub id: String,
    /// The owning project.
    pub project_id: String,
    /// The cycle's name.
    pub name: String,
    /// What the cycle is for.
    pub goal: Option<String>,
    /// `None` until started.
    pub start_date: Option<String>,
    /// `None` until started; replanned on a reopen.
    pub end_date: Option<String>,
    /// Future, active or closed.
    pub state: CycleState,
    /// Display order within the project's cycle list.
    pub position: i64,
    /// When it was created.
    pub created_at: String,
    /// When it last changed.
    pub updated_at: String,
}

fn copy_opt(s: &Option<String>) -> (c: Option<String>)
    ensures
        crate::text::opt_string_view(c) == crate::text::opt_string_view(*s),
{
    match s {
        Some(v) => Some(v.clone()),
        None => None,
    }
}

/// The row an accepted action leaves: the state it moves to, stamped `now`.
/// A start sets both dates; a reopen replans the end date and keeps the
/// start date; a completion keeps both.
pub fn acted_on(cycle: &Cycle, action: CycleAction, start_date: &str, end_date: &str, now: &str) -> (next: Cycle)
    ensures
        next.state == action_edge(action).1,
        next.id@ == cycle.id@,
        next.project_id@ == cycle.project_id@,
        next.name@ == cycle.name@,
        crate::text::opt_string_view(next.goal) == crate::text::opt_string_view(cycle.goal),
        next.position == cycle.position,
        next.created_at@ == cycle.created_at@,
        next.updated_at@ == now@,
        crate::text::opt_string_view(next.start_date) == (if action == CycleAction::Start {
            Some(start_date@)
        } else {
            crate::text::opt_string_view(cycle.start_date)
        }),
        crate::text::opt_string_view(next.end_date) == (if action == CycleAction::Complete {
            crate::text::opt_string_view(cycle.end_date)
        } else {
            Some(end_date@)
        }),
{
    let (state, start, end) = match action {
        CycleAction::Start => (
            CycleState::Active,
            Some(crate::text::copy_str(start_date)),
            Some(crate::text::copy_str(end_date)),
        ),
        CycleAction::Complete => (CycleState::Closed, copy_opt(&cycle.start_date), copy_opt(&cycle.end_date)),
        CycleAction::Reopen => (CycleState::Active, copy_opt(&cycle.start_date), Some(crate::text::copy_str(end_date))),
    };
    Cycle {
        id: cycle.id.clone(),
        project_id: cycle.project_id.clone(),
        name: cycle.name.clone(),
        goal: copy_opt(&cycle.goal),
        start_date: start,
        end_date: end,
        state,
        position: cycle.position,
        created_at: cycle.created_at.clone(),
        updated_at: crate::text::copy_str(now),
    }
}

/// A new cycle for a project, before it is written: refused unless the
/// project has cycles enabled. The cycle is created `future`, with no dates,
/// at `position`, after the project's other cycles.
pub fn new_cycle(
    project: &crate::domain::project::Project,
    cycle: &NewCycle,
    id: &str,
    position: i64,
    now: &str,
) -> (res: AppResult<Cycle>)
    ensures
        !project.cycles_enabled ==> (res matches Err(AppError::Validation(m)) && m@
            == "this project does not have cycles enabled"@),
        project.cycles_enabled ==> (res matches Ok(c) && {
            &&& c.id@ == id@
            &&& c.project_id@ == project.id@
            &&& c.name@ == cycle.name@
            &&& crate::text::opt_string_view(c.goal) == crate::text::opt_str_view(cycle.goal)
            &&& c.start_date is None
            &&& c.end_date is None
            &&& c.state == CycleState::Future
            &&& c.position == position
            &&& c.created_at@ == now@
            &&& c.updated_at@ == now@
        }),
{
    if !project.cycles_enabled {
        return Err(AppError::Validation("this project does not have cycles enabled".to_owned()));
    }
    Ok(Cycle {
        id: copy_str(id),
        project_id: project.id.clone(),
        name: copy_str(cycle.name),
        goal: match cycle.goal {
            Some(g) => Some(copy_str(g)),
            None => None,
        },
        start_date: None,
        end_date: None,
        state: CycleState::Future,
        position,
        created_at: copy_str(now),
        updated_at: copy_str(now),
    })
}

} // verus!
