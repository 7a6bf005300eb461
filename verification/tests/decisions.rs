use atlas_core::domain::board::{
    assignee_swimlanes, bucket, child_rollups, parent_swimlanes, try_child_rollups, ChildRollup, LaneLayout,
};
use atlas_core::domain::card::{
    apply_resolution_rules, archived_at_after, arrival_resolution, check_new_parent, check_type_change, drop_rank,
    neighbour_rank, not_of_project, placement_rank, Neighbour, Placement,
};
use atlas_core::domain::cycle_snapshot::start_of_day;
use atlas_core::domain::cycle::{check_action, check_add_card, check_carry_target, CycleAction, CycleState};
use atlas_core::domain::hierarchy::{check_ancestor_walk, check_reparent, subtree_height_of, TreeCard, WALK_LIMIT};
use atlas_core::domain::member::{ProjectRole, Role};
use atlas_core::domain::workflow::{
    assignee_for, check_required_field, check_transition, check_update_field, choose_transition, conditions_verdict,
    evaluate_condition, holds_role, is_permissive, synthetic_moves, unknown_user, AssignTarget, Condition, FieldName,
    GateTable, Transition, Workflow,
};
use atlas_core::domain::StatusCategory;
use atlas_core::error::AppError;
use atlas_core::integrations::github::client::{pull_to_summary, PrState};
use atlas_core::integrations::github::smart_commit::{did_move, is_rejection, Applied};
use atlas_core::integrations::github::RepoRef;
use atlas_core::rank::Rank;

fn conflict(e: AppError) -> String {
    match e {
        AppError::Conflict(m) => m,
        other => panic!("expected a conflict, got {other:?}"),
    }
}

fn validation(e: AppError) -> String {
    match e {
        AppError::Validation(m) => m,
        other => panic!("expected a validation error, got {other:?}"),
    }
}

fn card(id: &str, project: &str, key: &str) -> TreeCard {
    TreeCard { id: id.to_owned(), project_id: project.to_owned(), key: key.to_owned() }
}

#[test]
fn a_reparent_is_refused_for_each_broken_rule_in_order() {
    let c = card("c", "p", "ATL-1");
    let same = card("c", "p", "ATL-1");
    assert_eq!(
        conflict(check_reparent(&c, &same, &vec![], 0, 1, 1).unwrap_err()),
        "A card cannot be its own parent."
    );
    let elsewhere = card("x", "q", "OTH-2");
    assert_eq!(
        conflict(check_reparent(&c, &elsewhere, &vec![], 0, 1, 1).unwrap_err()),
        "ATL-1 and OTH-2 are in different projects. Move the card to the other project first."
    );
    let below = card("d", "p", "ATL-5");
    assert_eq!(
        conflict(check_reparent(&c, &below, &vec!["d".to_owned(), "c".to_owned()], 0, 1, 1).unwrap_err()),
        "ATL-1 is already somewhere above ATL-5 in the hierarchy, so this would make a loop."
    );
    assert_eq!(
        conflict(check_reparent(&c, &below, &vec!["d".to_owned()], 1, -1, 1).unwrap_err()),
        "ATL-5 sits at hierarchy level -1 and ATL-1 at level 1. A parent must be at a higher level than its child."
    );
    assert_eq!(
        conflict(check_reparent(&c, &below, &vec!["d".to_owned(), "r".to_owned(), "s".to_owned()], 0, 1, 3).unwrap_err()),
        "That would nest cards 6 levels deep; the limit is 5."
    );
    assert!(check_reparent(&c, &below, &vec!["d".to_owned(), "r".to_owned()], 0, 1, 3).is_ok());
}

#[test]
fn a_done_landing_gets_a_resolution_and_any_other_loses_it() {
    // The edit's own resolution wins, then the card's, then the default.
    let r = apply_resolution_rules(true, None, None, Some("won't"), Some("done"), "ATL", "Done", "t1").unwrap();
    assert_eq!(r.resolution_id.as_deref(), Some("won't"));
    assert_eq!(r.resolved_at.as_deref(), Some("t1"));
    let r = apply_resolution_rules(true, Some("dup"), Some("t0"), None, Some("done"), "ATL", "Done", "t1").unwrap();
    assert_eq!(r.resolution_id.as_deref(), Some("dup"));
    assert_eq!(r.resolved_at.as_deref(), Some("t0"), "an unchanged resolution keeps its date");
    let r = apply_resolution_rules(true, Some("dup"), None, None, Some("done"), "ATL", "Done", "t1").unwrap();
    assert_eq!(r.resolved_at.as_deref(), Some("t1"), "a resolution with no recorded date gets one");
    let r = apply_resolution_rules(true, None, None, None, Some("done"), "ATL", "Done", "t1").unwrap();
    assert_eq!(r.resolution_id.as_deref(), Some("done"));
    // Reopened: no resolution, however hard the edit asks for one.
    let r = apply_resolution_rules(false, Some("done"), Some("t0"), Some("done"), Some("done"), "ATL", "To Do", "t1").unwrap();
    assert_eq!(r.resolution_id, None);
    assert_eq!(r.resolved_at, None);
    // Nothing to give: refused.
    assert_eq!(
        conflict(apply_resolution_rules(true, None, None, None, None, "ATL", "Done", "t1").unwrap_err()),
        "Project ATL has no resolutions, so a card cannot be moved to \"Done\" \u{2014} a card in a done status must say why it stopped. Add a resolution to the project first."
    );
    let r = arrival_resolution(true, Some("done"), "ATL", "Done", "t9").unwrap();
    assert_eq!((r.resolution_id.as_deref(), r.resolved_at.as_deref()), (Some("done"), Some("t9")));
    let r = arrival_resolution(false, Some("done"), "ATL", "To Do", "t9").unwrap();
    assert_eq!((r.resolution_id, r.resolved_at), (None, None));
}

#[test]
fn archiving_keeps_the_first_date() {
    assert_eq!(archived_at_after(true, Some("t0"), "t1").as_deref(), Some("t0"));
    assert_eq!(archived_at_after(true, None, "t1").as_deref(), Some("t1"));
    assert_eq!(archived_at_after(false, Some("t0"), "t1"), None);
}

#[test]
fn a_type_change_must_keep_the_card_between_its_parent_and_children() {
    assert!(check_type_change("ATL-1", 0, Some(1), Some(-1)).is_ok());
    assert_eq!(
        conflict(check_type_change("ATL-1", 1, Some(1), None).unwrap_err()),
        "ATL-1 would sit at hierarchy level 1, which is not below its parent's level 1. Move it out from under its parent first."
    );
    assert_eq!(
        conflict(check_type_change("ATL-1", -1, None, Some(-1)).unwrap_err()),
        "ATL-1 would sit at hierarchy level -1, which is not above its children's level -1. Move its children out first."
    );
}

#[test]
fn a_new_card_under_a_parent_is_checked_like_a_reparent() {
    assert!(check_new_parent("ATL-1", "p", "p", 1, "Story", 0, 3).is_ok());
    assert_eq!(conflict(check_new_parent("OTH-1", "q", "p", 1, "Story", 0, 1).unwrap_err()), "OTH-1 is in another project.");
    assert_eq!(
        conflict(check_new_parent("ATL-1", "p", "p", 0, "Story", 0, 1).unwrap_err()),
        "ATL-1 sits at hierarchy level 0, and a Story sits at level 0. A parent must be at a higher level than its child."
    );
    assert_eq!(
        conflict(check_new_parent("ATL-1", "p", "p", 1, "Story", 0, 5).unwrap_err()),
        "That would nest cards 6 levels deep; the limit is 5."
    );
    assert_eq!(validation(not_of_project("s9", "status", "ATL")), "\"s9\" is not a status of project ATL.");
}

#[test]
fn placements_and_drops_rank_where_the_user_put_the_card() {
    let first = Rank::first();
    assert_eq!(placement_rank(Placement::Top, None).unwrap(), first);
    let top = placement_rank(Placement::Top, Some(&first)).unwrap();
    let bottom = placement_rank(Placement::Bottom, Some(&first)).unwrap();
    assert!(top < first && first < bottom);

    assert_eq!(drop_rank(None, None, Some(&first), None).unwrap(), bottom);
    let mid = drop_rank(Some(&first), Some(&bottom), None, None).unwrap();
    assert!(first < mid && mid < bottom);
    assert_eq!(
        conflict(drop_rank(Some(&first), Some(&bottom), None, Some("ATL-7")).unwrap_err()),
        "ATL-7 is between those two cards now; refetch the board and try again."
    );
    assert!(matches!(drop_rank(Some(&bottom), Some(&first), None, None), Err(AppError::Conflict(_))));

    let n = Neighbour { project_id: "p".into(), status_id: "s".into(), key: "ATL-2".into(), rank: first.clone() };
    assert_eq!(validation(neighbour_rank("c", "p", "s", "c", Some(&n)).unwrap_err()), "A card cannot be dropped next to itself.");
    assert_eq!(conflict(neighbour_rank("c", "p", "s", "n", None).unwrap_err()), "That card no longer exists; refetch the board.");
    assert_eq!(
        conflict(neighbour_rank("c", "p", "t", "n", Some(&n)).unwrap_err()),
        "ATL-2 is not in that column any more; refetch the board and try again."
    );
    assert_eq!(neighbour_rank("c", "p", "s", "n", Some(&n)).unwrap(), first);
}

#[test]
fn a_cycle_moves_future_active_closed_and_back() {
    assert_eq!(check_action(CycleAction::Start, CycleState::Future, 10, 20, false).unwrap(), CycleState::Active);
    assert_eq!(check_action(CycleAction::Complete, CycleState::Active, 0, 0, true).unwrap(), CycleState::Closed);
    assert_eq!(check_action(CycleAction::Reopen, CycleState::Closed, 0, 0, false).unwrap(), CycleState::Active);
    assert_eq!(
        conflict(check_action(CycleAction::Start, CycleState::Active, 10, 20, false).unwrap_err()),
        "only a future cycle can be started (this one is active)"
    );
    assert_eq!(
        conflict(check_action(CycleAction::Complete, CycleState::Future, 0, 0, false).unwrap_err()),
        "only an active cycle can be completed (this one is future)"
    );
    assert_eq!(
        conflict(check_action(CycleAction::Reopen, CycleState::Active, 0, 0, false).unwrap_err()),
        "only a closed cycle can be reopened (this one is active)"
    );
    assert_eq!(
        validation(check_action(CycleAction::Start, CycleState::Future, 20, 10, false).unwrap_err()),
        "a cycle's end date cannot be before its start date"
    );
    assert_eq!(
        conflict(check_action(CycleAction::Reopen, CycleState::Closed, 0, 0, true).unwrap_err()),
        "another cycle in this project is already active; parallel cycles are not supported yet"
    );
    assert!(check_carry_target(Some(("p", CycleState::Future)), "p").is_ok());
    assert_eq!(validation(check_carry_target(Some(("p", CycleState::Closed)), "p").unwrap_err()), "cannot carry cards into a closed cycle");
    assert_eq!(validation(check_carry_target(Some(("q", CycleState::Active)), "p").unwrap_err()), "no such cycle in this project to carry into");
    assert_eq!(validation(check_carry_target(None, "p").unwrap_err()), "no such cycle in this project to carry into");
    assert!(matches!(check_add_card(None), Err(AppError::NotFound)));
    assert_eq!(conflict(check_add_card(Some(CycleState::Closed)).unwrap_err()), "cannot add a card to a closed cycle");
    assert!(check_add_card(Some(CycleState::Future)).is_ok());
}

fn strings(v: &[&str]) -> Vec<String> {
    v.iter().map(|s| s.to_string()).collect()
}

#[test]
fn cards_bucket_into_their_status_columns_in_order() {
    let statuses = strings(&["todo", "doing", "done"]);
    let cards = strings(&["doing", "todo", "gone", "doing", "done"]);
    let all: Vec<(String, bool)> = cards.iter().map(|c| (c.clone(), true)).collect();
    let columns = bucket(&statuses, &all);
    assert_eq!(columns, vec![vec![1], vec![0, 3], vec![4]]);
    let keep = [true, false, true, true, false];
    let some: Vec<(String, bool)> = cards.iter().zip(keep).map(|(c, k)| (c.clone(), k)).collect();
    let columns = bucket(&statuses, &some);
    assert_eq!(columns, vec![vec![], vec![0, 3], vec![]]);
}

#[test]
fn swimlanes_cover_present_groups_then_the_catch_all() {
    let statuses = strings(&["todo", "done"]);
    let cards = vec![
        ("todo".to_owned(), Some("u2".to_owned())),
        ("done".to_owned(), None),
        ("todo".to_owned(), Some("u2".to_owned())),
    ];
    let lanes = vec![("u1".to_owned(), "Ann".to_owned()), ("u2".to_owned(), "Bo".to_owned())];
    let out = assignee_swimlanes(&statuses, &cards, &lanes);
    assert_eq!(
        out,
        vec![
            LaneLayout { key: "u2".into(), label: "Bo".into(), columns: vec![vec![0, 2], vec![]] },
            LaneLayout { key: String::new(), label: "Unassigned".into(), columns: vec![vec![], vec![1]] },
        ]
    );
}

#[test]
fn child_rollups_sum_each_parent_by_category() {
    let rows = vec![
        ("a".to_owned(), StatusCategory::Todo, 2),
        ("b".to_owned(), StatusCategory::Done, 1),
        ("a".to_owned(), StatusCategory::Done, 3),
        ("a".to_owned(), StatusCategory::InProgress, 1),
    ];
    assert_eq!(
        child_rollups(&rows),
        vec![
            ("a".to_owned(), ChildRollup { total: 6, todo: 2, in_progress: 1, done: 3 }),
            ("b".to_owned(), ChildRollup { total: 1, todo: 0, in_progress: 0, done: 1 }),
        ]
    );
    assert!(child_rollups(&vec![]).is_empty());
}

fn transition(from: Option<&str>, name: &str) -> Transition {
    Transition {
        id: "t1".into(),
        workflow_id: "w1".into(),
        name: name.into(),
        from_status_id: from.map(|s| s.to_owned()),
        to_status_id: "done".into(),
        position: 0,
    }
}

fn workflow(default: bool) -> Workflow {
    Workflow {
        id: "w1".into(),
        project_id: "p".into(),
        name: "Dev".into(),
        is_default: default,
        created_at: "t".into(),
        updated_at: "t".into(),
    }
}

#[test]
fn conditions_hide_transitions_for_the_right_people() {
    let hidden = |c| evaluate_condition(c, Some("u1"), Some("u2"), Some("u1"), false, true, 2);
    assert_eq!(hidden(Condition::OnlyAssignee).as_deref(), Some("Only the assignee may make this transition."));
    assert_eq!(hidden(Condition::OnlyReporter), None);
    assert_eq!(
        hidden(Condition::UserInRole(ProjectRole::Owner)).as_deref(),
        Some("Only a project owner may make this transition.")
    );
    assert_eq!(
        hidden(Condition::ChildBlocking).as_deref(),
        Some("This card has children that are not done. Finish or move them out before closing it.")
    );
    // A system move: only the card-state condition applies.
    assert_eq!(evaluate_condition(Condition::OnlyAssignee, None, None, None, false, true, 0), None);
    assert_eq!(evaluate_condition(Condition::ChildBlocking, None, None, None, false, false, 3), None);

    assert!(holds_role(Some(Role::Member), Some(false), Some(ProjectRole::Owner), ProjectRole::Member));
    assert!(!holds_role(Some(Role::Viewer), Some(true), None, ProjectRole::Member));
    assert!(!holds_role(None, Some(true), None, ProjectRole::Viewer));
    assert!(!holds_role(Some(Role::Admin), None, None, ProjectRole::Viewer));
}

#[test]
fn a_move_takes_the_first_open_transition_or_names_why_not() {
    assert_eq!(choose_transition("Dev", &vec![Some("no".into()), None, None]).unwrap(), 1);
    assert_eq!(conflict(choose_transition("Dev", &vec![Some("first".into()), Some("second".into())]).unwrap_err()), "first");
    assert_eq!(
        conflict(choose_transition("Dev", &vec![]).unwrap_err()),
        "There is no transition to that status in the \"Dev\" workflow."
    );
    assert_eq!(conditions_verdict(&vec![None, Some("x".into()), Some("y".into())]).as_deref(), Some("x"));
    assert_eq!(conditions_verdict(&vec![None]), None);
    assert!(is_permissive(None));
    assert!(is_permissive(Some(&workflow(true))));
    assert!(!is_permissive(Some(&workflow(false))));
}

#[test]
fn a_named_transition_must_belong_be_offered_and_be_unhidden() {
    let w = workflow(false);
    assert!(check_transition(Some(&w), &transition(None, "Resolve"), "todo", None).is_ok());
    assert!(check_transition(Some(&w), &transition(Some("todo"), "Resolve"), "todo", None).is_ok());
    assert_eq!(
        conflict(check_transition(Some(&w), &transition(Some("doing"), "Resolve"), "todo", None).unwrap_err()),
        "The transition \"Resolve\" is not available from the card's current status."
    );
    assert_eq!(
        conflict(check_transition(Some(&w), &transition(None, "Resolve"), "todo", Some("nope".into())).unwrap_err()),
        "nope"
    );
    let mut other = transition(None, "Resolve");
    other.workflow_id = "w2".into();
    assert!(matches!(check_transition(Some(&w), &other, "todo", None), Err(AppError::NotFound)));
    assert_eq!(
        conflict(check_transition(None, &transition(None, "Resolve"), "todo", None).unwrap_err()),
        "This card's type has no custom workflow, so it has no named transitions. Move it with the board instead."
    );
}

#[test]
fn validators_and_post_functions_refuse_with_the_field_named() {
    assert_eq!(
        validation(check_required_field(FieldName::DueDate, true).unwrap_err()),
        "The due date is required to make this transition."
    );
    assert!(check_required_field(FieldName::DueDate, false).is_ok());
    assert!(check_update_field(FieldName::Description).is_ok());
    assert_eq!(
        validation(check_update_field(FieldName::StartDate).unwrap_err()),
        "UpdateField cannot set the start date here; use a dedicated post-function."
    );
    assert_eq!(
        validation(unknown_user("assignee", "ghost")),
        "An UpdateField post-function sets the assignee to \"ghost\", who is not a user of this instance."
    );
    assert_eq!(assignee_for(AssignTarget::CurrentUser, Some("me"), Some("rep"), Some("lead")).as_deref(), Some("me"));
    assert_eq!(assignee_for(AssignTarget::Reporter, Some("me"), Some("rep"), None).as_deref(), Some("rep"));
    assert_eq!(assignee_for(AssignTarget::Lead, Some("me"), Some("rep"), Some("lead")).as_deref(), Some("lead"));
    assert_eq!(assignee_for(AssignTarget::Unassign, Some("me"), Some("rep"), Some("lead")), None);
}

#[test]
fn a_permissive_workflow_offers_every_other_status() {
    let statuses = vec![("s1".to_owned(), "To Do".to_owned()), ("s2".to_owned(), "Done".to_owned())];
    let moves = synthetic_moves(&statuses, "s1");
    assert_eq!(moves.len(), 1);
    assert_eq!(moves[0].id, None);
    assert_eq!(moves[0].name, "Move to Done");
    assert_eq!(moves[0].to_status_id, "s2");
}

#[test]
fn gate_tables_have_fixed_queries() {
    assert_eq!(
        GateTable::Conditions.insert_unordered_sql(),
        "INSERT INTO transition_conditions (id, transition_id, kind, config) VALUES (?, ?, ?, ?)"
    );
    assert_eq!(GateTable::PostFunctions.insert_unordered_sql(), "");
    assert_eq!(
        GateTable::PostFunctions.select_sql(),
        "SELECT id, transition_id, kind, config, position FROM transition_post_functions WHERE transition_id = ? ORDER BY position, id"
    );
}

#[test]
fn the_workflow_refusals_are_skipped_and_faults_are_not() {
    assert!(is_rejection(&AppError::Conflict("x".into())));
    assert!(is_rejection(&AppError::Forbidden));
    assert!(is_rejection(&AppError::Validation("x".into())));
    assert!(!is_rejection(&AppError::NotFound));
    assert_eq!(did_move::<()>(Ok(())).unwrap(), true);
    assert_eq!(did_move::<()>(Err(AppError::Forbidden)).unwrap(), false);
    assert!(matches!(did_move::<()>(Err(AppError::internal("db down"))), Err(AppError::Internal(_))));
    assert!(Applied::default().is_nothing());
    assert!(!Applied { commented: true, ..Applied::default() }.is_nothing());
}

#[test]
fn small_github_values_render_as_documented() {
    assert_eq!(RepoRef::new("octo".into(), "atlas".into()).to_string(), "octo/atlas");
    let pr = pull_to_summary(3, "t".into(), "u".into(), "closed", false, Some("2026-01-01".into()));
    assert_eq!(pr.state, PrState::Merged);
    assert_eq!(pull_to_summary(3, "t".into(), "u".into(), "closed", false, None).state, PrState::Closed);
}

#[test]
fn a_walk_past_the_limit_is_a_cycle_and_heights_default_to_one() {
    let ids: Vec<String> = (0..WALK_LIMIT).map(|i| format!("c{i}")).collect();
    assert_eq!(check_ancestor_walk("c0", ids.clone()).unwrap(), ids);
    let mut longer = ids;
    longer.push("c64".to_owned());
    match check_ancestor_walk("c0", longer) {
        Err(AppError::Internal(m)) => {
            assert_eq!(m, "card c0 has an ancestor chain longer than 64: the tree contains a cycle")
        },
        other => panic!("unexpected {other:?}"),
    }
    assert_eq!(subtree_height_of(None), 1);
    assert_eq!(subtree_height_of(Some(3)), 3);
    assert_eq!(subtree_height_of(Some(-2)), 1);
}

#[test]
fn a_snapshot_is_keyed_by_the_start_of_its_utc_day() {
    assert_eq!(start_of_day(0), 0);
    assert_eq!(start_of_day(86_399), 0);
    assert_eq!(start_of_day(86_400), 86_400);
    assert_eq!(start_of_day(1_717_200_000 + 3_600), 1_717_200_000);
    assert_eq!(start_of_day(-1), -86_400);
}

#[test]
fn parent_lanes_end_in_a_no_parent_lane() {
    let statuses = strings(&["todo", "done"]);
    let cards = vec![("done".to_owned(), Some("p1".to_owned())), ("todo".to_owned(), None)];
    let lanes = vec![("p1".to_owned(), "Ship it".to_owned())];
    let out = parent_swimlanes(&statuses, &cards, &lanes);
    assert_eq!(
        out,
        vec![
            LaneLayout { key: "p1".into(), label: "Ship it".into(), columns: vec![vec![], vec![0]] },
            LaneLayout { key: String::new(), label: "No parent".into(), columns: vec![vec![1], vec![]] },
        ]
    );
    let parented = vec![("todo".to_owned(), Some("p1".to_owned()))];
    assert_eq!(parent_swimlanes(&statuses, &parented, &lanes).len(), 1, "no catch-all when every card has a parent");
}

#[test]
fn rollups_that_would_overflow_are_refused_up_front() {
    let rows = vec![("a".to_owned(), StatusCategory::Todo, i64::MAX), ("a".to_owned(), StatusCategory::Done, 1)];
    assert!(try_child_rollups(&rows).is_none());
    let rows = vec![("a".to_owned(), StatusCategory::Todo, i64::MAX), ("b".to_owned(), StatusCategory::Done, 1)];
    assert_eq!(
        try_child_rollups(&rows),
        Some(vec![
            ("a".to_owned(), ChildRollup { total: i64::MAX, todo: i64::MAX, in_progress: 0, done: 0 }),
            ("b".to_owned(), ChildRollup { total: 1, todo: 0, in_progress: 0, done: 1 }),
        ])
    );
}
