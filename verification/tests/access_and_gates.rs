use atlas_core::domain::board::{aql_escape, validate_board_name, BoardScope};
use atlas_core::domain::filter::validate_aql_length;
use atlas_core::domain::tag::{check_merge_ids, check_merge_scopes, Tag};
use atlas_core::domain::member::{grants_ownership, projects_solely_owned_by};
use atlas_core::domain::board::{Board, BoardPatch};
use atlas_core::domain::card::Card;
use atlas_core::domain::member::{
    effective_role, needs_grant, require, MemberListing, ProjectMemberDto, ProjectRole, Role, User,
};
use atlas_core::domain::project::{card_key, Project};
use atlas_core::domain::agent_session::{check_finish, AgentSessionStatus};
use atlas_core::domain::cycle::{acted_on, new_cycle, Cycle, CycleAction, CycleState, NewCycle};
use atlas_core::domain::workflow::{
    apply_post_function, check_delete, deferred_actions, foreign_card_type, run_validators, unhidden_transitions,
    AssignTarget, Deferred, FieldName, PostFunction, Transition, Validator, Workflow,
};
use atlas_core::domain::EstimationUnit;
use atlas_core::error::AppError;
use atlas_core::integrations::github::client::{PrState, PrSummary};
use atlas_core::integrations::github::poll::{pr_number, terminal_update};
use atlas_core::integrations::github::store::{CardGitLink, NewWorklog, ProjectRepo};
use atlas_core::integrations::github::validator::GithubValidator;
use atlas_core::rank::Rank;

fn project(lead: Option<&str>) -> Project {
    Project {
        id: "p1".to_owned(),
        key: "ATLAS".to_owned(),
        name: "Atlas".to_owned(),
        description: None,
        lead_id: lead.map(str::to_owned),
        avatar_url: None,
        cover_image_url: None,
        template: "programming".to_owned(),
        card_counter: 41,
        cycles_enabled: true,
        estimation_unit: EstimationUnit::Points,
        archived_at: None,
        created_at: "2024-01-01T00:00:00.000Z".to_owned(),
        updated_at: "2024-01-01T00:00:00.000Z".to_owned(),
    }
}

fn user(id: &str, role: Role) -> User {
    User { id: id.to_owned(), role, is_active: true }
}

fn card() -> Card {
    Card {
        id: "c1".to_owned(),
        key: "ATLAS-1".to_owned(),
        project_id: "p1".to_owned(),
        type_id: "t1".to_owned(),
        parent_id: None,
        summary: "Ship it".to_owned(),
        description: Some("  \n ".to_owned()),
        status_id: "s1".to_owned(),
        priority_id: None,
        assignee_id: None,
        reporter_id: Some("u-rep".to_owned()),
        creator_id: "u-rep".to_owned(),
        resolution_id: None,
        resolved_at: None,
        due_date: None,
        start_date: None,
        estimate: None,
        rank: Rank::first(),
        archived_at: None,
        deleted_at: None,
        created_at: "2024-01-01T00:00:00.000Z".to_owned(),
        updated_at: "2024-01-01T00:00:00.000Z".to_owned(),
    }
}

#[test]
fn no_access_is_a_404_and_too_little_access_is_a_403() {
    assert!(matches!(require(None, ProjectRole::Viewer), Err(AppError::NotFound)));
    assert!(matches!(require(Some(ProjectRole::Viewer), ProjectRole::Member), Err(AppError::Forbidden)));
    assert_eq!(require(Some(ProjectRole::Owner), ProjectRole::Member).unwrap(), ProjectRole::Owner);
    assert_eq!(require(Some(ProjectRole::Member), ProjectRole::Member).unwrap(), ProjectRole::Member);
}

#[test]
fn admins_and_leads_need_no_grant_row() {
    let p = project(Some("u-lead"));
    assert!(!needs_grant(&p, &user("u-admin", Role::Admin)));
    assert!(!needs_grant(&p, &user("u-lead", Role::Member)));
    assert!(needs_grant(&p, &user("u-other", Role::Member)));
    assert_eq!(effective_role(&p, &user("u-lead", Role::Member), None), Some(ProjectRole::Owner));
    assert_eq!(effective_role(&p, &user("u-lead", Role::Viewer), None), Some(ProjectRole::Viewer));
    assert_eq!(effective_role(&p, &user("u-other", Role::Member), None), None);
    assert_eq!(
        effective_role(&p, &user("u-other", Role::Member), Some(ProjectRole::Member)),
        Some(ProjectRole::Member)
    );
}

#[test]
fn a_member_list_shows_the_row_and_what_it_actually_allows() {
    let row = MemberListing {
        user_id: "u1".to_owned(),
        role: ProjectRole::Owner,
        added_at: "2024-01-01T00:00:00.000Z".to_owned(),
        added_by: None,
        username: "ro".to_owned(),
        display_name: "Read Only".to_owned(),
        avatar_url: None,
        instance_role: Role::Viewer,
        is_active: true,
        is_lead: false,
    };
    let dto = ProjectMemberDto::from_listing(&row);
    assert_eq!(dto.role, ProjectRole::Owner);
    assert_eq!(dto.effective_role, ProjectRole::Viewer);
    assert_eq!(dto.username, "ro");
}

#[test]
fn card_keys_are_the_project_key_and_the_counter() {
    assert_eq!(card_key("ATLAS", 1), "ATLAS-1");
    assert_eq!(card_key("OPS", 123), "OPS-123");
    assert_ne!(card_key("OPS", 12), card_key("OPS", 120));
    let mut p = project(None);
    assert!(!p.is_archived());
    p.archived_at = Some("2024-02-02T00:00:00.000Z".to_owned());
    assert!(p.is_archived());
}

#[test]
fn a_board_patch_writes_the_named_fields_only() {
    let board = Board {
        id: "b1".to_owned(),
        project_id: "p1".to_owned(),
        name: "Sprint".to_owned(),
        default_parent_id: Some("c9".to_owned()),
        aql_filter: Some("assignee = me".to_owned()),
        swimlane: "none".to_owned(),
        wip_limits: "{}".to_owned(),
        created_at: "2024-01-01T00:00:00.000Z".to_owned(),
        updated_at: "2024-01-01T00:00:00.000Z".to_owned(),
    };
    assert!(BoardPatch::default().is_empty());
    let patch = BoardPatch {
        name: Some("Kanban".to_owned()),
        aql_filter: Some(None),
        ..BoardPatch::default()
    };
    assert!(!patch.is_empty());
    let next = patch.applied_to(&board, "2024-03-03T00:00:00.000Z");
    assert_eq!(next.name, "Kanban");
    assert_eq!(next.aql_filter, None);
    assert_eq!(next.default_parent_id.as_deref(), Some("c9"));
    assert_eq!(next.swimlane, "none");
    assert_eq!(next.wip_limits, "{}");
    assert_eq!(next.updated_at, "2024-03-03T00:00:00.000Z");
    assert_eq!(next.created_at, board.created_at);
}

#[test]
fn the_validator_probes_github_unless_told_otherwise() {
    assert_eq!(GithubValidator::new().probe_base(), "https://api.github.com");
    assert_eq!(GithubValidator::default().probe_base(), "https://api.github.com");
}

#[test]
fn a_repo_link_is_addressed_by_owner_and_name_and_worklogs_need_time() {
    let repo = ProjectRepo {
        id: "r1".to_owned(),
        project_id: "p1".to_owned(),
        credential_id: None,
        owner: "acme".to_owned(),
        repo: "atlas".to_owned(),
        repo_id: 7,
        default_branch: "main".to_owned(),
        branch_prefix: "feature".to_owned(),
        webhook_id: None,
        created_at: "2024-01-01T00:00:00.000Z".to_owned(),
        updated_at: "2024-01-01T00:00:00.000Z".to_owned(),
    };
    assert_eq!(repo.repo_ref().to_string(), "acme/atlas");
    let log = NewWorklog { card_id: "c1", author_id: None, minutes: 0, note: None, source: "smart-commit" };
    match log.check() {
        Err(AppError::Validation(m)) => assert_eq!(m, "a worklog must be a positive number of minutes"),
        other => panic!("unexpected {other:?}"),
    }
    let log = NewWorklog { minutes: 30, ..log };
    assert!(log.check().is_ok());
}

#[test]
fn a_polled_pull_request_is_recorded_once_it_leaves_open() {
    let link = |r: &str| CardGitLink {
        id: "l1".to_owned(),
        card_id: "c1".to_owned(),
        kind: "pr".to_owned(),
        git_ref: r.to_owned(),
        url: None,
        state: Some("open".to_owned()),
        meta: None,
        created_at: "2024-01-01T00:00:00.000Z".to_owned(),
        updated_at: "2024-01-01T00:00:00.000Z".to_owned(),
    };
    assert_eq!(pr_number(&link("42")), Some(42));
    assert_eq!(pr_number(&link("feature/x")), None);
    let pr = |state| PrSummary {
        number: 42,
        title: "Add login".to_owned(),
        html_url: "https://x/42".to_owned(),
        state,
    };
    assert_eq!(terminal_update("c1", &pr(PrState::Open)), None);
    let merged = terminal_update("c1", &pr(PrState::Merged)).unwrap();
    assert_eq!(merged.git_ref, "42");
    assert_eq!(merged.state, "merged");
    assert_eq!(merged.meta, "Add login");
    assert_eq!(merged.url, "https://x/42");
    assert!(merged.moves_to_done);
    let closed = terminal_update("c1", &pr(PrState::Closed)).unwrap();
    assert_eq!(closed.state, "closed");
    assert!(!closed.moves_to_done);
}

#[test]
fn validators_reject_on_the_first_empty_required_field() {
    let c = card();
    assert!(FieldName::Description.is_empty_on(&c));
    assert!(!FieldName::Reporter.is_empty_on(&c));
    assert!(run_validators(&vec![Validator::RequiredField(FieldName::Reporter)], &c).is_ok());
    match run_validators(
        &vec![
            Validator::RequiredField(FieldName::Reporter),
            Validator::RequiredField(FieldName::Priority),
            Validator::RequiredField(FieldName::Assignee),
        ],
        &c,
    ) {
        Err(AppError::Validation(m)) => assert!(m.starts_with("The ") && m.ends_with(" is required to make this transition.")),
        other => panic!("unexpected {other:?}"),
    }
}

#[test]
fn field_post_functions_change_the_card_in_place() {
    let mut c = card();
    apply_post_function(&mut c, &PostFunction::AssignTo(AssignTarget::Reporter), Some("u-actor"), None, true).unwrap();
    assert_eq!(c.assignee_id.as_deref(), Some("u-rep"));
    apply_post_function(&mut c, &PostFunction::AssignTo(AssignTarget::CurrentUser), Some("u-actor"), None, true)
        .unwrap();
    assert_eq!(c.assignee_id.as_deref(), Some("u-actor"));
    apply_post_function(&mut c, &PostFunction::SetResolution(Some("r1".to_owned())), None, None, true).unwrap();
    assert_eq!(c.resolution_id.as_deref(), Some("r1"));
    match apply_post_function(&mut c, &PostFunction::SetResolution(Some("r2".to_owned())), None, None, false) {
        Err(AppError::Validation(m)) => {
            assert_eq!(m, "A SetResolution post-function names a resolution that is not in this project.")
        },
        other => panic!("unexpected {other:?}"),
    }
    assert_eq!(c.resolution_id.as_deref(), Some("r1"));
    let update = PostFunction::UpdateField { field: FieldName::Assignee, value: Some("ghost".to_owned()) };
    match apply_post_function(&mut c, &update, None, None, false) {
        Err(AppError::Validation(m)) => assert_eq!(
            m,
            "An UpdateField post-function sets the assignee to \"ghost\", who is not a user of this instance."
        ),
        other => panic!("unexpected {other:?}"),
    }
    let due = PostFunction::UpdateField { field: FieldName::DueDate, value: Some("2024-01-01".to_owned()) };
    assert!(matches!(apply_post_function(&mut c, &due, None, None, true), Err(AppError::Validation(_))));
    let describe = PostFunction::UpdateField { field: FieldName::Description, value: Some("done".to_owned()) };
    apply_post_function(&mut c, &describe, None, None, true).unwrap();
    assert_eq!(c.description.as_deref(), Some("done"));
}

#[test]
fn deferred_post_functions_run_comment_first_and_skip_comments_without_an_actor() {
    let fs = vec![
        PostFunction::FireEvent("card.done".to_owned()),
        PostFunction::AddComment("Closed by workflow".to_owned()),
        PostFunction::AssignTo(AssignTarget::Unassign),
    ];
    assert_eq!(
        deferred_actions(&fs, Some("u1"), Some("  shipped  ")).unwrap(),
        vec![
            Deferred::Comment("shipped".to_owned()),
            Deferred::Event("card.done".to_owned()),
            Deferred::Comment("Closed by workflow".to_owned()),
        ]
    );
    assert_eq!(
        deferred_actions(&fs, None, Some("shipped")).unwrap(),
        vec![Deferred::Event("card.done".to_owned())]
    );
    assert!(matches!(deferred_actions(&fs, Some("u1"), Some("   ")), Err(AppError::Validation(_))));
}

#[test]
fn a_cycle_starts_with_both_dates_and_a_reopen_keeps_its_start() {
    let future = Cycle {
        id: "y1".to_owned(),
        project_id: "p1".to_owned(),
        name: "Sprint 1".to_owned(),
        goal: None,
        start_date: None,
        end_date: None,
        state: CycleState::Future,
        position: 0,
        created_at: "2024-01-01T00:00:00.000Z".to_owned(),
        updated_at: "2024-01-01T00:00:00.000Z".to_owned(),
    };
    let active = acted_on(&future, CycleAction::Start, "2024-01-01", "2024-01-14", "2024-01-01T09:00:00.000Z");
    assert_eq!(active.state, CycleState::Active);
    assert_eq!(active.start_date.as_deref(), Some("2024-01-01"));
    assert_eq!(active.end_date.as_deref(), Some("2024-01-14"));
    let closed = acted_on(&active, CycleAction::Complete, "x", "y", "2024-01-14T18:00:00.000Z");
    assert_eq!(closed.state, CycleState::Closed);
    assert_eq!(closed.end_date.as_deref(), Some("2024-01-14"));
    let reopened = acted_on(&closed, CycleAction::Reopen, "2024-02-01", "2024-01-21", "2024-01-15T09:00:00.000Z");
    assert_eq!(reopened.state, CycleState::Active);
    assert_eq!(reopened.start_date.as_deref(), Some("2024-01-01"));
    assert_eq!(reopened.end_date.as_deref(), Some("2024-01-21"));
    assert_eq!(reopened.updated_at, "2024-01-15T09:00:00.000Z");
}

#[test]
fn a_session_cannot_be_finished_twice_by_its_status() {
    assert!(check_finish(AgentSessionStatus::Running).is_ok());
    match check_finish(AgentSessionStatus::Completed) {
        Err(AppError::Conflict(m)) => assert_eq!(m, "this session already finished as completed"),
        other => panic!("unexpected {other:?}"),
    }
}

fn edge(id: &str, name: &str, to: &str) -> Transition {
    Transition {
        id: id.to_owned(),
        workflow_id: "w1".to_owned(),
        name: name.to_owned(),
        from_status_id: None,
        to_status_id: to.to_owned(),
        position: 0,
    }
}

#[test]
fn a_hidden_transition_is_not_offered_and_the_default_workflow_stays() {
    let edges = vec![edge("t1", "Start", "s2"), edge("t2", "Finish", "s3"), edge("t3", "Drop", "s4")];
    let verdicts = vec![None, Some("Only the assignee can take this transition.".to_owned()), None];
    let candidates: Vec<_> = edges.into_iter().zip(verdicts).collect();
    let offered = unhidden_transitions(&candidates);
    assert_eq!(offered.len(), 2);
    assert_eq!(offered[0].id.as_deref(), Some("t1"));
    assert_eq!(offered[0].name, "Start");
    assert_eq!(offered[1].id.as_deref(), Some("t3"));
    assert_eq!(offered[1].to_status_id, "s4");
    let mut w = Workflow {
        id: "w1".to_owned(),
        project_id: "p1".to_owned(),
        name: "Default".to_owned(),
        is_default: true,
        created_at: "t".to_owned(),
        updated_at: "t".to_owned(),
    };
    match check_delete(&w) {
        Err(AppError::Conflict(m)) => {
            assert_eq!(m, "The default workflow cannot be deleted. Make another workflow the default first.")
        },
        other => panic!("unexpected {other:?}"),
    }
    w.is_default = false;
    assert!(check_delete(&w).is_ok());
    match foreign_card_type("t9") {
        AppError::Validation(m) => assert_eq!(m, "\"t9\" is not a card type of this project."),
        other => panic!("unexpected {other:?}"),
    }
}

#[test]
fn board_scopes_names_and_quoted_values_follow_their_rules() {
    assert_eq!(BoardScope::Root.mode_and_id(), ("root", None));
    let child = BoardScope::Child { id: "c1".to_owned(), key: "ATLAS-1".to_owned() };
    assert_eq!(child.mode_and_id(), ("child", Some("c1")));
    assert_eq!(aql_escape(r#"say "hi" \ bye"#), r#"say \"hi\" \\ bye"#);
    assert_eq!(validate_board_name("  Sprint board ").unwrap(), "Sprint board");
    match validate_board_name("   ") {
        Err(AppError::Validation(m)) => assert_eq!(m, "Board name must not be empty."),
        other => panic!("unexpected {other:?}"),
    }
    match validate_board_name(&"b".repeat(121)) {
        Err(AppError::Validation(m)) => assert_eq!(m, "Board name must be at most 120 characters long."),
        other => panic!("unexpected {other:?}"),
    }
}

#[test]
fn a_saved_query_is_bounded_in_bytes() {
    assert!(validate_aql_length(&"a".repeat(8192)).is_ok());
    match validate_aql_length(&"a".repeat(8193)) {
        Err(AppError::Validation(m)) => assert_eq!(m, "The query is 8193 bytes; the limit is 8192."),
        other => panic!("unexpected {other:?}"),
    }
}

#[test]
fn a_tag_merges_only_into_another_tag_of_the_same_scope() {
    match check_merge_ids("t1", "t1") {
        Err(AppError::Validation(m)) => assert_eq!(m, "A tag cannot be merged into itself."),
        other => panic!("unexpected {other:?}"),
    }
    assert!(check_merge_ids("t1", "t2").is_ok());
    let tag = |id: &str, project: Option<&str>| Tag {
        id: id.to_owned(),
        project_id: project.map(str::to_owned),
        name: id.to_owned(),
        colour: None,
        created_at: "2024-01-01T00:00:00.000Z".to_owned(),
    };
    assert!(check_merge_scopes(&tag("a", Some("p1")), &tag("b", Some("p1"))).is_ok());
    assert!(check_merge_scopes(&tag("a", None), &tag("b", None)).is_ok());
    match check_merge_scopes(&tag("a", Some("p1")), &tag("b", None)) {
        Err(AppError::Validation(m)) => assert_eq!(
            m,
            "Both tags must belong to the same project, or both must be global. Merging across projects would retag cards the caller cannot see."
        ),
        other => panic!("unexpected {other:?}"),
    }
}

#[test]
fn an_owner_grant_makes_an_owner_only_for_an_active_unrestricted_account() {
    assert!(grants_ownership(ProjectRole::Owner, &user("u1", Role::Member)));
    assert!(!grants_ownership(ProjectRole::Owner, &user("u1", Role::Viewer)));
    assert!(!grants_ownership(ProjectRole::Member, &user("u1", Role::Admin)));
    let mut gone = user("u2", Role::Admin);
    gone.is_active = false;
    assert!(!grants_ownership(ProjectRole::Owner, &gone));
}

#[test]
fn only_an_account_that_can_own_is_anyones_last_owner() {
    let held = vec![("ATLAS".to_owned(), 1), ("OPS".to_owned(), 3), ("WEB".to_owned(), 0)];
    assert_eq!(projects_solely_owned_by(&user("u1", Role::Member), &held), vec!["ATLAS".to_owned(), "WEB".to_owned()]);
    assert!(projects_solely_owned_by(&user("u1", Role::Viewer), &held).is_empty());
    let mut gone = user("u1", Role::Member);
    gone.is_active = false;
    assert!(projects_solely_owned_by(&gone, &held).is_empty());
}

#[test]
fn a_cycle_requires_cycles_on_and_starts_in_the_future() {
    let mut p = project(None);
    let asked = NewCycle { project_id: "p1", name: "Sprint 3", goal: Some("ship") };
    let c = new_cycle(&p, &asked, "y3", 2, "2024-01-01T00:00:00.000Z").unwrap();
    assert_eq!(c.state, CycleState::Future);
    assert_eq!(c.position, 2);
    assert_eq!(c.start_date, None);
    assert_eq!(c.goal.as_deref(), Some("ship"));
    p.cycles_enabled = false;
    match new_cycle(&p, &asked, "y4", 3, "2024-01-01T00:00:00.000Z") {
        Err(AppError::Validation(m)) => assert_eq!(m, "this project does not have cycles enabled"),
        other => panic!("unexpected {:?}", other.map(|c| c.id)),
    }
}
