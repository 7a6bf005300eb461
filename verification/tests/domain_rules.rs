use atlas_core::domain::agent_session::AgentSessionStatus;
use atlas_core::domain::board::Swimlane;
use atlas_core::domain::card::{validate_description, validate_summary, ParentFilter, MAX_DESCRIPTION, MAX_SUMMARY};
use atlas_core::domain::comment::{validate_body, MAX_BODY};
use atlas_core::domain::history::{Change, Field};
use atlas_core::domain::member::{resolve, ProjectRole, Role};
use atlas_core::domain::{config, filter, project};
use atlas_core::domain::{EstimationUnit, StatusCategory};

#[test]
fn statuses_round_trip_through_their_database_spelling() {
    for status in [
        AgentSessionStatus::Running,
        AgentSessionStatus::Completed,
        AgentSessionStatus::CompletedWithDenials,
        AgentSessionStatus::LimitReached,
        AgentSessionStatus::Failed,
        AgentSessionStatus::Cancelled,
    ] {
        assert_eq!(status.as_str().parse::<AgentSessionStatus>().unwrap(), status);
    }
    assert!("bogus".parse::<AgentSessionStatus>().is_err());
}

#[test]
fn swimlane_parses_the_three_modes_and_rejects_others() {
    assert_eq!(Swimlane::from_query(None).unwrap(), Swimlane::Flat);
    assert_eq!(Swimlane::from_query(Some("none")).unwrap(), Swimlane::Flat);
    assert_eq!(Swimlane::from_query(Some("assignee")).unwrap(), Swimlane::Assignee);
    assert_eq!(Swimlane::from_query(Some("parent")).unwrap(), Swimlane::Parent);
    assert!(Swimlane::from_query(Some("epic")).is_err());
}

#[test]
fn summaries_are_trimmed_bounded_and_single_line() {
    assert_eq!(validate_summary("  Add login  ").unwrap(), "Add login");
    assert!(validate_summary("").is_err());
    assert!(validate_summary("   ").is_err());
    assert!(validate_summary(&"a".repeat(MAX_SUMMARY + 1)).is_err());
    assert!(validate_summary(&"a".repeat(MAX_SUMMARY)).is_ok());

    assert!(validate_summary("Add\nlogin").is_err());
    assert!(validate_summary("Add\tlogin").is_err());
    assert!(validate_summary("Add login\u{0}").is_err());
}

#[test]
fn descriptions_are_markdown_so_only_length_is_checked() {
    assert!(validate_description("# Heading\n\n- a\n- b").is_ok());
    assert!(validate_description(&"a".repeat(MAX_DESCRIPTION)).is_ok());
    assert!(validate_description(&"a".repeat(MAX_DESCRIPTION + 1)).is_err());
}

#[test]
fn the_parent_filter_maps_to_the_mode_the_fixed_statement_branches_on() {
    assert_eq!(ParentFilter::Any.mode(), "any");
    assert_eq!(ParentFilter::Any.id(), None);
    assert_eq!(ParentFilter::Root.mode(), "root");
    assert_eq!(ParentFilter::Root.id(), None);
    assert_eq!(ParentFilter::Card("c1".to_owned()).mode(), "card");
    assert_eq!(ParentFilter::Card("c1".to_owned()).id(), Some("c1"));
}

#[test]
fn bodies_are_trimmed_bounded_and_may_contain_markdown() {
    assert_eq!(validate_body("  Looks good  ").unwrap(), "Looks good");
    assert!(validate_body("# Heading\n\n- a\n- b\n\n```rs\nlet x = 1;\n```").is_ok());

    assert!(validate_body("").is_err());
    assert!(validate_body("   \n\t ").is_err());
    assert!(validate_body(&"a".repeat(MAX_BODY + 1)).is_err());
    assert!(validate_body(&"a".repeat(MAX_BODY)).is_ok());
}

#[test]
fn config_names_are_trimmed_and_bounded() {
    assert_eq!(config::validate_name("  In Review  ").unwrap(), "In Review");
    assert!(config::validate_name("").is_err());
    assert!(config::validate_name("In\nReview").is_err());
    assert!(config::validate_name(&"a".repeat(config::MAX_NAME + 1)).is_err());
}

#[test]
fn names_are_validated() {
    assert_eq!(filter::validate_name("  My Filter ").unwrap(), "My Filter");
    assert!(filter::validate_name("").is_err());
    assert!(filter::validate_name("a\nb").is_err());
    assert!(filter::validate_name(&"x".repeat(filter::MAX_NAME + 1)).is_err());
}

#[test]
fn every_field_has_a_distinct_spelling() {
    let fields = [
        Field::Summary,
        Field::Description,
        Field::Type,
        Field::Parent,
        Field::Project,
        Field::Key,
        Field::Status,
        Field::Priority,
        Field::Assignee,
        Field::Reporter,
        Field::Resolution,
        Field::ResolvedAt,
        Field::DueDate,
        Field::StartDate,
        Field::Estimate,
        Field::Rank,
        Field::Archived,
        Field::Deleted,
    ];
    let mut spellings: Vec<&str> = fields.iter().map(|f| f.as_str()).collect();
    spellings.sort_unstable();
    let count = spellings.len();
    spellings.dedup();
    assert_eq!(spellings.len(), count, "two fields share a spelling");
}

#[test]
fn the_six_fields_phase_six_queries_are_spelled_logically() {
    assert_eq!(Field::Status.as_str(), "status");
    assert_eq!(Field::Assignee.as_str(), "assignee");
    assert_eq!(Field::Priority.as_str(), "priority");
    assert_eq!(Field::Reporter.as_str(), "reporter");
    assert_eq!(Field::Resolution.as_str(), "resolution");
}

#[test]
fn a_plain_change_stores_the_same_text_in_both_columns() {
    let change = Change::plain(Field::Summary, Some("Old".to_owned()), Some("New".to_owned()));
    assert_eq!(change.from_value.as_deref(), Some("Old"));
    assert_eq!(change.from_display.as_deref(), Some("Old"));
    assert_eq!(change.to_value.as_deref(), Some("New"));
    assert_eq!(change.to_display.as_deref(), Some("New"));
}

#[test]
fn a_reference_change_keeps_the_id_and_the_name_apart() {
    let change = Change::reference(
        Field::Status,
        Some(("s1".to_owned(), "To Do".to_owned())),
        Some(("s2".to_owned(), "Done".to_owned())),
    );
    assert_eq!(change.from_value.as_deref(), Some("s1"));
    assert_eq!(change.from_display.as_deref(), Some("To Do"));
    assert_eq!(change.to_value.as_deref(), Some("s2"));
    assert_eq!(change.to_display.as_deref(), Some("Done"));
}

#[test]
fn clearing_a_reference_nulls_both_columns() {
    let change = Change::reference(
        Field::Assignee,
        Some(("u1".to_owned(), "Alastair".to_owned())),
        None,
    );
    assert_eq!(change.to_value, None);
    assert_eq!(change.to_display, None);
}

#[test]
fn privilege_ordering_is_owner_over_member_over_viewer() {
    assert!(ProjectRole::Owner > ProjectRole::Member);
    assert!(ProjectRole::Member > ProjectRole::Viewer);
    assert!(ProjectRole::Owner > ProjectRole::Viewer);
}

#[test]
fn at_least_accepts_equal_and_higher_only() {
    assert!(ProjectRole::Owner.at_least(ProjectRole::Owner));
    assert!(ProjectRole::Owner.at_least(ProjectRole::Member));
    assert!(ProjectRole::Owner.at_least(ProjectRole::Viewer));

    assert!(ProjectRole::Member.at_least(ProjectRole::Member));
    assert!(ProjectRole::Member.at_least(ProjectRole::Viewer));
    assert!(!ProjectRole::Member.at_least(ProjectRole::Owner));

    assert!(ProjectRole::Viewer.at_least(ProjectRole::Viewer));
    assert!(!ProjectRole::Viewer.at_least(ProjectRole::Member));
    assert!(!ProjectRole::Viewer.at_least(ProjectRole::Owner));
}

#[test]
fn the_instance_role_is_a_ceiling_and_never_a_floor() {
    assert_eq!(ProjectRole::Owner.capped_by(Role::Viewer), ProjectRole::Viewer);
    assert_eq!(ProjectRole::Member.capped_by(Role::Viewer), ProjectRole::Viewer);
    assert_eq!(ProjectRole::Viewer.capped_by(Role::Viewer), ProjectRole::Viewer);

    assert_eq!(ProjectRole::Owner.capped_by(Role::Member), ProjectRole::Owner);
    assert_eq!(ProjectRole::Owner.capped_by(Role::Admin), ProjectRole::Owner);

    assert_eq!(ProjectRole::Viewer.capped_by(Role::Admin), ProjectRole::Viewer);
    assert_eq!(ProjectRole::Member.capped_by(Role::Admin), ProjectRole::Member);
}

#[test]
fn no_grant_is_no_access() {
    assert_eq!(resolve(Role::Member, false, None), None);
    assert_eq!(resolve(Role::Viewer, false, None), None);
}

#[test]
fn an_instance_admin_owns_every_project_without_a_row() {
    assert_eq!(resolve(Role::Admin, false, None), Some(ProjectRole::Owner));
    assert_eq!(resolve(Role::Admin, false, Some(ProjectRole::Viewer)), Some(ProjectRole::Owner));
}

#[test]
fn the_lead_owns_the_project_without_a_row() {
    assert_eq!(resolve(Role::Member, true, None), Some(ProjectRole::Owner));
    assert_eq!(resolve(Role::Member, true, Some(ProjectRole::Viewer)), Some(ProjectRole::Owner));
}

#[test]
fn an_explicit_grant_is_taken_at_face_value() {
    for role in [ProjectRole::Viewer, ProjectRole::Member, ProjectRole::Owner] {
        assert_eq!(resolve(Role::Member, false, Some(role)), Some(role));
    }
}

#[test]
fn an_instance_viewer_who_is_a_project_owner_still_cannot_write() {
    assert_eq!(
        resolve(Role::Viewer, false, Some(ProjectRole::Owner)),
        Some(ProjectRole::Viewer),
        "an explicit owner grant"
    );
    assert_eq!(resolve(Role::Viewer, true, None), Some(ProjectRole::Viewer), "being the project lead");
    assert_eq!(
        resolve(Role::Viewer, true, Some(ProjectRole::Owner)),
        Some(ProjectRole::Viewer),
        "both at once"
    );
    assert_eq!(resolve(Role::Viewer, false, None), None);
}

#[test]
fn round_trips_through_its_database_spelling() {
    for role in [ProjectRole::Viewer, ProjectRole::Member, ProjectRole::Owner] {
        assert_eq!(role.as_str().parse::<ProjectRole>().unwrap(), role);
    }
}

#[test]
fn an_unknown_project_role_is_rejected_rather_than_defaulted() {
    assert!("admin".parse::<ProjectRole>().is_err());
    assert!("superuser".parse::<ProjectRole>().is_err());
    assert!("Owner".parse::<ProjectRole>().is_err(), "spelling is lowercase");
    assert!(String::new().parse::<ProjectRole>().is_err());
}

#[test]
fn status_categories_order_by_progress() {
    assert!(StatusCategory::Todo < StatusCategory::InProgress);
    assert!(StatusCategory::InProgress < StatusCategory::Done);
}

#[test]
fn only_done_is_done() {
    assert!(StatusCategory::Done.is_done());
    assert!(!StatusCategory::InProgress.is_done());
    assert!(!StatusCategory::Todo.is_done());
}

#[test]
fn status_categories_round_trip_through_their_database_spelling() {
    for category in [StatusCategory::Todo, StatusCategory::InProgress, StatusCategory::Done] {
        assert_eq!(category.as_str().parse::<StatusCategory>().unwrap(), category);
    }
}

#[test]
fn a_fourth_status_category_is_rejected_rather_than_defaulted() {
    assert!("blocked".parse::<StatusCategory>().is_err());
    assert!("Done".parse::<StatusCategory>().is_err(), "lowercase only");
    assert!(String::new().parse::<StatusCategory>().is_err());
}

#[test]
fn estimation_units_round_trip_and_default_to_none() {
    assert_eq!(EstimationUnit::default(), EstimationUnit::NoEstimate);

    for unit in [
        EstimationUnit::Points,
        EstimationUnit::Hours,
        EstimationUnit::Days,
        EstimationUnit::Tshirt,
        EstimationUnit::Count,
        EstimationUnit::NoEstimate,
    ] {
        assert_eq!(unit.as_str().parse::<EstimationUnit>().unwrap(), unit);
    }
}

#[test]
fn keys_are_uppercased_and_constrained_to_the_autolinkable_shape() {
    assert_eq!(project::validate_key(" atlas ").unwrap(), "ATLAS");
    assert_eq!(project::validate_key("Atlas2").unwrap(), "ATLAS2");

    assert!(project::validate_key("").is_err());
    assert!(project::validate_key(&"A".repeat(project::MAX_KEY + 1)).is_err());
    assert!(project::validate_key(&"A".repeat(project::MAX_KEY)).is_ok());

    assert!(project::validate_key("MY-PROJ").is_err());
    assert!(project::validate_key("MY PROJ").is_err());
    assert!(project::validate_key("1ST").is_err());
    assert!(project::validate_key("PROJ!").is_err());
    assert!(project::validate_key("PRO_J").is_err());
}

#[test]
fn project_names_are_trimmed_and_bounded() {
    assert_eq!(project::validate_name("  Atlas  ").unwrap(), "Atlas");
    assert!(project::validate_name("").is_err());
    assert!(project::validate_name("   ").is_err());
    assert!(project::validate_name("Atlas\nInjected").is_err());
    assert!(project::validate_name(&"a".repeat(project::MAX_NAME + 1)).is_err());
}
