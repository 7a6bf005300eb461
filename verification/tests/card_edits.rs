use atlas_core::domain::card::{
    created, diff, landed, move_changes, moved_resolution, no_first_column, no_statuses, no_type_at_level,
    patched, trash_move, Card, CardFilter, CardPatch, Landing, NamePair, NewCard, Placement, ReferenceNames, Resolved,
};
use atlas_core::domain::comment::{edited, Comment};
use atlas_core::domain::history::{Change, Field};
use atlas_core::error::AppError;
use atlas_core::rank::Rank;

fn card() -> Card {
    Card {
        id: "c1".to_owned(),
        key: "ATLAS-7".to_owned(),
        project_id: "p1".to_owned(),
        type_id: "t-story".to_owned(),
        parent_id: Some("c0".to_owned()),
        summary: "Write the docs".to_owned(),
        description: None,
        status_id: "s-todo".to_owned(),
        priority_id: Some("pr-high".to_owned()),
        assignee_id: None,
        reporter_id: Some("u1".to_owned()),
        creator_id: "u1".to_owned(),
        resolution_id: None,
        resolved_at: None,
        due_date: Some("2024-05-01".to_owned()),
        start_date: None,
        estimate: Some("3".to_owned()),
        rank: Rank::first(),
        archived_at: None,
        deleted_at: None,
        created_at: "2024-04-01T10:00:00.000Z".to_owned(),
        updated_at: "2024-04-01T10:00:00.000Z".to_owned(),
    }
}

fn pair(from: &str, to: &str) -> NamePair {
    NamePair { from: from.to_owned(), to: to.to_owned() }
}

fn names() -> ReferenceNames {
    ReferenceNames {
        card_type: pair("Story", "Epic"),
        status: pair("To Do", "Done"),
        priority: pair("High", "Low"),
        assignee: pair("", "Ada"),
        reporter: pair("Bob", "Bob"),
        resolution: pair("", "Fixed"),
    }
}

fn change(field: Field, from: Option<&str>, from_display: Option<&str>, to: Option<&str>, to_display: Option<&str>) -> Change {
    Change {
        field,
        from_value: from.map(str::to_owned),
        from_display: from_display.map(str::to_owned),
        to_value: to.map(str::to_owned),
        to_display: to_display.map(str::to_owned),
    }
}

const NOW: &str = "2024-06-01T09:00:00.000Z";

#[test]
fn an_empty_patch_is_recognised_as_naming_nothing() {
    assert!(CardPatch::default().is_empty());
    assert!(
        !CardPatch {
            summary: Some("x".to_owned()),
            ..CardPatch::default()
        }
        .is_empty()
    );
    // Naming a nullable field with an explicit null is still naming it.
    assert!(
        !CardPatch {
            assignee_id: Some(None),
            ..CardPatch::default()
        }
        .is_empty()
    );
}

#[test]
fn a_card_is_resolved_by_its_resolution_and_deleted_by_its_trash_date() {
    let mut c = card();
    assert!(!c.is_resolved());
    assert!(!c.is_deleted());
    c.resolution_id = Some("r-fixed".to_owned());
    c.deleted_at = Some(NOW.to_owned());
    assert!(c.is_resolved());
    assert!(c.is_deleted());
}

#[test]
fn a_patch_writes_only_the_fields_it_names() {
    let current = card();
    let patch = CardPatch {
        summary: Some("Write better docs".to_owned()),
        priority_id: Some(None),
        assignee_id: Some(Some("u2".to_owned())),
        ..CardPatch::default()
    };
    let next = patched(&current, &patch, NOW);
    assert_eq!(next.summary, "Write better docs");
    assert_eq!(next.priority_id, None);
    assert_eq!(next.assignee_id.as_deref(), Some("u2"));
    assert_eq!(next.status_id, "s-todo");
    assert_eq!(next.due_date.as_deref(), Some("2024-05-01"));
    assert_eq!(next.parent_id.as_deref(), Some("c0"));
    assert_eq!(next.archived_at, None);
    assert_eq!(next.updated_at, current.updated_at);
}

#[test]
fn archiving_keeps_the_first_archive_date_and_unarchiving_clears_it() {
    let mut current = card();
    let archive = CardPatch { archived: Some(true), ..CardPatch::default() };
    assert_eq!(patched(&current, &archive, NOW).archived_at.as_deref(), Some(NOW));
    current.archived_at = Some("2024-05-05T00:00:00.000Z".to_owned());
    assert_eq!(
        patched(&current, &archive, NOW).archived_at.as_deref(),
        Some("2024-05-05T00:00:00.000Z")
    );
    let unarchive = CardPatch { archived: Some(false), ..CardPatch::default() };
    assert_eq!(patched(&current, &unarchive, NOW).archived_at, None);
}

#[test]
fn an_edit_that_moves_nothing_records_nothing() {
    let current = card();
    let same = CardPatch { summary: Some("Write the docs".to_owned()), ..CardPatch::default() };
    let next = patched(&current, &same, NOW);
    assert!(diff(&current, &next, &names()).is_empty());
}

#[test]
fn the_changelog_lists_each_moved_field_once_in_order() {
    let current = card();
    let mut next = card();
    next.summary = "Write better docs".to_owned();
    next.type_id = "t-epic".to_owned();
    next.status_id = "s-done".to_owned();
    next.priority_id = None;
    next.assignee_id = Some("u2".to_owned());
    next.resolution_id = Some("r-fixed".to_owned());
    next.resolved_at = Some(NOW.to_owned());
    next.estimate = None;
    let changes = diff(&current, &next, &names());
    assert_eq!(
        changes,
        vec![
            change(Field::Summary, Some("Write the docs"), Some("Write the docs"), Some("Write better docs"), Some("Write better docs")),
            change(Field::Type, Some("t-story"), Some("Story"), Some("t-epic"), Some("Epic")),
            change(Field::Status, Some("s-todo"), Some("To Do"), Some("s-done"), Some("Done")),
            change(Field::Priority, Some("pr-high"), Some("High"), None, None),
            change(Field::Assignee, None, None, Some("u2"), Some("Ada")),
            change(Field::Resolution, None, None, Some("r-fixed"), Some("Fixed")),
            change(Field::ResolvedAt, None, None, Some(NOW), Some(NOW)),
            change(Field::Estimate, Some("3"), Some("3"), None, None),
        ]
    );
}

#[test]
fn a_rank_change_says_which_way_the_card_went() {
    let current = card();
    let mut lower = card();
    lower.rank = Rank::after(&current.rank);
    let down = diff(&current, &lower, &names());
    assert_eq!(down.len(), 1);
    assert_eq!(down[0].field, Field::Rank);
    assert_eq!(down[0].from_value.as_deref(), Some(current.rank.as_str()));
    assert_eq!(down[0].from_display, None);
    assert_eq!(down[0].to_value.as_deref(), Some(lower.rank.as_str()));
    assert_eq!(down[0].to_display.as_deref(), Some("Ranked lower"));
    let up = diff(&lower, &current, &names());
    assert_eq!(up[0].to_display.as_deref(), Some("Ranked higher"));
}

#[test]
fn a_moved_card_takes_the_landing_and_keeps_its_resolution_date() {
    let mut current = card();
    current.resolution_id = Some("r-old".to_owned());
    current.resolved_at = Some("2024-05-20T00:00:00.000Z".to_owned());
    let landing = Landing {
        project_id: "p2".to_owned(),
        key: "OPS-1".to_owned(),
        type_id: "t2".to_owned(),
        status_id: "s2".to_owned(),
        priority_id: None,
        resolution_id: Some("r-new".to_owned()),
        rank: Rank::first(),
    };
    let next = landed(&current, landing, true, NOW);
    assert_eq!(next.key, "OPS-1");
    assert_eq!(next.project_id, "p2");
    assert_eq!(next.parent_id, None);
    assert_eq!(next.resolution_id.as_deref(), Some("r-new"));
    assert_eq!(next.resolved_at.as_deref(), Some("2024-05-20T00:00:00.000Z"));
    assert_eq!(next.summary, current.summary);
}

#[test]
fn a_card_moved_into_an_open_column_arrives_unresolved() {
    let current = card();
    let landing = Landing {
        project_id: "p2".to_owned(),
        key: "OPS-2".to_owned(),
        type_id: "t2".to_owned(),
        status_id: "s2".to_owned(),
        priority_id: Some("pr2".to_owned()),
        resolution_id: None,
        rank: Rank::first(),
    };
    let next = landed(&current, landing, false, NOW);
    assert_eq!(next.parent_id.as_deref(), Some("c0"));
    assert_eq!(next.resolved_at, None);
    assert_eq!(moved_resolution(false, Some("r1"), Some("r2")), None);
    assert_eq!(moved_resolution(true, Some("r1"), Some("r2")).as_deref(), Some("r1"));
    assert_eq!(moved_resolution(true, None, Some("r2")).as_deref(), Some("r2"));
    assert_eq!(moved_resolution(true, None, None), None);
}

#[test]
fn a_move_records_the_project_the_key_and_a_cut_parent() {
    let current = card();
    let out = move_changes(Vec::new(), &current, "p1", "ATLAS", "p2", "OPS", "OPS-3", true, "ATLAS-1");
    assert_eq!(
        out,
        vec![
            change(Field::Project, Some("p1"), Some("ATLAS"), Some("p2"), Some("OPS")),
            change(Field::Key, Some("ATLAS-7"), Some("ATLAS-7"), Some("OPS-3"), Some("OPS-3")),
            change(Field::Parent, Some("c0"), Some("ATLAS-1"), None, None),
        ]
    );
    let kept = move_changes(Vec::new(), &current, "p1", "ATLAS", "p2", "OPS", "OPS-3", false, "ATLAS-1");
    assert_eq!(kept.len(), 2);
}

#[test]
fn a_move_that_cannot_land_is_refused_with_the_reason() {
    match no_type_at_level("ATLAS-7", 2, "OPS") {
        AppError::Conflict(m) => assert_eq!(
            m,
            "ATLAS-7 sits at hierarchy level 2, and project OPS has no card type at that level. Add one to OPS, or move the cards one rung at a time."
        ),
        other => panic!("unexpected {other:?}"),
    }
    match no_statuses("OPS") {
        AppError::Conflict(m) => assert_eq!(m, "Project OPS has no statuses, so nothing can be moved into it."),
        other => panic!("unexpected {other:?}"),
    }
    match no_first_column("OPS") {
        AppError::Conflict(m) => {
            assert_eq!(m, "Project OPS has no statuses, so a card has nowhere to go. Add a status first.")
        },
        other => panic!("unexpected {other:?}"),
    }
}

#[test]
fn a_created_card_is_reported_by_its_creator_unless_named() {
    let new = NewCard {
        type_id: "t1".to_owned(),
        parent_id: None,
        summary: "New thing".to_owned(),
        description: Some("body".to_owned()),
        status_id: None,
        priority_id: None,
        assignee_id: None,
        reporter_id: None,
        due_date: None,
        start_date: None,
        estimate: Some("2.5".to_owned()),
        placement: Placement::Bottom,
    };
    let arrival = Resolved { resolution_id: None, resolved_at: None };
    let c = created(&new, "id1", "ATLAS-9", "p1", "s1", "u9", arrival, Rank::first(), NOW);
    assert_eq!(c.reporter_id.as_deref(), Some("u9"));
    assert_eq!(c.creator_id, "u9");
    assert_eq!(c.status_id, "s1");
    assert_eq!(c.estimate.as_deref(), Some("2.5"));
    assert_eq!(c.created_at, NOW);
    assert_eq!(c.updated_at, NOW);
    assert_eq!(c.archived_at, None);
}

#[test]
fn a_listing_page_is_clamped_to_the_cap_and_never_negative() {
    let mut f = CardFilter::default();
    assert_eq!(f.window(), (50, 0));
    f.limit = 0;
    f.offset = -5;
    assert_eq!(f.window(), (1, 0));
    f.limit = 1000;
    f.offset = 40;
    assert_eq!(f.window(), (200, 40));
}

#[test]
fn an_edit_to_the_same_comment_body_writes_nothing() {
    let c = Comment {
        id: "m1".to_owned(),
        card_id: "c1".to_owned(),
        author_id: "u1".to_owned(),
        body: "Looks good".to_owned(),
        created_at: "2024-01-01T00:00:00.000Z".to_owned(),
        updated_at: "2024-01-01T00:00:00.000Z".to_owned(),
        edited_at: None,
    };
    assert!(edited(&c, "Looks good", NOW).is_none());
    let e = edited(&c, "Looks great", NOW).unwrap();
    assert_eq!(e.body, "Looks great");
    assert_eq!(e.edited_at.as_deref(), Some(NOW));
    assert_eq!(e.updated_at, NOW);
    assert_eq!(e.created_at, c.created_at);
}

#[test]
fn trashing_and_restoring_a_card_is_reversible_and_idempotent() {
    let live = card();
    assert!(trash_move(&live, false, NOW).is_none());
    let trashed = trash_move(&live, true, NOW).unwrap();
    assert!(trashed.is_deleted());
    assert_eq!(trashed.deleted_at.as_deref(), Some(NOW));
    assert!(trash_move(&trashed, true, NOW).is_none());
    assert_eq!(diff(&live, &trashed, &names()), vec![change(Field::Deleted, None, None, Some(NOW), Some(NOW))]);
    let restored = trash_move(&trashed, false, NOW).unwrap();
    assert!(!restored.is_deleted());
    assert!(diff(&live, &restored, &names()).is_empty());
}
