use atlas_core::domain::card::{drop_rank, update_effects, UpdateEffects};
use atlas_core::domain::config::Status;
use atlas_core::domain::cycle::{carry_step, incomplete_cards, CarryStep, CarryTo};
use atlas_core::domain::filter::FilterPatch;
use atlas_core::domain::history::{Change, Field};
use atlas_core::domain::project::ProjectPatch;
use atlas_core::domain::StatusCategory;
use atlas_core::error::AppError;
use atlas_core::integrations::github::client::{branch_outcome, branch_ref, BranchOutcome};
use atlas_core::integrations::github::smart_commit::{move_outcome, move_target, parse};
use atlas_core::rank::Rank;

fn status(id: &str, name: &str) -> Status {
    Status {
        id: id.to_owned(),
        project_id: "p".to_owned(),
        name: name.to_owned(),
        category: StatusCategory::Done,
        position: 3,
    }
}

#[test]
fn a_patch_that_names_a_field_would_change_something() {
    assert!(!ProjectPatch::default().is_empty());
    assert!(ProjectPatch { name: Some("Atlas".to_owned()), ..Default::default() }.is_empty());
    assert!(ProjectPatch { lead_id: Some(None), ..Default::default() }.is_empty());
    assert!(!FilterPatch::default().is_empty());
    assert!(FilterPatch { aql: Some("status = Done".to_owned()), ..Default::default() }.is_empty());
    assert!(FilterPatch { description: Some(None), ..Default::default() }.is_empty());
}

#[test]
fn a_move_into_a_category_needs_a_status_the_card_is_not_in() {
    assert!(move_target(None, "s1").is_none());
    assert!(move_target(Some(status("s3", "Done")), "s3").is_none(), "already there");
    let t = move_target(Some(status("s3", "Done")), "s1").unwrap();
    assert_eq!((t.id.as_str(), t.name.as_str()), ("s3", "Done"));

    assert_eq!(move_outcome(Ok(true), "Done".to_owned()).unwrap(), Some("Done".to_owned()));
    assert_eq!(move_outcome(Ok(false), "Done".to_owned()).unwrap(), None);
    assert!(matches!(move_outcome(Err(AppError::NotFound), "Done".to_owned()), Err(AppError::NotFound)));
}

#[test]
fn an_update_writes_only_what_moved_but_a_transition_always_runs() {
    assert_eq!(update_effects(&Vec::new(), false), UpdateEffects { write: false, run_deferred: false });
    assert_eq!(update_effects(&Vec::new(), true), UpdateEffects { write: false, run_deferred: true });
    let one = vec![Change::plain(Field::Summary, Some("a".to_owned()), Some("b".to_owned()))];
    assert_eq!(update_effects(&one, false), UpdateEffects { write: true, run_deferred: false });
    assert_eq!(update_effects(&one, true), UpdateEffects { write: true, run_deferred: true });
}

#[test]
fn completing_a_cycle_carries_only_open_cards() {
    let in_scope = vec![
        ("c1".to_owned(), StatusCategory::Todo),
        ("c2".to_owned(), StatusCategory::Done),
        ("c3".to_owned(), StatusCategory::InProgress),
    ];
    assert_eq!(incomplete_cards(&in_scope), vec!["c1".to_owned(), "c3".to_owned()]);
    assert!(incomplete_cards(&vec![("c2".to_owned(), StatusCategory::Done)]).is_empty());

    assert_eq!(carry_step(0, &CarryTo::NewCycle("Next")), CarryStep::Nothing, "nothing open, nothing created");
    assert_eq!(carry_step(0, &CarryTo::ExistingCycle("cy2")), CarryStep::Nothing);
    assert_eq!(carry_step(2, &CarryTo::Backlog), CarryStep::ToBacklog);
    assert_eq!(carry_step(2, &CarryTo::ExistingCycle("cy2")), CarryStep::IntoExisting);
    assert_eq!(carry_step(1, &CarryTo::NewCycle("Next")), CarryStep::IntoNew);
}

#[test]
fn a_zero_byte_in_the_shared_prefix_still_gets_a_rank_between() {
    let lower = Rank::parse("0080").unwrap();
    let upper = Rank::parse("008180").unwrap();
    let mid = Rank::between(Some(&lower), Some(&upper)).unwrap();
    assert_eq!(mid.as_str(), "00817f80");
    assert!(lower < mid && mid < upper);

    // Many moves to the top walk the first byte down to zero; a drop between
    // the two top cards must still land strictly between them.
    let mut top = Rank::first();
    let mut second = top.clone();
    for _ in 0..200 {
        second = top.clone();
        top = Rank::before(&top);
    }
    let between = Rank::between(Some(&top), Some(&second)).unwrap();
    assert!(top < between && between < second);
    let dropped = drop_rank(Some(&top), Some(&second), None, None).unwrap();
    assert_eq!(dropped, between);
}

#[test]
fn a_drop_between_out_of_order_neighbours_says_which() {
    let first = Rank::first();
    let after = Rank::after(&first);
    match drop_rank(Some(&after), Some(&first), None, None) {
        Err(AppError::Conflict(m)) => assert_eq!(
            m,
            format!(
                "cannot generate a rank between {} and {}: the neighbours are equal or out of order (refetch and retry)",
                after.as_str(),
                first.as_str()
            )
        ),
        other => panic!("expected a conflict, got {other:?}"),
    }
}

#[test]
fn each_line_of_a_message_is_parsed_on_its_own() {
    let a = "ATL-1 #done\nnot a key";
    let b = "fix things\nATL-2 #comment ok";
    let joined = parse(&format!("{a}\n{b}"));
    let mut apart = parse(a);
    apart.extend(parse(b));
    assert_eq!(joined, apart);
    assert_eq!(joined.len(), 2);
    assert_eq!(parse(&format!("\n{b}")), parse(b), "an empty first text adds an empty line");
}

#[test]
fn after_and_before_step_the_first_byte_they_can() {
    let r = |t: &str| Rank::parse(t).unwrap();
    assert_eq!(Rank::after(&Rank::first()).as_str(), "8180");
    assert_eq!(Rank::before(&Rank::first()).as_str(), "7f80");
    assert_eq!(Rank::after(&r("ff80")).as_str(), "ff8180");
    assert_eq!(Rank::after(&r("7f80")).as_str(), "80");
    assert_eq!(Rank::before(&r("0080")).as_str(), "007f80");
    assert_eq!(Rank::before(&r("8180")).as_str(), "80");
    assert_eq!(Rank::after(&r("80ab80")).as_str(), "8180");
}

#[test]
fn creating_a_branch_twice_is_harmless() {
    assert_eq!(branch_ref("atl-7-fix-login"), "refs/heads/atl-7-fix-login");
    assert_eq!(branch_outcome(201), BranchOutcome::Created);
    assert_eq!(branch_outcome(422), BranchOutcome::AlreadyThere);
    assert_eq!(branch_outcome(404), BranchOutcome::Failed);
    assert_eq!(branch_outcome(500), BranchOutcome::Failed);
}
