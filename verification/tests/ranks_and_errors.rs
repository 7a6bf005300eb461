use atlas_core::error::AppError;
use atlas_core::rank::{Rank, RankError};

#[test]
fn after_sorts_after_and_before_sorts_before() {
    let first = Rank::first();
    let after = Rank::after(&first);
    let before = Rank::before(&first);

    assert!(before < first);
    assert!(first < after);
    assert!(before < after);
}

#[test]
fn between_lands_strictly_inside_the_gap() {
    let a = Rank::first();
    let b = Rank::after(&a);
    let mid = Rank::between(Some(&a), Some(&b)).unwrap();

    assert!(a < mid, "{a:?} < {mid:?}");
    assert!(mid < b, "{mid:?} < {b:?}");
}

#[test]
fn between_handles_all_four_edge_combinations() {
    let only = Rank::between(None, None).unwrap();
    assert_eq!(only, Rank::first());

    let head = Rank::between(None, Some(&only)).unwrap();
    assert!(head < only);

    let tail = Rank::between(Some(&only), None).unwrap();
    assert!(only < tail);

    let mid = Rank::between(Some(&only), Some(&tail)).unwrap();
    assert!(only < mid && mid < tail);
}

#[test]
fn between_equal_bounds_is_a_stale_client_not_a_panic() {
    let a = Rank::first();
    let err = Rank::between(Some(&a), Some(&a)).unwrap_err();
    assert!(matches!(err, RankError::OutOfOrder { .. }));
}

#[test]
fn between_reversed_bounds_is_rejected() {
    let a = Rank::first();
    let b = Rank::after(&a);
    let err = Rank::between(Some(&b), Some(&a)).unwrap_err();
    assert!(matches!(err, RankError::OutOfOrder { .. }));
}

#[test]
fn ranks_round_trip_through_text() {
    let rank = Rank::after(&Rank::first());
    let text = rank.as_str().to_owned();

    assert_eq!(Rank::parse(&text).unwrap(), rank);
    assert_eq!(text.parse::<Rank>().unwrap(), rank);
    assert_eq!(Rank::try_from(text.clone()).unwrap(), rank);
    assert_eq!(String::from(rank.clone()), text);
    assert_eq!(rank.to_string(), text);
}

#[test]
fn garbage_is_rejected_rather_than_silently_accepted() {
    assert!(Rank::parse("zzz").is_err());
    assert!(Rank::parse("").is_err());
    assert!(Rank::parse("0102").is_err());
}

#[test]
fn the_encoding_is_lowercase_fixed_width_hex() {
    let rank = Rank::first();
    assert!(rank.as_str().len() % 2 == 0, "{rank:?}");
    assert!(
        rank.as_str().chars().all(|c| c.is_ascii_digit() || ('a'..='f').contains(&c)),
        "{rank:?}"
    );
}

#[test]
fn string_ordering_agrees_with_the_underlying_index_ordering() {
    let a = Rank::first();
    let b = Rank::after(&a);
    let c = Rank::after(&b);
    let mid = Rank::between(Some(&a), Some(&b)).unwrap();

    let mut ranks = vec![c.clone(), a.clone(), mid.clone(), b.clone()];
    ranks.sort();
    assert_eq!(ranks, vec![a, mid, b, c]);
}

#[test]
fn a_rank_error_names_its_cause() {
    let err = RankError::OutOfOrder { before: "81".into(), after: "80".into() };
    assert_eq!(
        err.to_string(),
        "cannot generate a rank between 81 and 80: the neighbours are equal or out of order (refetch and retry)"
    );
    assert!(matches!(Rank::parse("é"), Err(RankError::Decode(_))));
}

#[test]
fn statuses_map_as_documented() {
    assert_eq!(AppError::NotFound.status(), 404);
    assert_eq!(AppError::Unauthorized.status(), 401);
    assert_eq!(AppError::Forbidden.status(), 403);
    assert_eq!(AppError::Conflict("x".into()).status(), 409);
    assert_eq!(AppError::BadRequest("x".into()).status(), 400);
    assert_eq!(AppError::Validation("x".into()).status(), 422);
    assert_eq!(AppError::internal("x").status(), 500);
}

#[test]
fn a_stale_rank_is_a_conflict_not_a_500() {
    let err = RankError::OutOfOrder { before: "80".into(), after: "80".into() };
    assert!(matches!(AppError::from(err), AppError::Conflict(_)));
}

#[test]
fn instance_is_attached_by_with_instance() {
    let problem = AppError::NotFound.problem().with_instance("/api/v1/cards/1");
    assert_eq!(problem.instance.as_deref(), Some("/api/v1/cards/1"));
}

#[test]
fn internal_errors_never_leak_their_cause_into_the_problem() {
    let secret = "SELECT password_hash FROM users WHERE token = 'hunter2'";
    let problem = AppError::internal(secret).problem();
    assert_eq!(problem.status, 500);
    assert_eq!(problem.title, "Internal Server Error");
    assert_eq!(problem.detail, "An unexpected internal error occurred. The incident has been logged.");
    assert!(!problem.detail.contains("hunter2"));
    let conflict = AppError::Conflict("neighbours reordered; refetch".into()).problem();
    assert_eq!(conflict.detail, "neighbours reordered; refetch");
    assert_eq!(conflict.problem_type, "urn:atlas:error:conflict");
    assert_eq!(conflict.instance, None);
}
