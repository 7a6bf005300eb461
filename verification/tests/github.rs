use atlas_core::domain::StatusCategory;
use atlas_core::integrations::github::branch::{branch_name, slugify, MAX_SLUG_LEN};
use atlas_core::integrations::github::client::{
    clamp_per_page, commit_to_summary, repo_to_summary,
    ci_rollup, interpret_user_response, parse_scopes_header, parse_token_expiry, pr_state, CheckRun, CiState,
    CredentialStatus, PrState,
};
use atlas_core::integrations::github::smart_commit::{
    card_actions, directive_category, keys_to_apply, key_in_branch, parse, parse_time_arg, CardAction, Command, SmartCommit,
};
use atlas_core::error::AppError;
use atlas_core::integrations::github::webhook::{
    check_suite_event, commits_from, parse_event, pull_request_event, push_event, ref_event, strip_branch_ref,
    verify_signature, CheckSuiteNodes, CommitNodes, JsonNode, PullRequestNodes, PushCommit, PushNodes, RefNodes,
    WebhookEvent,
};
use hmac::{Hmac, Mac};
use sha2::Sha256;

// --- branches ---------------------------------------------------------------

#[test]
fn the_documented_example_is_produced_exactly() {
    assert_eq!(branch_name("feature", "ATLAS-42", "Add login"), "feature/ATLAS-42-add-login");
}

#[test]
fn spaces_and_punctuation_collapse_to_single_dashes() {
    assert_eq!(
        branch_name("feature", "ATLAS-7", "  Fix the!! broken   login/page  "),
        "feature/ATLAS-7-fix-the-broken-login-page"
    );
}

#[test]
fn the_forbidden_git_ref_sequences_do_not_survive() {
    let name = branch_name("bugfix", "ATLAS-1", "a..b~c^d:e?f*g[h\\i j.lock");
    for forbidden in ["..", "~", "^", ":", "?", "*", "[", "\\", " ", ".lock"] {
        assert!(!name.contains(forbidden), "{name:?} still contains the forbidden sequence {forbidden:?}");
    }
    assert!(name.starts_with("bugfix/ATLAS-1"), "{name}");
}

#[test]
fn the_slug_is_truncated_but_the_key_is_never() {
    let long = "word ".repeat(50);
    let name = branch_name("feature", "ATLAS-999", &long);
    assert!(name.starts_with("feature/ATLAS-999-"), "{name}");
    let slug = name.strip_prefix("feature/ATLAS-999-").unwrap();
    assert!(slug.chars().count() <= MAX_SLUG_LEN, "slug {slug:?} is {} chars", slug.chars().count());
    assert!(!slug.ends_with('-'), "truncation left a trailing dash: {slug}");
}

#[test]
fn an_empty_or_symbol_only_summary_yields_type_slash_key() {
    assert_eq!(branch_name("feature", "ATLAS-3", ""), "feature/ATLAS-3");
    assert_eq!(branch_name("feature", "ATLAS-3", "!!! ???"), "feature/ATLAS-3");
}

#[test]
fn an_empty_branch_type_falls_back_to_the_default() {
    assert_eq!(branch_name("", "ATLAS-3", "hi"), "feature/ATLAS-3-hi");
    assert_eq!(branch_name("  /  ", "ATLAS-3", "hi"), "feature/ATLAS-3-hi");
}

#[test]
fn slugify_is_idempotent_on_its_own_output() {
    let once = slugify("Hello, World! Foo");
    assert_eq!(slugify(&once), once);
    assert_eq!(once, "hello-world-foo");
}

#[test]
fn a_slug_stops_at_the_budget_without_a_dangling_dash() {
    // 49 letters, a separator, then more: the dash and the next letter would
    // take it to 51, so the slug ends at the 49 letters.
    let input = format!("{} tail", "a".repeat(49));
    assert_eq!(slugify(&input), "a".repeat(49));
    assert_eq!(slugify(&"b".repeat(80)), "b".repeat(50));
    assert_eq!(slugify("Crème brûlée 2"), "cr-me-br-l-e-2");
}

// --- smart commits ----------------------------------------------------------

fn one(message: &str) -> SmartCommit {
    let mut parsed = parse(message);
    assert_eq!(parsed.len(), 1, "expected exactly one smart commit in {message:?}");
    parsed.remove(0)
}

fn duration(arg: &str) -> i64 {
    parse_time_arg(arg).expect("a valid duration").0
}

#[test]
fn the_documented_examples_parse_as_specified() {
    assert_eq!(
        one("ATLAS-123 #done"),
        SmartCommit { keys: vec!["ATLAS-123".to_owned()], commands: vec![Command::Transition("done".to_owned())] }
    );

    assert_eq!(one("ATLAS-123 #comment fixed the leak").commands, vec![Command::Comment("fixed the leak".to_owned())]);

    assert_eq!(one("ATLAS-123 #time 2h 30m").commands, vec![Command::Time { minutes: 150, note: None }]);

    assert_eq!(one("ATLAS-123 ATLAS-124 #done").keys, vec!["ATLAS-123".to_owned(), "ATLAS-124".to_owned()]);

    assert_eq!(
        one("ATLAS-123 #time 1h #comment wip #done").commands,
        vec![
            Command::Time { minutes: 60, note: None },
            Command::Comment("wip".to_owned()),
            Command::Transition("done".to_owned()),
        ]
    );
}

#[test]
fn a_bare_key_links_but_carries_no_command() {
    let commit = one("ATLAS-42 look at this later");
    assert_eq!(commit.keys, vec!["ATLAS-42".to_owned()]);
    assert!(commit.is_link_only());
}

#[test]
fn keys_must_lead_the_line() {
    assert!(parse("Fix the thing for ATLAS-42 #done").is_empty());
}

#[test]
fn directives_are_case_insensitive_and_keys_are_upper_cased() {
    assert_eq!(
        one("atlas-1 #DONE"),
        SmartCommit { keys: vec!["ATLAS-1".to_owned()], commands: vec![Command::Transition("done".to_owned())] }
    );
}

#[test]
fn a_trailing_comma_on_a_key_is_tolerated_and_duplicates_collapse() {
    let commit = one("ATLAS-7, ATLAS-7 #done");
    assert_eq!(commit.keys, vec!["ATLAS-7".to_owned()]);
}

#[test]
fn a_key_shaped_false_positive_parses_but_is_link_only() {
    let commit = one("SHA-256 checksum mismatch");
    assert_eq!(commit.keys, vec!["SHA-256".to_owned()]);
    assert!(commit.is_link_only());
    assert!(parse("8-bit rendering fixed").is_empty());
}

#[test]
fn time_units_sum_on_a_working_calendar_and_keep_a_note() {
    assert_eq!(duration("30m"), 30);
    assert_eq!(duration("2h"), 120);
    assert_eq!(duration("3d"), 3 * 8 * 60);
    assert_eq!(duration("1w"), 5 * 8 * 60);
    assert_eq!(duration("1w 1d 1h 1m"), 5 * 8 * 60 + 8 * 60 + 60 + 1);

    assert_eq!(
        one("ATLAS-1 #time 1h reviewed the PR").commands,
        vec![Command::Time { minutes: 60, note: Some("reviewed the PR".to_owned()) }]
    );
}

#[test]
fn an_unparseable_or_zero_time_is_dropped_rather_than_logged() {
    assert!(one("ATLAS-1 #time 0m").commands.is_empty());
    assert!(one("ATLAS-1 #time soon").commands.is_empty());
    assert!(one("ATLAS-1 #time").commands.is_empty());
}

#[test]
fn every_line_is_scanned_independently() {
    let message = "ATLAS-1 #done\nunrelated line\nATLAS-2 #comment on the second card";
    let parsed = parse(message);
    assert_eq!(parsed.len(), 2);
    assert_eq!(parsed[0].keys, vec!["ATLAS-1".to_owned()]);
    assert_eq!(parsed[1].commands, vec![Command::Comment("on the second card".to_owned())]);
}

#[test]
fn directives_map_to_the_right_status_category() {
    assert_eq!(directive_category("done"), Some(StatusCategory::Done));
    assert_eq!(directive_category("resolve"), Some(StatusCategory::Done));
    assert_eq!(directive_category("in-progress"), Some(StatusCategory::InProgress));
    assert_eq!(directive_category("reopen"), Some(StatusCategory::Todo));
    assert_eq!(directive_category("frobnicate"), None);
}

#[test]
fn a_time_token_is_a_signed_integer_and_a_unit() {
    assert_eq!(parse_time_arg("+2H"), Some((120, None)));
    assert_eq!(parse_time_arg("-0m 1h"), Some((60, None)));
    assert_eq!(parse_time_arg("-1h"), None);
    assert_eq!(parse_time_arg("h"), None);
    assert_eq!(parse_time_arg("1x 1h"), None);
    assert_eq!(parse_time_arg("1h  then   some\tnote"), Some((60, Some("then some note".to_owned()))));
    // A duration that overflows the minute counter is no duration.
    assert_eq!(parse_time_arg("9223372036854775807m 1m"), None);
    assert_eq!(parse_time_arg("4611686018427387904h"), None);
}

#[test]
fn crlf_lines_and_blank_lines_are_read_like_str_lines() {
    let parsed = parse("ATLAS-1 #done\r\n\r\nATLAS-2 #comment two\n");
    assert_eq!(parsed.len(), 2);
    assert_eq!(parsed[0].commands, vec![Command::Transition("done".to_owned())]);
    assert_eq!(parsed[1].commands, vec![Command::Comment("two".to_owned())]);
}

#[test]
fn a_branch_name_carries_the_key_it_was_cut_for() {
    assert_eq!(key_in_branch("feature/ATLAS-42-add-login"), Some("ATLAS-42".to_owned()));
    assert_eq!(key_in_branch("fix/atlas-7"), Some("ATLAS-7".to_owned()));
    assert_eq!(key_in_branch("1ATLAS-3"), None);
    assert_eq!(key_in_branch("x1atlas-3"), Some("X1ATLAS-3".to_owned()));
    assert_eq!(key_in_branch("release-candidate"), None);
    assert_eq!(key_in_branch("é/ABC-12"), Some("ABC-12".to_owned()));
}

// --- the client's pure half -------------------------------------------------

fn rfc3339(t: i64) -> String {
    chrono::DateTime::from_timestamp(t, 0).unwrap().to_rfc3339()
}

#[test]
fn expiry_parses_the_numeric_offset_format() {
    let parsed = parse_token_expiry("2025-09-05 17:55:53 +0500").unwrap();
    assert_eq!(rfc3339(parsed), "2025-09-05T12:55:53+00:00");
}

#[test]
fn expiry_parses_the_named_zone_format() {
    let parsed = parse_token_expiry("2026-06-03 19:52:44 UTC").unwrap();
    assert_eq!(rfc3339(parsed), "2026-06-03T19:52:44+00:00");
    assert_eq!(rfc3339(parse_token_expiry("2026-06-03 19:52:44 GMT").unwrap()), "2026-06-03T19:52:44+00:00");
}

#[test]
fn a_missing_or_unparseable_expiry_is_unknown_not_an_error() {
    assert_eq!(parse_token_expiry(""), None);
    assert_eq!(parse_token_expiry("   "), None);
    assert_eq!(parse_token_expiry("2026-06-03 19:52:44 PST"), None);
    assert_eq!(parse_token_expiry("garbage"), None);
}

#[test]
fn scopes_split_on_commas_and_trim() {
    assert_eq!(
        parse_scopes_header(Some("repo, read:org , workflow")),
        Some(vec!["repo".to_owned(), "read:org".to_owned(), "workflow".to_owned()])
    );
}

#[test]
fn an_absent_or_empty_scopes_header_is_unknown_not_wiped() {
    assert_eq!(parse_scopes_header(None), None);
    assert_eq!(parse_scopes_header(Some("")), None);
    assert_eq!(parse_scopes_header(Some("   ,  , ")), None);
}

#[test]
fn a_200_is_valid_and_carries_scopes_and_expiry() {
    let outcome = interpret_user_response(200, Some("repo, workflow"), Some("2026-06-03 19:52:44 UTC")).unwrap();
    assert_eq!(outcome.status, CredentialStatus::Valid);
    assert_eq!(outcome.scopes, Some(vec!["repo".to_owned(), "workflow".to_owned()]));
    assert!(outcome.expires_at.is_some());
}

#[test]
fn a_200_with_no_headers_is_valid_with_unknown_scopes_and_expiry() {
    let outcome = interpret_user_response(200, None, None).unwrap();
    assert_eq!(outcome.status, CredentialStatus::Valid);
    assert_eq!(outcome.scopes, None);
    assert_eq!(outcome.expires_at, None);
}

#[test]
fn a_401_or_403_is_invalid() {
    for status in [401, 403] {
        let outcome = interpret_user_response(status, None, None).unwrap();
        assert_eq!(outcome.status, CredentialStatus::Invalid);
        assert_eq!(outcome.scopes, None);
    }
}

#[test]
fn a_transient_5xx_is_an_error_not_a_false_invalid() {
    assert!(interpret_user_response(500, None, None).is_err());
    assert!(interpret_user_response(502, None, None).is_err());
}

fn run(status: &str, conclusion: Option<&str>) -> CheckRun {
    CheckRun { status: status.to_owned(), conclusion: conclusion.map(ToOwned::to_owned) }
}

#[test]
fn ci_rollup_is_failure_first() {
    assert_eq!(ci_rollup(Some("success"), &vec![run("completed", Some("failure"))]), CiState::Failed);
    assert_eq!(ci_rollup(Some("failure"), &vec![run("completed", Some("success"))]), CiState::Failed);
}

#[test]
fn ci_rollup_reports_running_before_passed() {
    assert_eq!(ci_rollup(Some("success"), &vec![run("in_progress", None)]), CiState::Running);
    assert_eq!(ci_rollup(Some("pending"), &vec![]), CiState::Running);
}

#[test]
fn ci_rollup_passes_and_treats_skips_as_neutral() {
    assert_eq!(ci_rollup(None, &vec![run("completed", Some("success"))]), CiState::Passed);
    assert_eq!(ci_rollup(None, &vec![run("completed", Some("skipped"))]), CiState::Neutral);
    assert_eq!(ci_rollup(None, &vec![]), CiState::Neutral);
}

#[test]
fn pr_state_only_calls_a_pr_merged_when_merged_is_true() {
    assert_eq!(pr_state("open", false), PrState::Open);
    assert_eq!(pr_state("closed", false), PrState::Closed);
    assert_ne!(pr_state("closed", false), PrState::Merged);
    assert_eq!(pr_state("closed", true), PrState::Merged);
}

// --- webhooks ---------------------------------------------------------------

fn sign(secret: &[u8], body: &[u8]) -> String {
    let mut mac = <Hmac<Sha256>>::new_from_slice(secret).unwrap();
    mac.update(body);
    format!("sha256={}", hex::encode(mac.finalize().into_bytes()))
}

#[test]
fn a_valid_signature_verifies() {
    let secret = b"a-per-repo-webhook-secret";
    let body = br#"{"zen":"Keep it logically awesome."}"#;
    assert!(verify_signature(secret, body, &sign(secret, body)));
}

#[test]
fn a_wrong_signature_does_not_verify() {
    let secret = b"a-per-repo-webhook-secret";
    let body = br#"{"action":"closed"}"#;
    let forged = sign(b"attacker-guess", body);
    assert!(!verify_signature(secret, body, &forged));
    let sig = sign(secret, body);
    assert!(!verify_signature(secret, br#"{"action":"opened"}"#, &sig));
}

#[test]
fn a_missing_prefix_or_non_hex_does_not_verify() {
    let secret = b"s";
    let body = b"{}";
    assert!(!verify_signature(secret, body, &hex::encode([0u8; 32])));
    assert!(!verify_signature(secret, body, "sha256=zzzz"));
    assert!(!verify_signature(secret, body, "sha256=abcd"));
    assert!(!verify_signature(secret, body, ""));
}

#[test]
fn an_uppercase_hex_signature_verifies_too() {
    let secret = b"k";
    let body = b"payload";
    let sig = sign(secret, body);
    let upper = format!("sha256={}", sig["sha256=".len()..].to_uppercase());
    assert!(verify_signature(secret, body, &upper));
    assert!(!verify_signature(secret, body, &sig.to_uppercase()), "the prefix is case-sensitive");
}

#[test]
fn the_branch_ref_prefix_is_stripped() {
    assert_eq!(strip_branch_ref("refs/heads/feature/ATLAS-1-x"), "feature/ATLAS-1-x");
    assert_eq!(strip_branch_ref("main"), "main");
}

#[test]
fn a_push_event_parses_its_branch_and_commits() {
    let body = br#"{
        "ref": "refs/heads/feature/ATLAS-9-x",
        "commits": [
            {"id": "abc", "message": "ATLAS-9 #done", "url": "https://x/abc"}
        ]
    }"#;
    let event = parse_event("push", body).unwrap().unwrap();
    assert_eq!(
        event,
        WebhookEvent::Push {
            branch: "feature/ATLAS-9-x".to_owned(),
            commits: vec![PushCommit {
                id: "abc".to_owned(),
                message: "ATLAS-9 #done".to_owned(),
                url: "https://x/abc".to_owned(),
            }],
        }
    );
}

#[test]
fn a_merged_pull_request_parses_as_merged() {
    let body = br#"{
        "action": "closed",
        "pull_request": {
            "number": 7, "title": "Add login", "html_url": "https://x/7",
            "merged": true, "head": {"ref": "feature/ATLAS-42-add-login"}
        }
    }"#;
    let event = parse_event("pull_request", body).unwrap().unwrap();
    let WebhookEvent::PullRequest { merged, branch, action, number, .. } = event else {
        panic!("expected a pull_request event");
    };
    assert!(merged);
    assert_eq!(action, "closed");
    assert_eq!(number, 7);
    assert_eq!(branch, "feature/ATLAS-42-add-login");
}

#[test]
fn a_closed_unmerged_pull_request_is_not_merged() {
    let body = br#"{
        "action": "closed",
        "pull_request": {
            "number": 8, "title": "Abandoned", "html_url": "https://x/8",
            "merged": false, "merged_at": null, "head": {"ref": "feature/ATLAS-43-x"}
        }
    }"#;
    let WebhookEvent::PullRequest { merged, .. } = parse_event("pull_request", body).unwrap().unwrap() else {
        panic!("expected a pull_request event");
    };
    assert!(!merged, "a closed-without-merge PR must not read as merged");
}

#[test]
fn an_unhandled_event_parses_to_none() {
    assert_eq!(parse_event("ping", b"{}").unwrap(), None);
    assert_eq!(parse_event("status", b"{}").unwrap(), None);
}

#[test]
fn a_body_that_is_not_json_is_a_bad_request_and_a_wrong_shape_is_not() {
    match parse_event("ping", b"{not json") {
        Err(AppError::BadRequest(m)) => assert!(m.starts_with("invalid webhook JSON: "), "{m}"),
        other => panic!("expected a bad request, got {other:?}"),
    }
    assert!(matches!(parse_event("push", br#"{"ref": 5}"#), Err(AppError::Internal(_))));
    assert!(matches!(parse_event("pull_request", br#"{"action": "opened"}"#), Err(AppError::Internal(_))));
    assert!(matches!(parse_event("push", br#"{"commits": [{"id": "a"}]}"#), Err(AppError::Internal(_))));
    assert_eq!(
        parse_event("push", br#"{}"#).unwrap(),
        Some(WebhookEvent::Push { branch: String::new(), commits: vec![] })
    );
    assert_eq!(
        parse_event("delete", br#"{"ref": "old", "ref_type": "branch"}"#).unwrap(),
        Some(WebhookEvent::Delete { ref_type: "branch".to_owned(), ref_name: "old".to_owned() })
    );
    assert_eq!(
        parse_event("check_suite", br#"{"check_suite": {"head_sha": "abc", "head_branch": null}}"#).unwrap(),
        Some(WebhookEvent::CheckSuite { head_sha: "abc".to_owned(), head_branch: None, conclusion: None })
    );
}

#[test]
fn a_commits_commands_become_card_actions_in_order() {
    let commands = vec![
        Command::Transition("wip".to_owned()),
        Command::Comment("   ".to_owned()),
        Command::Comment("  looks good ".to_owned()),
        Command::Transition("frobnicate".to_owned()),
        Command::Time { minutes: 150, note: Some("pairing".to_owned()) },
        Command::Transition("done".to_owned()),
    ];
    assert_eq!(
        card_actions(&commands),
        vec![
            CardAction::MoveTo(StatusCategory::InProgress),
            CardAction::Comment("looks good".to_owned()),
            CardAction::Worklog { minutes: 150, note: Some("pairing".to_owned()) },
            CardAction::MoveTo(StatusCategory::Done),
        ]
    );
}

#[test]
fn commits_show_their_subject_line_and_repos_their_push_right() {
    let c = commit_to_summary("abc".to_owned(), "Fix login\r\n\nLonger body", "https://x/c".to_owned());
    assert_eq!(c.message, "Fix login");
    assert_eq!(commit_to_summary("a".to_owned(), "one line", String::new()).message, "one line");
    assert_eq!(commit_to_summary("a".to_owned(), "", String::new()).message, "");
    assert_eq!(commit_to_summary("a".to_owned(), "\nrest", String::new()).message, "");
    let r = repo_to_summary(7, "acme/atlas".to_owned(), "main".to_owned(), true, None);
    assert!(!r.can_push);
    assert!(r.private);
    assert!(repo_to_summary(7, "acme/atlas".to_owned(), "main".to_owned(), false, Some(true)).can_push);
    assert_eq!(clamp_per_page(0), 1);
    assert_eq!(clamp_per_page(30), 30);
    assert_eq!(clamp_per_page(500), 100);
}

#[test]
fn an_unexpected_probe_status_is_named_with_its_reason() {
    match interpret_user_response(500, None, None) {
        Err(AppError::Internal(m)) => assert_eq!(
            m,
            "GitHub returned an unexpected status 500 Internal Server Error from GET /user while validating a token; not recording the credential as invalid on a transient failure"
        ),
        other => panic!("unexpected {other:?}"),
    }
}

#[test]
fn applying_commits_visits_each_key_of_each_commit_with_commands() {
    let commits = vec![
        SmartCommit { keys: vec!["ATLAS-1".to_owned()], commands: vec![] },
        SmartCommit {
            keys: vec!["ATLAS-2".to_owned(), "OPS-3".to_owned()],
            commands: vec![Command::Transition("done".to_owned())],
        },
        SmartCommit { keys: vec!["ATLAS-4".to_owned()], commands: vec![Command::Comment("hi".to_owned())] },
    ];
    assert_eq!(
        keys_to_apply(&commits),
        vec![(1, "ATLAS-2".to_owned()), (1, "OPS-3".to_owned()), (2, "ATLAS-4".to_owned())]
    );
}

fn text(t: &str) -> JsonNode {
    JsonNode::Text(t.to_owned())
}

#[test]
fn events_are_read_from_the_nodes_a_body_answers() {
    let commit = |id: JsonNode| CommitNodes { commit: JsonNode::Object, id, message: text("ATL-1 fix"), url: JsonNode::Missing };
    let push = PushNodes {
        top: JsonNode::Object,
        git_ref: text("refs/heads/main"),
        commits: JsonNode::Array(1),
        items: vec![commit(text("abc"))],
    };
    assert_eq!(
        push_event(&push),
        Some(WebhookEvent::Push {
            branch: "main".to_owned(),
            commits: vec![PushCommit { id: "abc".to_owned(), message: "ATL-1 fix".to_owned(), url: String::new() }],
        })
    );
    assert_eq!(commits_from(&vec![commit(JsonNode::Number(Some(5)))]), None, "a numeric id is a shape error");
    let no_commits = PushNodes { top: JsonNode::Object, git_ref: JsonNode::Missing, commits: JsonNode::Missing, items: vec![] };
    assert_eq!(push_event(&no_commits), Some(WebhookEvent::Push { branch: String::new(), commits: vec![] }));
    let not_object = PushNodes { top: JsonNode::Array(0), git_ref: JsonNode::Missing, commits: JsonNode::Missing, items: vec![] };
    assert_eq!(push_event(&not_object), None);

    let pr = PullRequestNodes {
        top: JsonNode::Object,
        pull_request: JsonNode::Object,
        head: JsonNode::Object,
        action: text("closed"),
        number: JsonNode::Number(Some(7)),
        title: text("Fix"),
        html_url: text("https://x/7"),
        merged: JsonNode::Missing,
        merged_at: text("2024-01-01T00:00:00Z"),
        head_ref: text("atl-1-fix"),
    };
    assert_eq!(
        pull_request_event(&pr),
        Some(WebhookEvent::PullRequest {
            action: "closed".to_owned(),
            branch: "atl-1-fix".to_owned(),
            merged: true,
            number: 7,
            title: "Fix".to_owned(),
            html_url: "https://x/7".to_owned(),
        })
    );
    assert_eq!(pull_request_event(&PullRequestNodes { head: JsonNode::Missing, ..pr }), None);

    let suite = CheckSuiteNodes {
        top: JsonNode::Object,
        check_suite: JsonNode::Object,
        head_sha: text("abc"),
        head_branch: JsonNode::Null,
        conclusion: text("success"),
    };
    assert_eq!(
        check_suite_event(&suite),
        Some(WebhookEvent::CheckSuite { head_sha: "abc".to_owned(), head_branch: None, conclusion: Some("success".to_owned()) })
    );

    let created = RefNodes { top: JsonNode::Object, git_ref: text("atl-1"), ref_type: text("branch") };
    assert_eq!(ref_event(true, &created), Some(WebhookEvent::Create { ref_type: "branch".to_owned(), ref_name: "atl-1".to_owned() }));
    assert_eq!(ref_event(false, &created), Some(WebhookEvent::Delete { ref_type: "branch".to_owned(), ref_name: "atl-1".to_owned() }));
    let bad = RefNodes { top: JsonNode::Object, git_ref: JsonNode::Bool(true), ref_type: text("branch") };
    assert_eq!(ref_event(true, &bad), None);
}
