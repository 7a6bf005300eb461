use std::collections::HashSet;

use atlas_core::domain::member::ProjectRole;
use atlas_core::domain::tag::{presets, usable_from, validate_name, Tag, TagColour, TagPatch, MAX_NAME};
use atlas_core::domain::template::{project_from_template, Template};
use atlas_core::domain::workflow::{
    parse_condition, parse_post_function, parse_validator, AssignTarget, Condition, FieldName, PostFunction,
    Validator,
};
use atlas_core::domain::{EstimationUnit, StatusCategory};
use atlas_core::error::AppError;

fn names<'a>(iter: impl Iterator<Item = &'a str>) -> Option<HashSet<&'a str>> {
    let mut seen = HashSet::new();
    for name in iter {
        if !seen.insert(name) {
            return None;
        }
    }
    Some(seen)
}

#[test]
fn every_template_is_internally_consistent() {
    for template in Template::all() {
        let levels: HashSet<i64> = template.levels().iter().map(|(l, _)| *l).collect();
        assert_eq!(levels.len(), template.levels().len(), "{template:?}: duplicate level number");

        for (name, level, ..) in template.card_types() {
            assert!(
                levels.contains(&level),
                "{template:?}: card type {name:?} is at level {level}, which the template does not define"
            );
        }

        let default_types = template.card_types().iter().filter(|(.., is_default)| *is_default).count();
        assert_eq!(default_types, 1, "{template:?}: exactly one card type must be the default");

        assert!(
            template.statuses().iter().any(|(_, c, _)| *c == StatusCategory::Todo),
            "{template:?}: no todo status"
        );
        assert!(template.statuses().iter().any(|(_, c, _)| c.is_done()), "{template:?}: no done status");

        assert!(
            !template.resolutions().is_empty(),
            "{template:?}: no resolutions, so no card could ever be finished"
        );
        assert!(
            template.resolutions().iter().any(|(_, p)| *p == 1),
            "{template:?}: no resolution at position 1 to auto-set"
        );

        let statuses = template.statuses();
        let types = template.card_types();
        let priorities = template.priorities();
        let resolutions = template.resolutions();
        for (kind, names) in [
            ("status", names(statuses.iter().map(|(n, ..)| *n))),
            ("card type", names(types.iter().map(|(n, ..)| *n))),
            ("priority", names(priorities.iter().map(|(n, ..)| *n))),
            ("resolution", names(resolutions.iter().map(|(n, _)| *n))),
        ] {
            assert!(names.is_some(), "{template:?}: duplicate {kind} name");
        }
    }
}

#[test]
fn the_job_search_template_is_the_domain_neutrality_proof() {
    let template = Template::JobSearch;

    let statuses: Vec<&str> = template.statuses().iter().map(|(n, ..)| *n).collect();
    assert_eq!(
        statuses,
        ["Interested", "Applied", "Phone Screen", "Interview", "Take-home", "Offer", "Accepted", "Rejected", "Ghosted"],
        "the requested job-search workflow, in order"
    );

    let done: Vec<&str> = template.statuses().iter().filter(|(_, c, _)| c.is_done()).map(|(n, ..)| *n).collect();
    assert_eq!(
        done,
        ["Accepted", "Rejected", "Ghosted"],
        "all three endings are terminal; the resolution says which one happened"
    );

    let levels: Vec<(i64, &str)> = template.levels().to_vec();
    assert_eq!(levels, [(1, "Company"), (0, "Application"), (-1, "Task")]);

    assert!(!template.cycles_enabled(), "a job hunt has no sprints");
    assert_eq!(template.estimation_unit(), EstimationUnit::NoEstimate);
}

#[test]
fn only_the_programming_template_assumes_software() {
    for template in Template::all() {
        let software = template == Template::Programming;
        assert_eq!(template.cycles_enabled(), software, "{template:?}: cycles are a software habit");
        assert_eq!(
            template.estimation_unit() != EstimationUnit::NoEstimate,
            software,
            "{template:?}: story points are a software habit"
        );
    }
}

#[test]
fn no_template_exceeds_the_depth_cap() {
    for template in Template::all() {
        assert!(
            template.levels().len() <= atlas_core::domain::hierarchy::MAX_DEPTH,
            "{template:?}: {} levels exceeds the depth cap of {}",
            template.levels().len(),
            atlas_core::domain::hierarchy::MAX_DEPTH
        );
    }
}

#[test]
fn template_spellings_are_the_wire_names() {
    let spellings: Vec<&str> = Template::all().iter().map(|t| t.as_str()).collect();
    assert_eq!(spellings, ["programming", "3d-modeling", "job-search", "blank"]);
    assert_eq!(Template::default(), Template::Blank);
}

#[test]
fn a_tag_name_with_a_space_is_rejected_and_told_what_to_type() {
    let err = validate_name("needs review").unwrap_err();
    assert!(matches!(err, AppError::Validation(_)));
    assert!(err.to_string().contains("needs-review"), "expected a hyphenated suggestion, got: {err:?}");
}

#[test]
fn every_kind_of_whitespace_is_rejected_not_just_the_ascii_space() {
    for name in ["a\u{00A0}b", "a\tb", "a\nb", "a\u{2007}b", "a b", "a\u{3000}b"] {
        let err = validate_name(name).unwrap_err().to_string();
        assert!(
            err.contains("must not contain spaces"),
            "whitespace in {name:?} must be reported as a space; got: {err}"
        );
        assert!(err.contains("a-b"), "and the message must show what to type instead; got: {err}");
    }
}

#[test]
fn a_control_character_that_is_not_whitespace_is_named_accurately() {
    for name in ["a\u{0}b", "a\u{1B}b", "a\u{7F}b"] {
        let err = validate_name(name).unwrap_err().to_string();
        assert!(err.contains("control characters"), "{name:?} should be reported as a control character; got: {err}");
    }
}

#[test]
fn surrounding_whitespace_is_trimmed_rather_than_rejected() {
    assert_eq!(validate_name("  bug  ").unwrap(), "bug");
    assert_eq!(validate_name("\tbug\n").unwrap(), "bug");
}

#[test]
fn punctuation_is_allowed_because_only_spaces_are_ambiguous() {
    for name in ["c++", "i18n", ".NET", "3d-print", "v1.2.0", "@home", "a/b"] {
        assert_eq!(validate_name(name).unwrap(), name, "{name:?} must be legal");
    }
}

#[test]
fn empty_control_and_overlong_names_are_rejected() {
    assert!(validate_name("").is_err());
    assert!(validate_name("   ").is_err(), "whitespace-only is empty");
    assert!(validate_name("a\u{0}b").is_err(), "control character");
    assert!(validate_name(&"a".repeat(MAX_NAME)).is_ok());
    assert!(validate_name(&"a".repeat(MAX_NAME + 1)).is_err());
}

#[test]
fn the_name_length_cap_counts_characters_not_bytes() {
    let name = "\u{6f22}".repeat(MAX_NAME);
    assert_eq!(name.len(), MAX_NAME * 3, "3 bytes per character");
    assert!(validate_name(&name).is_ok());
}

#[test]
fn every_preset_name_is_a_legal_tag_name() {
    for template in Template::all() {
        for (name, _) in presets(template) {
            assert_eq!(validate_name(name).unwrap(), name, "{template:?}: preset {name:?} is not a legal tag name");
        }
    }
}

#[test]
fn no_template_seeds_the_same_tag_twice() {
    for template in Template::all() {
        let mut seen = HashSet::new();
        for (name, _) in presets(template) {
            assert!(seen.insert(name.to_lowercase()), "{template:?}: {name:?} is seeded twice");
        }
    }
}

#[test]
fn every_template_seeds_the_list_todo_md_documents() {
    let expected: [(Template, &[&str]); 4] = [
        (
            Template::Programming,
            &[
                "bug",
                "feature",
                "refactor",
                "tech-debt",
                "docs",
                "testing",
                "ci",
                "security",
                "performance",
                "dependencies",
                "breaking-change",
                "good-first-issue",
                "blocked",
                "needs-review",
                "hotfix",
            ],
        ),
        (
            Template::ThreeDModeling,
            &[
                "modeling",
                "sculpting",
                "retopo",
                "uv-unwrap",
                "texturing",
                "rigging",
                "animation",
                "lighting",
                "rendering",
                "post-process",
                "reference",
                "wip",
                "client-review",
                "approved",
                "revision",
            ],
        ),
        (
            Template::JobSearch,
            &[
                "applied",
                "phone-screen",
                "technical-interview",
                "onsite",
                "take-home",
                "offer",
                "rejected",
                "ghosted",
                "follow-up",
                "referral",
                "remote",
                "hybrid",
                "onsite-only",
                "contract",
                "permanent",
            ],
        ),
        (Template::Blank, &["urgent", "blocked", "waiting", "research", "idea", "question", "admin"]),
    ];

    for (template, want) in expected {
        let got: HashSet<&str> = presets(template).iter().map(|(n, _)| *n).collect();
        let want: HashSet<&str> = want.iter().copied().collect();

        let missing: Vec<_> = want.difference(&got).collect();
        let extra: Vec<_> = got.difference(&want).collect();
        assert!(missing.is_empty() && extra.is_empty(), "{template:?}: missing {missing:?}, unexpected {extra:?}");
    }
}

#[test]
fn the_general_set_goes_to_the_blank_template_and_nowhere_else() {
    let programming: HashSet<&str> = presets(Template::Programming).iter().map(|(n, _)| *n).collect();
    let general: HashSet<&str> = presets(Template::Blank).iter().map(|(n, _)| *n).collect();

    assert!(
        programming.contains("blocked") && general.contains("blocked"),
        "the overlap that forces the sets to be alternatives"
    );
}

#[test]
fn the_job_search_stage_tags_progress_grey_to_blue_to_green() {
    let by_name = |want: &str| match presets(Template::JobSearch).iter().find(|(name, _)| *name == want) {
        Some((_, colour)) => *colour,
        None => panic!("job-search has no {want:?} tag"),
    };

    assert_eq!(by_name("applied"), TagColour::Grey);
    for stage in ["phone-screen", "technical-interview", "onsite", "take-home"] {
        assert_eq!(by_name(stage), TagColour::Blue, "{stage} is mid-process");
    }
    assert_eq!(by_name("offer"), TagColour::Green);
    assert_eq!(by_name("rejected"), TagColour::Red);
    assert_ne!(by_name("onsite"), by_name("onsite-only"), "a stage and a work-mode must be distinguishable at a glance");
}

#[test]
fn every_preset_colour_is_one_the_frontend_can_render() {
    let known: HashSet<&str> = TagColour::all().iter().map(|c| c.as_str()).collect();
    for template in Template::all() {
        for (name, colour) in presets(template) {
            assert!(known.contains(colour.as_str()), "{template:?}: {name:?} has an unrenderable colour");
        }
    }
}

#[test]
fn a_global_tag_is_usable_from_any_project_and_a_project_tag_is_not() {
    let global = Tag {
        id: "t1".into(),
        project_id: None,
        name: "urgent".into(),
        colour: None,
        created_at: chrono::Utc::now().to_rfc3339(),
    };
    let owned = Tag { project_id: Some("p1".into()), ..global.clone() };

    assert!(usable_from(&global, "p1"));
    assert!(usable_from(&global, "p2"), "global means everywhere");
    assert!(usable_from(&owned, "p1"));
    assert!(!usable_from(&owned, "p2"), "a card must not carry another project's tag");
}

#[test]
fn an_empty_patch_is_recognised_as_changing_nothing() {
    assert!(TagPatch::default().is_empty());
    assert!(!TagPatch { colour: Some(None), ..Default::default() }.is_empty(), "clearing the colour is a change, not an absence");
}

#[test]
fn tag_colours_read_back_from_their_spelling_and_nothing_else() {
    for colour in TagColour::all() {
        assert_eq!(colour.as_str().parse::<TagColour>().unwrap(), colour);
    }
    assert!("chartreuse".parse::<TagColour>().is_err());
    assert!("Blue".parse::<TagColour>().is_err(), "lowercase only");
    assert!("#4BADE8".parse::<TagColour>().is_err(), "not a hex");
    let err = "Blue".parse::<TagColour>().unwrap_err();
    assert_eq!(err.to_string(), "unknown tag colour \"Blue\"");
    assert_eq!(TagColour::default(), TagColour::Standard);
}

#[test]
fn the_whitespace_suggestion_joins_the_words_with_single_dashes() {
    let err = validate_name("  needs \t\u{a0} more   review ").unwrap_err().to_string();
    assert_eq!(err, "validation failed: A tag name must not contain spaces. Try \"needs-more-review\".");
    let err = validate_name(&"a".repeat(MAX_NAME + 1)).unwrap_err().to_string();
    assert_eq!(err, "validation failed: A tag name must be at most 50 characters long.");
    let err = validate_name(" ").unwrap_err().to_string();
    assert_eq!(err, "validation failed: A tag name must not be empty.");
}

#[test]
fn field_names_round_trip_through_their_wire_spelling() {
    for (spelling, field) in [
        ("priority", FieldName::Priority),
        ("assignee", FieldName::Assignee),
        ("reporter", FieldName::Reporter),
        ("resolution", FieldName::Resolution),
        ("dueDate", FieldName::DueDate),
        ("startDate", FieldName::StartDate),
        ("estimate", FieldName::Estimate),
        ("description", FieldName::Description),
    ] {
        assert_eq!(FieldName::from_str(spelling), Some(field));
    }
    assert_eq!(FieldName::from_str("nonsense"), None);
}

#[test]
fn a_condition_with_an_unknown_kind_is_rejected_not_ignored() {
    assert!(parse_condition("Teleport", "{}").is_err());
    assert!(parse_condition("OnlyAssignee", "{}").is_ok());
    assert!(parse_condition("ChildBlocking", "{}").is_ok());
}

#[test]
fn user_in_role_needs_a_valid_role() {
    assert_eq!(
        parse_condition("UserInRole", r#"{"role":"owner"}"#).unwrap(),
        Condition::UserInRole(ProjectRole::Owner)
    );
    assert!(parse_condition("UserInRole", r#"{"role":"emperor"}"#).is_err());
    assert!(parse_condition("UserInRole", "{}").is_err());
}

#[test]
fn a_required_field_validator_names_a_real_field() {
    assert_eq!(
        parse_validator("RequiredField", r#"{"field":"resolution"}"#).unwrap(),
        Validator::RequiredField(FieldName::Resolution)
    );
    assert!(parse_validator("RequiredField", r#"{"field":"nonsense"}"#).is_err());
    assert!(parse_validator("Nope", "{}").is_err());
}

#[test]
fn post_functions_parse_their_configs() {
    assert_eq!(
        parse_post_function("SetResolution", r#"{"resolutionId":"r1"}"#).unwrap(),
        PostFunction::SetResolution(Some("r1".to_owned()))
    );
    assert_eq!(parse_post_function("SetResolution", "{}").unwrap(), PostFunction::SetResolution(None));
    assert_eq!(
        parse_post_function("AssignTo", r#"{"target":"currentUser"}"#).unwrap(),
        PostFunction::AssignTo(AssignTarget::CurrentUser)
    );
    assert!(parse_post_function("AssignTo", r#"{"target":"stranger"}"#).is_err());
    assert!(parse_post_function("FireEvent", r#"{"event":""}"#).is_err());
    assert!(parse_post_function("AddComment", "{}").is_err());
    assert!(parse_post_function("Nope", "{}").is_err());
}

#[test]
fn gate_refusals_say_what_was_wrong() {
    let msg = |r: Result<(), AppError>| match r {
        Err(AppError::Validation(m)) => m,
        other => panic!("expected a validation error, got {other:?}"),
    };
    assert_eq!(
        msg(parse_validator("RequiredField", r#"{"field":"nonsense"}"#).map(|_| ())),
        "\"nonsense\" is not a settable field."
    );
    assert_eq!(
        msg(parse_validator("RequiredField", "not json").map(|_| ())),
        "Expected a JSON object with a \"field\"."
    );
    assert_eq!(
        msg(parse_validator("Nope", "{}").map(|_| ())),
        "\"Nope\" is not a validator kind. Known kinds: RequiredField."
    );
    assert_eq!(
        msg(parse_condition("Teleport", "{}").map(|_| ())),
        "\"Teleport\" is not a condition kind. Known kinds: OnlyAssignee, OnlyReporter, UserInRole, ChildBlocking."
    );
    assert_eq!(
        msg(parse_post_function("UpdateField", r#"{"field":"colour","value":"red"}"#).map(|_| ())),
        "\"colour\" is not settable."
    );
    assert_eq!(
        msg(parse_post_function("UpdateField", r#"{"field":"priority","value":3}"#).map(|_| ())),
        "UpdateField needs a \"field\" and a \"value\"."
    );
    assert_eq!(
        parse_post_function("UpdateField", r#"{"field":"description","value":null}"#).unwrap(),
        PostFunction::UpdateField { field: FieldName::Description, value: None }
    );
    assert_eq!(
        parse_post_function("AddComment", r#"{"body":"  shipped  "}"#).unwrap(),
        PostFunction::AddComment("shipped".to_owned())
    );
    assert_eq!(
        parse_post_function("FireEvent", r#"{"event":" deployed "}"#).unwrap(),
        PostFunction::FireEvent(" deployed ".to_owned())
    );
}

#[test]
fn a_template_sets_the_new_projects_cycles_and_estimation_unit() {
    let p = project_from_template(Template::Programming, "ATLAS", "Atlas", Some("the tracker"), None);
    assert_eq!(p.key, "ATLAS");
    assert_eq!(p.template, "programming");
    assert!(p.cycles_enabled);
    assert_eq!(p.estimation_unit, EstimationUnit::Points);
    assert_eq!(p.description.as_deref(), Some("the tracker"));
    let q = project_from_template(Template::JobSearch, "JOBS", "Jobs", None, Some("u1"));
    assert_eq!(q.template, "job-search");
    assert!(!q.cycles_enabled);
    assert_eq!(q.estimation_unit, EstimationUnit::NoEstimate);
    assert_eq!(q.lead_id.as_deref(), Some("u1"));
}
