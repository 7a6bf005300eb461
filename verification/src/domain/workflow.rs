//! Workflows: which moves between statuses a card may make, and the gates on
//! each move.
//!
//! A gate is stored as a `(kind, config)` row and parsed here. Conditions hide
//! a transition when they fail, validators reject an attempt, and
//! post-functions change the card. The rows are read from the database; every
//! decision made about them is a function below.

use vstd::prelude::*;

use crate::domain::card::Card;
use crate::domain::comment::{body_rule, validate_body};
use crate::domain::member::{project_role_name, project_role_named, ProjectRole};
use crate::error::{AppError, AppResult};
use crate::text::{
    copy_str, debug_quote, debug_quoted, opt_str_view, opt_string_view, str_eq, trim, trimmed_chars,
};

verus! {

/// A row of `workflows`.
#[derive(Debug, Clone, PartialEq, Eq)]
pub struct Workflow {
    /// UUID v7, as text.
    pub id: String,
    /// The owning project.
    pub project_id: String,
    /// The human name, unique within the project.
    pub name: String,
    /// Whether this is the project's permissive default: a default workflow
    /// allows a move between any two of its statuses.
    pub is_default: bool,
    /// When it was created, as RFC 3339 text.
    pub created_at: String,
    /// When it last changed, as RFC 3339 text.
    pub updated_at: String,
}

/// A row of `transitions`.
#[derive(Debug, Clone, PartialEq, Eq)]
pub struct Transition {
    /// UUID v7, as text.
    pub id: String,
    /// The owning workflow.
    pub workflow_id: String,
    /// The human name shown on the button.
    pub name: String,
    /// The source status; `None` is a global transition, offered from anywhere.
    pub from_status_id: Option<String>,
    /// Where the card lands.
    pub to_status_id: String,
    /// Evaluation and display order.
    pub position: i64,
}

/// A stored gate row: a condition, a validator or a post-function.
#[derive(Debug, Clone, PartialEq, Eq)]
pub struct GateRow {
    /// UUID v7, as text.
    pub id: String,
    /// The owning transition.
    pub transition_id: String,
    /// Which rule.
    pub kind: String,
    /// The rule's JSON configuration, as stored text.
    pub config: String,
    /// Post-function order; `0` for conditions and validators.
    pub position: i64,
}

/// A condition, parsed from its `(kind, config)`. Conditions hide a transition
/// when they fail.
#[derive(Debug, Clone, Copy, PartialEq, Eq, Structural)]
pub enum Condition {
    /// Only the card's current assignee may take the transition.
    OnlyAssignee,
    /// Only the card's reporter may take the transition.
    OnlyReporter,
    /// The actor must hold at least this project role.
    UserInRole(ProjectRole),
    /// The card may not enter a done status while any child is not done.
    ChildBlocking,
}

/// A card field a validator can require or a post-function can set.
#[derive(Debug, Clone, Copy, PartialEq, Eq, Structural)]
pub enum FieldName {
    /// The priority.
    Priority,
    /// The assignee.
    Assignee,
    /// The reporter.
    Reporter,
    /// The resolution.
    Resolution,
    /// The due date.
    DueDate,
    /// The start date.
    StartDate,
    /// The estimate.
    Estimate,
    /// The description.
    Description,
}

/// A validator, parsed from its `(kind, config)`. Validators reject an attempt
/// when they fail.
#[derive(Debug, Clone, Copy, PartialEq, Eq, Structural)]
pub enum Validator {
    /// A named field must be non-empty on the card the transition would produce.
    RequiredField(FieldName),
}

/// Who a card is assigned to by [`PostFunction::AssignTo`].
#[derive(Debug, Clone, Copy, PartialEq, Eq, Structural)]
pub enum AssignTarget {
    /// The actor taking the transition.
    CurrentUser,
    /// The card's reporter.
    Reporter,
    /// The project lead.
    Lead,
    /// Nobody.
    Unassign,
}

/// A post-function, parsed from its `(kind, config)`.
#[derive(Debug, Clone, PartialEq, Eq)]
pub enum PostFunction {
    /// Set (or clear) the resolution.
    SetResolution(Option<String>),
    /// Assign the card.
    AssignTo(AssignTarget),
    /// Add a fixed comment.
    AddComment(String),
    /// Record an event for automation to consume.
    FireEvent(String),
    /// Set (or clear) a single field.
    UpdateField {
        /// The field.
        field: FieldName,
        /// Its new value; `None` clears it.
        value: Option<String>,
    },
}

/// The wire spelling of each field.
pub open spec fn field_spelling(f: FieldName) -> Seq<char> {
    match f {
        FieldName::Priority => "priority"@,
        FieldName::Assignee => "assignee"@,
        FieldName::Reporter => "reporter"@,
        FieldName::Resolution => "resolution"@,
        FieldName::DueDate => "dueDate"@,
        FieldName::StartDate => "startDate"@,
        FieldName::Estimate => "estimate"@,
        FieldName::Description => "description"@,
    }
}

/// The field a wire spelling names, if any.
pub open spec fn field_named(s: Seq<char>) -> Option<FieldName> {
    if s == "priority"@ {
        Some(FieldName::Priority)
    } else if s == "assignee"@ {
        Some(FieldName::Assignee)
    } else if s == "reporter"@ {
        Some(FieldName::Reporter)
    } else if s == "resolution"@ {
        Some(FieldName::Resolution)
    } else if s == "dueDate"@ {
        Some(FieldName::DueDate)
    } else if s == "startDate"@ {
        Some(FieldName::StartDate)
    } else if s == "estimate"@ {
        Some(FieldName::Estimate)
    } else if s == "description"@ {
        Some(FieldName::Description)
    } else {
        None
    }
}

/// The human name of each field, for a rejection message.
pub open spec fn field_label(f: FieldName) -> Seq<char> {
    match f {
        FieldName::Priority => "priority"@,
        FieldName::Assignee => "assignee"@,
        FieldName::Reporter => "reporter"@,
        FieldName::Resolution => "resolution"@,
        FieldName::DueDate => "due date"@,
        FieldName::StartDate => "start date"@,
        FieldName::Estimate => "estimate"@,
        FieldName::Description => "description"@,
    }
}

impl FieldName {
    /// Reads a field from its wire spelling.
    pub fn from_str(s: &str) -> (f: Option<Self>)
        ensures
            f == field_named(s@),
    {
        if str_eq(s, "priority") {
            Some(FieldName::Priority)
        } else if str_eq(s, "assignee") {
            Some(FieldName::Assignee)
        } else if str_eq(s, "reporter") {
            Some(FieldName::Reporter)
        } else if str_eq(s, "resolution") {
            Some(FieldName::Resolution)
        } else if str_eq(s, "dueDate") {
            Some(FieldName::DueDate)
        } else if str_eq(s, "startDate") {
            Some(FieldName::StartDate)
        } else if str_eq(s, "estimate") {
            Some(FieldName::Estimate)
        } else if str_eq(s, "description") {
            Some(FieldName::Description)
        } else {
            None
        }
    }

    /// The field's wire spelling.
    pub fn as_str(self) -> (s: &'static str)
        ensures
            s@ == field_spelling(self),
    {
        match self {
            FieldName::Priority => "priority",
            FieldName::Assignee => "assignee",
            FieldName::Reporter => "reporter",
            FieldName::Resolution => "resolution",
            FieldName::DueDate => "dueDate",
            FieldName::StartDate => "startDate",
            FieldName::Estimate => "estimate",
            FieldName::Description => "description",
        }
    }

    /// The field's human name, for a validator's rejection message.
    pub fn label(self) -> (s: &'static str)
        ensures
            s@ == field_label(self),
    {
        match self {
            FieldName::Priority => "priority",
            FieldName::Assignee => "assignee",
            FieldName::Reporter => "reporter",
            FieldName::Resolution => "resolution",
            FieldName::DueDate => "due date",
            FieldName::StartDate => "start date",
            FieldName::Estimate => "estimate",
            FieldName::Description => "description",
        }
    }
}

/// Every field reads back from its own wire spelling.
pub proof fn lemma_field_round_trip(f: FieldName)
    ensures
        field_named(field_spelling(f)) == Some(f),
{
    reveal_strlit("priority");
    reveal_strlit("assignee");
    reveal_strlit("reporter");
    reveal_strlit("resolution");
    reveal_strlit("dueDate");
    reveal_strlit("startDate");
    reveal_strlit("estimate");
    reveal_strlit("description");
    assert("priority"@.len() == 8 && "assignee"@.len() == 8 && "reporter"@.len() == 8);
    assert("resolution"@.len() == 10 && "dueDate"@.len() == 7 && "startDate"@.len() == 9);
    assert("estimate"@.len() == 8 && "description"@.len() == 11);
    assert("priority"@[0] == 'p' && "assignee"@[0] == 'a' && "reporter"@[0] == 'r');
    assert("estimate"@[0] == 'e');
}

/// What one member of a JSON object configuration holds.
#[derive(Debug, Clone, PartialEq, Eq)]
pub enum JsonSlot {
    /// The configuration is not a JSON object (or not JSON at all).
    NoObject,
    /// The object has no such member.
    Missing,
    /// The member is `null`.
    Null,
    /// The member is a string.
    Text(String),
    /// The member is some other JSON value.
    Other,
}

/// The plain form of a [`JsonSlot`].
pub enum JsonMember {
    /// The configuration is not a JSON object (or not JSON at all).
    NoObject,
    /// The object has no such member.
    Missing,
    /// The member is `null`.
    Null,
    /// The member is a string, with these characters.
    Text(Seq<char>),
    /// The member is some other JSON value.
    Other,
}

impl View for JsonSlot {
    type V = JsonMember;

    open spec fn view(&self) -> JsonMember {
        match self {
            JsonSlot::NoObject => JsonMember::NoObject,
            JsonSlot::Missing => JsonMember::Missing,
            JsonSlot::Null => JsonMember::Null,
            JsonSlot::Text(s) => JsonMember::Text(s@),
            JsonSlot::Other => JsonMember::Other,
        }
    }
}

/// What `serde_json` reads for member `key` of the JSON text `config`.
pub uninterp spec fn json_member_of(config: Seq<char>, key: Seq<char>) -> JsonMember;

/// Reads member `key` of the JSON object in `config` with `serde_json`: the
/// text is parsed as a `serde_json::Value`, and the member is looked up with
/// `Map::get`. The contract names the result and claims only that it is a
/// function of the two texts; which JSON texts parse, and how escapes are read,
/// is serde_json's and is not restated here.
#[verifier::external_body]
fn json_member(config: &str, key: &str) -> (slot: JsonSlot)
    ensures
        slot@ == json_member_of(config@, key@),
{
    match serde_json::from_str::<serde_json::Value>(config) {
        Ok(serde_json::Value::Object(map)) => match map.get(key) {
            None => JsonSlot::Missing,
            Some(serde_json::Value::Null) => JsonSlot::Null,
            Some(serde_json::Value::String(s)) => JsonSlot::Text(s.clone()),
            Some(_) => JsonSlot::Other,
        },
        _ => JsonSlot::NoObject,
    }
}

/// The refusal of a required-field configuration without a string `field`.
pub open spec fn no_field_message() -> Seq<char> {
    "Expected a JSON object with a \"field\"."@
}

/// The field a validator configuration's `field` member names, or the refusal.
pub open spec fn field_config_rule(m: JsonMember) -> Result<FieldName, Seq<char>> {
    match m {
        JsonMember::Text(s) => match field_named(s) {
            Some(f) => Ok(f),
            None => Err(debug_quoted(s) + " is not a settable field."@),
        },
        _ => Err(no_field_message()),
    }
}

/// Whether `res` is the `Ok` value or the `Validation` message of `rule`.
pub open spec fn decided<T>(res: AppResult<T>, rule: Result<T, Seq<char>>) -> bool {
    match rule {
        Ok(v) => res matches Ok(w) && w == v,
        Err(m) => res matches Err(AppError::Validation(e)) && e@ == m,
    }
}

/// Decides a validator configuration from what its `field` member holds.
pub fn field_from(member: JsonSlot) -> (res: AppResult<FieldName>)
    ensures
        decided(res, field_config_rule(member@)),
{
    match member {
        JsonSlot::Text(s) => match FieldName::from_str(s.as_str()) {
            Some(f) => Ok(f),
            None => {
                let mut m = debug_quote(s.as_str());
                m.append(" is not a settable field.");
                Err(AppError::Validation(m))
            },
        },
        _ => Err(AppError::Validation("Expected a JSON object with a \"field\".".to_owned())),
    }
}

/// The validator a `(kind, field member)` pair describes, or the refusal.
pub open spec fn validator_rule(kind: Seq<char>, field: JsonMember) -> Result<Validator, Seq<char>> {
    if kind == "RequiredField"@ {
        match field_config_rule(field) {
            Ok(f) => Ok(Validator::RequiredField(f)),
            Err(m) => Err(m),
        }
    } else {
        Err(debug_quoted(kind) + " is not a validator kind. Known kinds: RequiredField."@)
    }
}

/// Decides a validator from its kind and what its configuration's `field`
/// member holds.
pub fn validator_from(kind: &str, field: JsonSlot) -> (res: AppResult<Validator>)
    ensures
        decided(res, validator_rule(kind@, field@)),
{
    if str_eq(kind, "RequiredField") {
        match field_from(field) {
            Ok(f) => Ok(Validator::RequiredField(f)),
            Err(e) => Err(e),
        }
    } else {
        let mut m = debug_quote(kind);
        m.append(" is not a validator kind. Known kinds: RequiredField.");
        Err(AppError::Validation(m))
    }
}

/// Parses a validator row, failing on an unknown kind or a configuration
/// without a known `field`.
pub fn parse_validator(kind: &str, config: &str) -> (res: AppResult<Validator>)
    ensures
        kind@ == "RequiredField"@ ==> decided(res, validator_rule(kind@, json_member_of(config@, "field"@))),
        kind@ != "RequiredField"@ ==> decided(res, validator_rule(kind@, JsonMember::Missing)),
{
    if str_eq(kind, "RequiredField") {
        let field = json_member(config, "field");
        validator_from(kind, field)
    } else {
        validator_from(kind, JsonSlot::Missing)
    }
}

/// The condition a `(kind, role member)` pair describes, or the refusal.
pub open spec fn condition_rule(kind: Seq<char>, role: JsonMember) -> Result<Condition, Seq<char>> {
    if kind == "OnlyAssignee"@ {
        Ok(Condition::OnlyAssignee)
    } else if kind == "OnlyReporter"@ {
        Ok(Condition::OnlyReporter)
    } else if kind == "ChildBlocking"@ {
        Ok(Condition::ChildBlocking)
    } else if kind == "UserInRole"@ {
        match role {
            JsonMember::Text(s) => match project_role_named(s) {
                Some(r) => Ok(Condition::UserInRole(r)),
                None => Err("UserInRole needs a \"role\" of owner, member or viewer."@),
            },
            _ => Err("UserInRole needs a \"role\" of owner, member or viewer."@),
        }
    } else {
        Err(debug_quoted(kind)
            + " is not a condition kind. Known kinds: OnlyAssignee, OnlyReporter, UserInRole, ChildBlocking."@)
    }
}

/// Decides a condition from its kind and what its configuration's `role`
/// member holds.
pub fn condition_from(kind: &str, role: JsonSlot) -> (res: AppResult<Condition>)
    ensures
        decided(res, condition_rule(kind@, role@)),
{
    if str_eq(kind, "OnlyAssignee") {
        Ok(Condition::OnlyAssignee)
    } else if str_eq(kind, "OnlyReporter") {
        Ok(Condition::OnlyReporter)
    } else if str_eq(kind, "ChildBlocking") {
        Ok(Condition::ChildBlocking)
    } else if str_eq(kind, "UserInRole") {
        let refusal = "UserInRole needs a \"role\" of owner, member or viewer.";
        match role {
            JsonSlot::Text(s) => match ProjectRole::parse(s.as_str()) {
                Ok(r) => Ok(Condition::UserInRole(r)),
                Err(_) => Err(AppError::Validation(refusal.to_owned())),
            },
            _ => Err(AppError::Validation(refusal.to_owned())),
        }
    } else {
        let mut m = debug_quote(kind);
        m.append(
            " is not a condition kind. Known kinds: OnlyAssignee, OnlyReporter, UserInRole, ChildBlocking.",
        );
        Err(AppError::Validation(m))
    }
}

/// Parses a condition row, failing on an unknown kind or a malformed
/// configuration. Only `UserInRole` reads its configuration.
pub fn parse_condition(kind: &str, config: &str) -> (res: AppResult<Condition>)
    ensures
        kind@ == "UserInRole"@ ==> decided(res, condition_rule(kind@, json_member_of(config@, "role"@))),
        kind@ != "UserInRole"@ ==> decided(res, condition_rule(kind@, JsonMember::Missing)),
{
    if str_eq(kind, "UserInRole") {
        let role = json_member(config, "role");
        condition_from(kind, role)
    } else {
        condition_from(kind, JsonSlot::Missing)
    }
}

/// The wire spelling of each assignment target.
pub open spec fn target_named(s: Seq<char>) -> Option<AssignTarget> {
    if s == "currentUser"@ {
        Some(AssignTarget::CurrentUser)
    } else if s == "reporter"@ {
        Some(AssignTarget::Reporter)
    } else if s == "lead"@ {
        Some(AssignTarget::Lead)
    } else if s == "unassign"@ {
        Some(AssignTarget::Unassign)
    } else {
        None
    }
}

/// The plain form of a [`PostFunction`].
pub enum PostFunctionView {
    /// Set (or clear) the resolution.
    SetResolution(Option<Seq<char>>),
    /// Assign the card.
    AssignTo(AssignTarget),
    /// Add a fixed comment.
    AddComment(Seq<char>),
    /// Record an event.
    FireEvent(Seq<char>),
    /// Set (or clear) a single field.
    UpdateField(FieldName, Option<Seq<char>>),
}

impl View for PostFunction {
    type V = PostFunctionView;

    open spec fn view(&self) -> PostFunctionView {
        match self {
            PostFunction::SetResolution(r) => PostFunctionView::SetResolution(crate::text::opt_string_view(*r)),
            PostFunction::AssignTo(t) => PostFunctionView::AssignTo(*t),
            PostFunction::AddComment(b) => PostFunctionView::AddComment(b@),
            PostFunction::FireEvent(e) => PostFunctionView::FireEvent(e@),
            PostFunction::UpdateField { field, value } => PostFunctionView::UpdateField(
                *field,
                crate::text::opt_string_view(*value),
            ),
        }
    }
}

/// The member of its configuration that each post-function kind reads first.
pub open spec fn post_function_key(kind: Seq<char>) -> Seq<char> {
    if kind == "SetResolution"@ {
        "resolutionId"@
    } else if kind == "AssignTo"@ {
        "target"@
    } else if kind == "AddComment"@ {
        "body"@
    } else if kind == "FireEvent"@ {
        "event"@
    } else {
        "field"@
    }
}

/// Whether a member may stand where an optional string is expected: absent,
/// `null`, or a string.
pub open spec fn optional_text(m: JsonMember) -> bool {
    m is Missing || m is Null || m is Text
}

/// The optional string such a member holds.
pub open spec fn optional_text_of(m: JsonMember) -> Option<Seq<char>> {
    match m {
        JsonMember::Text(s) => Some(s),
        _ => None,
    }
}

/// The post-function a kind describes, given what its configuration's first
/// member ([`post_function_key`]) and, for `UpdateField`, its `value` member
/// hold; or the refusal.
pub open spec fn post_function_rule(kind: Seq<char>, first: JsonMember, value: JsonMember) -> Result<
    PostFunctionView,
    Seq<char>,
> {
    if kind == "SetResolution"@ {
        if optional_text(first) {
            Ok(PostFunctionView::SetResolution(optional_text_of(first)))
        } else {
            Err("SetResolution needs a \"resolutionId\", or none to clear it."@)
        }
    } else if kind == "AssignTo"@ {
        match first {
            JsonMember::Text(s) => match target_named(s) {
                Some(t) => Ok(PostFunctionView::AssignTo(t)),
                None => Err(debug_quoted(s) + " is not an AssignTo target."@),
            },
            _ => Err("AssignTo needs a \"target\" of currentUser, reporter, lead or unassign."@),
        }
    } else if kind == "AddComment"@ {
        match first {
            JsonMember::Text(s) => match body_rule(s) {
                Ok(b) => Ok(PostFunctionView::AddComment(b)),
                Err(m) => Err(m),
            },
            _ => Err("AddComment needs a \"body\"."@),
        }
    } else if kind == "FireEvent"@ {
        match first {
            JsonMember::Text(s) => if trim(s).len() == 0 {
                Err("FireEvent \"event\" is empty."@)
            } else {
                Ok(PostFunctionView::FireEvent(s))
            },
            _ => Err("FireEvent needs an \"event\"."@),
        }
    } else if kind == "UpdateField"@ {
        match first {
            JsonMember::Text(s) => if !optional_text(value) {
                Err("UpdateField needs a \"field\" and a \"value\"."@)
            } else {
                match field_named(s) {
                    Some(f) => Ok(PostFunctionView::UpdateField(f, optional_text_of(value))),
                    None => Err(debug_quoted(s) + " is not settable."@),
                }
            },
            _ => Err("UpdateField needs a \"field\" and a \"value\"."@),
        }
    } else {
        Err(debug_quoted(kind)
            + " is not a post-function kind. Known kinds: SetResolution, AssignTo, AddComment, FireEvent, UpdateField."@)
    }
}

/// Whether `res` is the post-function or the `Validation` message of `rule`.
pub open spec fn post_decided(res: AppResult<PostFunction>, rule: Result<PostFunctionView, Seq<char>>) -> bool {
    match rule {
        Ok(v) => res matches Ok(w) && w@ == v,
        Err(m) => res matches Err(AppError::Validation(e)) && e@ == m,
    }
}

/// The optional string a member holds, when it may stand for one.
fn optional_text_from(m: &JsonSlot) -> (r: Option<Option<String>>)
    ensures
        optional_text(m@) ==> (r matches Some(v) && crate::text::opt_string_view(v) == optional_text_of(m@)),
        !optional_text(m@) ==> r is None,
{
    match m {
        JsonSlot::Missing => Some(None),
        JsonSlot::Null => Some(None),
        JsonSlot::Text(s) => Some(Some(s.clone())),
        _ => None,
    }
}

/// Decides a post-function from its kind and what its configuration's members
/// hold: `first` is the member [`post_function_key`] names, `value` the
/// `value` member (read by `UpdateField` only).
pub fn post_function_from(kind: &str, first: JsonSlot, value: JsonSlot) -> (res: AppResult<PostFunction>)
    ensures
        post_decided(res, post_function_rule(kind@, first@, value@)),
{
    if str_eq(kind, "SetResolution") {
        match optional_text_from(&first) {
            Some(r) => Ok(PostFunction::SetResolution(r)),
            None => Err(AppError::Validation(
                "SetResolution needs a \"resolutionId\", or none to clear it.".to_owned(),
            )),
        }
    } else if str_eq(kind, "AssignTo") {
        match first {
            JsonSlot::Text(s) => {
                if str_eq(s.as_str(), "currentUser") {
                    Ok(PostFunction::AssignTo(AssignTarget::CurrentUser))
                } else if str_eq(s.as_str(), "reporter") {
                    Ok(PostFunction::AssignTo(AssignTarget::Reporter))
                } else if str_eq(s.as_str(), "lead") {
                    Ok(PostFunction::AssignTo(AssignTarget::Lead))
                } else if str_eq(s.as_str(), "unassign") {
                    Ok(PostFunction::AssignTo(AssignTarget::Unassign))
                } else {
                    let mut m = debug_quote(s.as_str());
                    m.append(" is not an AssignTo target.");
                    Err(AppError::Validation(m))
                }
            },
            _ => Err(AppError::Validation(
                "AssignTo needs a \"target\" of currentUser, reporter, lead or unassign.".to_owned(),
            )),
        }
    } else if str_eq(kind, "AddComment") {
        match first {
            JsonSlot::Text(s) => match validate_body(s.as_str()) {
                Ok(b) => Ok(PostFunction::AddComment(b)),
                Err(e) => Err(e),
            },
            _ => Err(AppError::Validation("AddComment needs a \"body\".".to_owned())),
        }
    } else if str_eq(kind, "FireEvent") {
        match first {
            JsonSlot::Text(s) => {
                let t = trimmed_chars(s.as_str());
                if t.len() == 0 {
                    Err(AppError::Validation("FireEvent \"event\" is empty.".to_owned()))
                } else {
                    Ok(PostFunction::FireEvent(s))
                }
            },
            _ => Err(AppError::Validation("FireEvent needs an \"event\".".to_owned())),
        }
    } else if str_eq(kind, "UpdateField") {
        let refusal = "UpdateField needs a \"field\" and a \"value\".";
        match first {
            JsonSlot::Text(s) => match optional_text_from(&value) {
                None => Err(AppError::Validation(refusal.to_owned())),
                Some(v) => match FieldName::from_str(s.as_str()) {
                    Some(f) => Ok(PostFunction::UpdateField { field: f, value: v }),
                    None => {
                        let mut m = debug_quote(s.as_str());
                        m.append(" is not settable.");
                        Err(AppError::Validation(m))
                    },
                },
            },
            _ => Err(AppError::Validation(refusal.to_owned())),
        }
    } else {
        let mut m = debug_quote(kind);
        m.append(
            " is not a post-function kind. Known kinds: SetResolution, AssignTo, AddComment, FireEvent, UpdateField.",
        );
        Err(AppError::Validation(m))
    }
}

/// Parses a post-function row, failing on an unknown kind or a malformed
/// configuration.
pub fn parse_post_function(kind: &str, config: &str) -> (res: AppResult<PostFunction>)
    ensures
        kind@ == "UpdateField"@ ==> post_decided(
            res,
            post_function_rule(kind@, json_member_of(config@, "field"@), json_member_of(config@, "value"@)),
        ),
        (kind@ == "SetResolution"@ || kind@ == "AssignTo"@ || kind@ == "AddComment"@ || kind@ == "FireEvent"@)
            ==> post_decided(
            res,
            post_function_rule(kind@, json_member_of(config@, post_function_key(kind@)), JsonMember::Missing),
        ),
        !(kind@ == "SetResolution"@ || kind@ == "AssignTo"@ || kind@ == "AddComment"@ || kind@ == "FireEvent"@
            || kind@ == "UpdateField"@) ==> post_decided(
            res,
            post_function_rule(kind@, JsonMember::Missing, JsonMember::Missing),
        ),
{
    proof {
        reveal_strlit("SetResolution");
        reveal_strlit("AssignTo");
        reveal_strlit("AddComment");
        reveal_strlit("FireEvent");
        reveal_strlit("UpdateField");
        assert("SetResolution"@.len() == 13 && "AssignTo"@.len() == 8 && "AddComment"@.len() == 10);
        assert("FireEvent"@.len() == 9 && "UpdateField"@.len() == 11);
    }
    if str_eq(kind, "SetResolution") {
        post_function_from(kind, json_member(config, "resolutionId"), JsonSlot::Missing)
    } else if str_eq(kind, "AssignTo") {
        post_function_from(kind, json_member(config, "target"), JsonSlot::Missing)
    } else if str_eq(kind, "AddComment") {
        post_function_from(kind, json_member(config, "body"), JsonSlot::Missing)
    } else if str_eq(kind, "FireEvent") {
        post_function_from(kind, json_member(config, "event"), JsonSlot::Missing)
    } else if str_eq(kind, "UpdateField") {
        let field = json_member(config, "field");
        let value = json_member(config, "value");
        post_function_from(kind, field, value)
    } else {
        post_function_from(kind, JsonSlot::Missing, JsonSlot::Missing)
    }
}

/// One of the three gate tables; each maps to fixed query text, so a table
/// name is never built from a string.
#[derive(Debug, Clone, Copy, PartialEq, Eq, Structural)]
pub enum GateTable {
    /// `transition_conditions`.
    Conditions,
    /// `transition_validators`.
    Validators,
    /// `transition_post_functions`.
    PostFunctions,
}

impl GateTable {
    /// The insert for a condition or validator, which have no position column;
    /// empty for post-functions, which are ordered and inserted otherwise.
    pub fn insert_unordered_sql(self) -> (sql: &'static str)
        ensures
            match self {
                GateTable::Conditions => sql@
                    == "INSERT INTO transition_conditions (id, transition_id, kind, config) VALUES (?, ?, ?, ?)"@,
                GateTable::Validators => sql@
                    == "INSERT INTO transition_validators (id, transition_id, kind, config) VALUES (?, ?, ?, ?)"@,
                GateTable::PostFunctions => sql@ == ""@,
            },
    {
        match self {
            GateTable::Conditions => "INSERT INTO transition_conditions (id, transition_id, kind, config) VALUES (?, ?, ?, ?)",
            GateTable::Validators => "INSERT INTO transition_validators (id, transition_id, kind, config) VALUES (?, ?, ?, ?)",
            GateTable::PostFunctions => "",
        }
    }

    /// The select of a transition's rows: conditions and validators by id,
    /// post-functions by position then id.
    pub fn select_sql(self) -> (sql: &'static str)
        ensures
            match self {
                GateTable::Conditions => sql@
                    == "SELECT id, transition_id, kind, config, 0 AS position FROM transition_conditions WHERE transition_id = ? ORDER BY id"@,
                GateTable::Validators => sql@
                    == "SELECT id, transition_id, kind, config, 0 AS position FROM transition_validators WHERE transition_id = ? ORDER BY id"@,
                GateTable::PostFunctions => sql@
                    == "SELECT id, transition_id, kind, config, position FROM transition_post_functions WHERE transition_id = ? ORDER BY position, id"@,
            },
    {
        match self {
            GateTable::Conditions => "SELECT id, transition_id, kind, config, 0 AS position FROM transition_conditions WHERE transition_id = ? ORDER BY id",
            GateTable::Validators => "SELECT id, transition_id, kind, config, 0 AS position FROM transition_validators WHERE transition_id = ? ORDER BY id",
            GateTable::PostFunctions => "SELECT id, transition_id, kind, config, position FROM transition_post_functions WHERE transition_id = ? ORDER BY position, id",
        }
    }
}

/// The result of asking whether a card may move to a status.
#[derive(Debug, Clone)]
pub enum Outcome {
    /// Allowed with no specific transition: a default (or absent) workflow.
    Permissive,
    /// Allowed via this custom transition, whose validators must still pass and
    /// whose post-functions must run.
    Via(Box<Transition>),
}

/// A transition a card may currently take.
#[derive(Debug, Clone, PartialEq, Eq)]
pub struct AvailableTransition {
    /// The transition id, or `None` for a permissive workflow's implicit move.
    pub id: Option<String>,
    /// The button label.
    pub name: String,
    /// Where the card would land.
    pub to_status_id: String,
}

/// Whether a card type's workflow is permissive: there is none, or it is the
/// project's default.
pub fn is_permissive(workflow: Option<&Workflow>) -> (b: bool)
    ensures
        b == (match workflow {
            None => true,
            Some(w) => w.is_default,
        }),
{
    match workflow {
        None => true,
        Some(w) => w.is_default,
    }
}

/// The plain form of `(id, name)` status pairs.
pub open spec fn pairs_view(v: Seq<(String, String)>) -> Seq<(Seq<char>, Seq<char>)> {
    v.map_values(|p: (String, String)| (p.0@, p.1@))
}

/// The moves a permissive workflow offers, as `(to_status_id, name)`: a
/// "Move to X" for every status of the project but the card's own, in order.
pub open spec fn synthetic_rule(statuses: Seq<(Seq<char>, Seq<char>)>, current: Seq<char>) -> Seq<
    (Seq<char>, Seq<char>),
>
    decreases statuses.len(),
{
    if statuses.len() == 0 {
        Seq::empty()
    } else {
        let rest = synthetic_rule(statuses.drop_last(), current);
        let (id, name) = statuses.last();
        if id == current {
            rest
        } else {
            rest.push((id, "Move to "@ + name))
        }
    }
}

/// The moves a permissive workflow offers: [`synthetic_rule`], each with no
/// transition id, since the client takes them through the board's move
/// endpoint.
pub fn synthetic_moves(statuses: &Vec<(String, String)>, current_status_id: &str) -> (moves: Vec<
    AvailableTransition,
>)
    ensures
        moves@.len() == synthetic_rule(pairs_view(statuses@), current_status_id@).len(),
        forall|k: int|
            0 <= k < moves@.len() ==> (#[trigger] moves@[k]).id is None && (moves@[k].to_status_id@, moves@[k].name@)
                == synthetic_rule(pairs_view(statuses@), current_status_id@)[k],
{
    let ghost all = pairs_view(statuses@);
    let mut moves: Vec<AvailableTransition> = Vec::new();
    let mut i: usize = 0;
    while i < statuses.len()
        invariant
            i <= statuses.len(),
            all == pairs_view(statuses@),
            all.len() == statuses@.len(),
            moves@.len() == synthetic_rule(all.take(i as int), current_status_id@).len(),
            forall|k: int|
                0 <= k < moves@.len() ==> (#[trigger] moves@[k]).id is None && (moves@[k].to_status_id@, moves@[k].name@)
                    == synthetic_rule(all.take(i as int), current_status_id@)[k],
        decreases statuses.len() - i,
    {
        let (id, name) = &statuses[i];
        proof {
            assert(all.take(i + 1).drop_last() == all.take(i as int));
            assert(all.take(i + 1).last() == (id@, name@));
        }
        if !str_eq(id.as_str(), current_status_id) {
            let mut label = "Move to ".to_owned();
            label.append(name.as_str());
            moves.push(AvailableTransition { id: None, name: label, to_status_id: id.clone() });
        }
        i = i + 1;
    }
    proof {
        assert(all.take(statuses.len() as int) == all);
    }
    moves
}

/// Whether a person may act as at least `required` on a project, given the
/// lookups: their instance role (`None` when there is no such user), whether
/// they lead the project (`None` when there is no such project), and their
/// explicit grant.
pub open spec fn holds_role_rule(
    instance: Option<crate::domain::member::Role>,
    is_lead: Option<bool>,
    granted: Option<ProjectRole>,
    required: ProjectRole,
) -> bool {
    match (instance, is_lead) {
        (Some(i), Some(l)) => match crate::domain::member::resolved(i, l, granted) {
            Some(r) => crate::domain::member::privilege(r) >= crate::domain::member::privilege(required),
            None => false,
        },
        _ => false,
    }
}

/// Decides [`holds_role_rule`].
pub fn holds_role(
    instance: Option<crate::domain::member::Role>,
    is_lead: Option<bool>,
    granted: Option<ProjectRole>,
    required: ProjectRole,
) -> (b: bool)
    ensures
        b == holds_role_rule(instance, is_lead, granted, required),
{
    match (instance, is_lead) {
        (Some(i), Some(l)) => match crate::domain::member::resolve(i, l, granted) {
            Some(r) => r.at_least(required),
            None => false,
        },
        _ => false,
    }
}

/// Why a condition hides a transition, or `None` when it lets it through.
/// With no actor (a system move) the user-scoped conditions do not bite;
/// `ChildBlocking` applies whoever moves the card.
pub open spec fn condition_rule_verdict(
    condition: Condition,
    actor: Option<Seq<char>>,
    assignee: Option<Seq<char>>,
    reporter: Option<Seq<char>>,
    actor_holds_role: bool,
    target_is_done: bool,
    open_children: int,
) -> Option<Seq<char>> {
    match condition {
        Condition::OnlyAssignee => match actor {
            None => None,
            Some(a) => if assignee == Some(a) {
                None
            } else {
                Some("Only the assignee may make this transition."@)
            },
        },
        Condition::OnlyReporter => match actor {
            None => None,
            Some(a) => if reporter == Some(a) {
                None
            } else {
                Some("Only the reporter may make this transition."@)
            },
        },
        Condition::UserInRole(required) => match actor {
            None => None,
            Some(_) => if actor_holds_role {
                None
            } else {
                Some("Only a project "@ + project_role_name(required) + " may make this transition."@)
            },
        },
        Condition::ChildBlocking => if target_is_done && open_children > 0 {
            Some("This card has children that are not done. Finish or move them out before closing it."@)
        } else {
            None
        },
    }
}

/// `ChildBlocking` hides a move exactly when it goes into a done status while
/// the card has at least one child that is not done, whoever makes the move.
pub proof fn lemma_child_blocking_hides_closing(
    actor: Option<Seq<char>>,
    assignee: Option<Seq<char>>,
    reporter: Option<Seq<char>>,
    actor_holds_role: bool,
    target_is_done: bool,
    open_children: int,
)
    ensures
        condition_rule_verdict(
            Condition::ChildBlocking,
            actor,
            assignee,
            reporter,
            actor_holds_role,
            target_is_done,
            open_children,
        ) is Some <==> (target_is_done && open_children >= 1),
{
}

/// The user-scoped conditions: a system move (no actor) passes each of
/// them; otherwise `OnlyAssignee` lets exactly the card's assignee through,
/// `OnlyReporter` exactly its reporter, and `UserInRole` exactly an actor who
/// holds the role. None of them looks at the children or the target.
pub proof fn lemma_user_conditions(
    actor: Option<Seq<char>>,
    assignee: Option<Seq<char>>,
    reporter: Option<Seq<char>>,
    actor_holds_role: bool,
    target_is_done: bool,
    open_children: int,
    role: ProjectRole,
)
    ensures
        actor is None ==> condition_rule_verdict(Condition::OnlyAssignee, actor, assignee, reporter, actor_holds_role, target_is_done, open_children) is None,
        actor is None ==> condition_rule_verdict(Condition::OnlyReporter, actor, assignee, reporter, actor_holds_role, target_is_done, open_children) is None,
        actor is None ==> condition_rule_verdict(Condition::UserInRole(role), actor, assignee, reporter, actor_holds_role, target_is_done, open_children) is None,
        actor matches Some(a) ==> (condition_rule_verdict(Condition::OnlyAssignee, actor, assignee, reporter, actor_holds_role, target_is_done, open_children) is None <==> assignee == Some(a)),
        actor matches Some(a) ==> (condition_rule_verdict(Condition::OnlyReporter, actor, assignee, reporter, actor_holds_role, target_is_done, open_children) is None <==> reporter == Some(a)),
        actor is Some ==> (condition_rule_verdict(Condition::UserInRole(role), actor, assignee, reporter, actor_holds_role, target_is_done, open_children) is None <==> actor_holds_role),
{
}

/// Evaluates one condition against what was read for it: the card's assignee
/// and reporter, whether the actor holds the required role, whether the target
/// status is done, and how many of the card's children are not done.
pub fn evaluate_condition(
    condition: Condition,
    actor_id: Option<&str>,
    assignee_id: Option<&str>,
    reporter_id: Option<&str>,
    actor_holds_role: bool,
    target_is_done: bool,
    open_children: i64,
) -> (reason: Option<String>)
    ensures
        crate::text::opt_string_view(reason) == condition_rule_verdict(
            condition,
            opt_str_view(actor_id),
            opt_str_view(assignee_id),
            opt_str_view(reporter_id),
            actor_holds_role,
            target_is_done,
            open_children as int,
        ),
{
    match condition {
        Condition::OnlyAssignee => match actor_id {
            None => None,
            Some(a) => {
                let same = match assignee_id {
                    Some(x) => str_eq(x, a),
                    None => false,
                };
                if same {
                    None
                } else {
                    Some("Only the assignee may make this transition.".to_owned())
                }
            },
        },
        Condition::OnlyReporter => match actor_id {
            None => None,
            Some(a) => {
                let same = match reporter_id {
                    Some(x) => str_eq(x, a),
                    None => false,
                };
                if same {
                    None
                } else {
                    Some("Only the reporter may make this transition.".to_owned())
                }
            },
        },
        Condition::UserInRole(required) => match actor_id {
            None => None,
            Some(_) => {
                if actor_holds_role {
                    None
                } else {
                    let mut m = "Only a project ".to_owned();
                    m.append(required.as_str());
                    m.append(" may make this transition.");
                    Some(m)
                }
            },
        },
        Condition::ChildBlocking => {
            if target_is_done && open_children > 0 {
                Some(
                    "This card has children that are not done. Finish or move them out before closing it.".to_owned(),
                )
            } else {
                None
            }
        },
    }
}

/// The first failure among a transition's condition verdicts, in row order.
pub open spec fn first_reason(verdicts: Seq<Option<Seq<char>>>) -> Option<Seq<char>>
    decreases verdicts.len(),
{
    if verdicts.len() == 0 {
        None
    } else {
        match verdicts[0] {
            Some(r) => Some(r),
            None => first_reason(verdicts.drop_first()),
        }
    }
}

/// The plain form of a list of verdicts.
pub open spec fn verdicts_view(v: Seq<Option<String>>) -> Seq<Option<Seq<char>>> {
    v.map_values(|o: Option<String>| crate::text::opt_string_view(o))
}

proof fn lemma_first_reason_step(v: Seq<Option<Seq<char>>>, i: int)
    requires
        0 <= i < v.len(),
        forall|k: int| 0 <= k < i ==> v[k] is None,
    ensures
        first_reason(v) == first_reason(v.subrange(i, v.len() as int)),
    decreases i,
{
    if i > 0 {
        assert(v.drop_first() == v.subrange(1, v.len() as int));
        lemma_first_reason_step(v.drop_first(), i - 1);
        assert(v.drop_first().subrange(i - 1, v.drop_first().len() as int) == v.subrange(i, v.len() as int));
    } else {
        assert(v.subrange(0, v.len() as int) == v);
    }
}

proof fn lemma_first_reason_none(v: Seq<Option<Seq<char>>>)
    requires
        forall|k: int| 0 <= k < v.len() ==> v[k] is None,
    ensures
        first_reason(v) is None,
    decreases v.len(),
{
    if v.len() > 0 {
        lemma_first_reason_none(v.drop_first());
    }
}

/// A transition's conditions together: `None` when every one passes (the
/// transition is offered), or the first failure's reason (it is hidden).
pub fn conditions_verdict(verdicts: &Vec<Option<String>>) -> (reason: Option<String>)
    ensures
        crate::text::opt_string_view(reason) == first_reason(verdicts_view(verdicts@)),
{
    let ghost v = verdicts_view(verdicts@);
    let mut i: usize = 0;
    while i < verdicts.len()
        invariant
            i <= verdicts.len(),
            v == verdicts_view(verdicts@),
            v.len() == verdicts@.len(),
            forall|k: int| 0 <= k < i ==> v[k] is None,
        decreases verdicts.len() - i,
    {
        match &verdicts[i] {
            Some(r) => {
                proof {
                    lemma_first_reason_step(v, i as int);
                }
                return Some(r.clone());
            },
            None => {},
        }
        i = i + 1;
    }
    proof {
        lemma_first_reason_none(v);
    }
    None
}

/// Which of the candidate transitions to a target a move takes, given each
/// one's condition verdict (in position order): the first one not hidden. No
/// candidate at all is a `Conflict` naming the workflow; every candidate
/// hidden is a `Conflict` with the first reason.
pub fn choose_transition(workflow_name: &str, verdicts: &Vec<Option<String>>) -> (res: AppResult<usize>)
    ensures
        verdicts@.len() == 0 ==> (res matches Err(AppError::Conflict(m)) && m@ == "There is no transition to that status in the "@
            + debug_quoted(workflow_name@) + " workflow."@),
        res matches Ok(i) ==> (i < verdicts@.len() && verdicts@[i as int] is None && forall|k: int|
            0 <= k < i ==> verdicts@[k] is Some),
        (exists|i: int| 0 <= i < verdicts@.len() && verdicts@[i] is None) ==> res is Ok,
        (verdicts@.len() > 0 && forall|i: int| 0 <= i < verdicts@.len() ==> verdicts@[i] is Some) ==> (res matches Err(
            AppError::Conflict(m),
        ) && Some(m@) == first_reason(verdicts_view(verdicts@))),
{
    if verdicts.len() == 0 {
        let mut m = "There is no transition to that status in the ".to_owned();
        let q = debug_quote(workflow_name);
        m.append(q.as_str());
        m.append(" workflow.");
        return Err(AppError::Conflict(m));
    }
    let mut i: usize = 0;
    while i < verdicts.len()
        invariant
            i <= verdicts.len(),
            forall|k: int| 0 <= k < i ==> verdicts@[k] is Some,
        decreases verdicts.len() - i,
    {
        if verdicts[i].is_none() {
            return Ok(i);
        }
        i = i + 1;
    }
    let first = conditions_verdict(verdicts);
    proof {
        let v = verdicts_view(verdicts@);
        lemma_first_reason_step(v, 0);
        assert(v[0] is Some);
    }
    match first {
        Some(r) => Err(AppError::Conflict(r)),
        None => Err(AppError::Conflict("That transition is not available on this card right now.".to_owned())),
    }
}

/// Whether a transition is offered from a status: it is global, or it starts
/// there.
pub fn offered_from(transition: &Transition, status_id: &str) -> (b: bool)
    ensures
        b == (match transition.from_status_id {
            None => true,
            Some(from) => from@ == status_id@,
        }),
{
    match &transition.from_status_id {
        None => true,
        Some(from) => str_eq(from.as_str(), status_id),
    }
}

/// The checks before a named transition is taken: the card's type must have a
/// custom workflow, the transition must belong to it, it must be offered from
/// the card's status, and no condition may hide it (`reason`, the verdict of
/// its conditions).
pub fn check_transition(
    workflow: Option<&Workflow>,
    transition: &Transition,
    card_status_id: &str,
    reason: Option<String>,
) -> (res: AppResult<()>)
    ensures
        workflow is None ==> (res matches Err(AppError::Conflict(m)) && m@
            == "This card's type has no custom workflow, so it has no named transitions. Move it with the board instead."@),
        workflow matches Some(w) ==> ({
            if transition.workflow_id@ != w.id@ {
                res matches Err(AppError::NotFound)
            } else if !(match transition.from_status_id {
                None => true,
                Some(from) => from@ == card_status_id@,
            }) {
                res matches Err(AppError::Conflict(m)) && m@ == "The transition "@ + debug_quoted(transition.name@)
                    + " is not available from the card's current status."@
            } else {
                match reason {
                    Some(r) => res matches Err(AppError::Conflict(m)) && m@ == r@,
                    None => res is Ok,
                }
            }
        }),
{
    let w = match workflow {
        Some(w) => w,
        None => {
            return Err(AppError::Conflict(
                "This card's type has no custom workflow, so it has no named transitions. Move it with the board instead.".to_owned(),
            ));
        },
    };
    if !str_eq(transition.workflow_id.as_str(), w.id.as_str()) {
        return Err(AppError::NotFound);
    }
    if !offered_from(transition, card_status_id) {
        let mut m = "The transition ".to_owned();
        let q = debug_quote(transition.name.as_str());
        m.append(q.as_str());
        m.append(" is not available from the card's current status.");
        return Err(AppError::Conflict(m));
    }
    match reason {
        Some(r) => Err(AppError::Conflict(r)),
        None => Ok(()),
    }
}

/// A required-field validator's verdict on the card a move would produce.
pub fn check_required_field(field: FieldName, empty: bool) -> (res: AppResult<()>)
    ensures
        empty ==> (res matches Err(AppError::Validation(m)) && m@ == "The "@ + field_label(field)
            + " is required to make this transition."@),
        !empty ==> res is Ok,
{
    if empty {
        let mut m = "The ".to_owned();
        m.append(field.label());
        m.append(" is required to make this transition.");
        return Err(AppError::Validation(m));
    }
    Ok(())
}

/// Which fields an `UpdateField` post-function may set: priority, assignee,
/// reporter and description. The others have post-functions of their own.
pub fn check_update_field(field: FieldName) -> (res: AppResult<()>)
    ensures
        (field == FieldName::Priority || field == FieldName::Assignee || field == FieldName::Reporter
            || field == FieldName::Description) ==> res is Ok,
        !(field == FieldName::Priority || field == FieldName::Assignee || field == FieldName::Reporter
            || field == FieldName::Description) ==> (res matches Err(AppError::Validation(m)) && m@
            == "UpdateField cannot set the "@ + field_label(field) + " here; use a dedicated post-function."@),
{
    match field {
        FieldName::Priority | FieldName::Assignee | FieldName::Reporter | FieldName::Description => Ok(()),
        _ => {
            let mut m = "UpdateField cannot set the ".to_owned();
            m.append(field.label());
            m.append(" here; use a dedicated post-function.");
            Err(AppError::Validation(m))
        },
    }
}

/// The refusal of an `UpdateField` that sets `field` to a user who does not
/// exist.
pub open spec fn unknown_user_message(field: Seq<char>, user_id: Seq<char>) -> Seq<char> {
    "An UpdateField post-function sets the "@ + field + " to "@ + debug_quoted(user_id)
        + ", who is not a user of this instance."@
}

/// The refusal of an `UpdateField` that names a user who does not exist.
pub fn unknown_user(field: &str, user_id: &str) -> (e: AppError)
    ensures
        e matches AppError::Validation(m) && m@ == unknown_user_message(field@, user_id@),
{
    let mut m = "An UpdateField post-function sets the ".to_owned();
    m.append(field);
    m.append(" to ");
    let q = debug_quote(user_id);
    m.append(q.as_str());
    m.append(", who is not a user of this instance.");
    AppError::Validation(m)
}

/// Who an `AssignTo` post-function assigns the card to: the actor, the
/// reporter, the project's lead (as looked up), or nobody.
pub fn assignee_for(
    target: AssignTarget,
    actor_id: Option<&str>,
    reporter_id: Option<&str>,
    lead_id: Option<&str>,
) -> (assignee: Option<String>)
    ensures
        crate::text::opt_string_view(assignee) == match target {
            AssignTarget::CurrentUser => opt_str_view(actor_id),
            AssignTarget::Reporter => opt_str_view(reporter_id),
            AssignTarget::Lead => opt_str_view(lead_id),
            AssignTarget::Unassign => None,
        },
{
    let chosen = match target {
        AssignTarget::CurrentUser => actor_id,
        AssignTarget::Reporter => reporter_id,
        AssignTarget::Lead => lead_id,
        AssignTarget::Unassign => None,
    };
    match chosen {
        Some(s) => Some(copy_str(s)),
        None => None,
    }
}

/// Whether `field` is empty on `card`: unset, or for the description,
/// nothing but whitespace.
pub open spec fn empty_on(field: FieldName, card: Card) -> bool {
    match field {
        FieldName::Priority => card.priority_id is None,
        FieldName::Assignee => card.assignee_id is None,
        FieldName::Reporter => card.reporter_id is None,
        FieldName::Resolution => card.resolution_id is None,
        FieldName::DueDate => card.due_date is None,
        FieldName::StartDate => card.start_date is None,
        FieldName::Estimate => card.estimate is None,
        FieldName::Description => match card.description {
            Some(d) => trim(d@).len() == 0,
            None => true,
        },
    }
}

/// A required field is missing exactly when the card's own column for that
/// field is unset (the description also when it is only whitespace): each
/// field is judged by its own column and no other.
pub proof fn lemma_each_field_judged_by_its_column(card: Card)
    ensures
        empty_on(FieldName::Priority, card) <==> card.priority_id is None,
        empty_on(FieldName::Assignee, card) <==> card.assignee_id is None,
        empty_on(FieldName::Reporter, card) <==> card.reporter_id is None,
        empty_on(FieldName::Resolution, card) <==> card.resolution_id is None,
        empty_on(FieldName::DueDate, card) <==> card.due_date is None,
        empty_on(FieldName::StartDate, card) <==> card.start_date is None,
        empty_on(FieldName::Estimate, card) <==> card.estimate is None,
        card.description is None ==> empty_on(FieldName::Description, card),
        card.description matches Some(d) ==> (empty_on(FieldName::Description, card) <==> trim(d@).len() == 0),
{
}

impl FieldName {
    /// Whether the field is empty on this card.
    pub fn is_empty_on(self, card: &Card) -> (b: bool)
        ensures
            b == empty_on(self, *card),
    {
        match self {
            FieldName::Priority => card.priority_id.is_none(),
            FieldName::Assignee => card.assignee_id.is_none(),
            FieldName::Reporter => card.reporter_id.is_none(),
            FieldName::Resolution => card.resolution_id.is_none(),
            FieldName::DueDate => card.due_date.is_none(),
            FieldName::StartDate => card.start_date.is_none(),
            FieldName::Estimate => card.estimate.is_none(),
            FieldName::Description => match &card.description {
                Some(d) => trimmed_chars(d.as_str()).len() == 0,
                None => true,
            },
        }
    }
}

/// The field a validator requires.
pub open spec fn required_field(v: Validator) -> FieldName {
    match v {
        Validator::RequiredField(f) => f,
    }
}

/// The refusal of a move that leaves a required field empty.
pub open spec fn required_message(f: FieldName) -> Seq<char> {
    "The "@ + field_label(f) + " is required to make this transition."@
}

/// Runs a transition's validators, in order, against the card the move
/// would produce. The first that fails rejects the move with a `Validation`
/// error naming its field; the move is then not made and no post-function
/// runs.
pub fn run_validators(validators: &Vec<Validator>, resulting: &Card) -> (res: AppResult<()>)
    ensures
        res is Ok <==> forall|i: int| 0 <= i < validators@.len() ==> !empty_on(required_field(#[trigger] validators@[i]), *resulting),
        res is Err ==> exists|i: int|
            0 <= i < validators@.len() && empty_on(required_field(#[trigger] validators@[i]), *resulting) && (forall|j: int|
                0 <= j < i ==> !empty_on(required_field(#[trigger] validators@[j]), *resulting)) && (res matches Err(
                AppError::Validation(m),
            ) && m@ == required_message(required_field(validators@[i]))),
{
    let mut i: usize = 0;
    while i < validators.len()
        invariant
            i <= validators.len(),
            forall|j: int| 0 <= j < i ==> !empty_on(required_field(#[trigger] validators@[j]), *resulting),
        decreases validators.len() - i,
    {
        let field = match validators[i] {
            Validator::RequiredField(f) => f,
        };
        if field.is_empty_on(resulting) {
            let r = check_required_field(field, true);
            assert(empty_on(required_field(validators@[i as int]), *resulting));
            return r;
        }
        i = i + 1;
    }
    Ok(())
}

/// The refusal of a `SetResolution` that names a resolution of another
/// project.
pub open spec fn foreign_resolution_message() -> Seq<char> {
    "A SetResolution post-function names a resolution that is not in this project."@
}

/// The refusal of an `UpdateField` that names a priority of another project.
pub open spec fn foreign_priority_message() -> Seq<char> {
    "An UpdateField post-function names a priority not in this project."@
}

/// What a field post-function does to the card a move produces, given the
/// actor, the project's lead, and whether the resolution, priority or user
/// it names was found (`found`, read only where it names one). `None` is a
/// refusal, with its message; the deferred post-functions change nothing
/// here.
pub open spec fn post_function_effect(
    pf: PostFunction,
    card: Card,
    actor_id: Option<Seq<char>>,
    lead_id: Option<Seq<char>>,
    found: bool,
) -> Result<(FieldName, Option<Seq<char>>), Seq<char>> {
    match pf {
        PostFunction::SetResolution(r) => if r is Some && !found {
            Err(foreign_resolution_message())
        } else {
            Ok((FieldName::Resolution, opt_string_view(r)))
        },
        PostFunction::AssignTo(target) => Ok(
            (
                FieldName::Assignee,
                match target {
                    AssignTarget::CurrentUser => actor_id,
                    AssignTarget::Reporter => opt_string_view(card.reporter_id),
                    AssignTarget::Lead => lead_id,
                    AssignTarget::Unassign => None,
                },
            ),
        ),
        PostFunction::UpdateField { field, value } => match field {
            FieldName::Priority => if value is Some && !found {
                Err(foreign_priority_message())
            } else {
                Ok((field, opt_string_view(value)))
            },
            FieldName::Assignee => if value is Some && !found {
                Err(unknown_user_message("assignee"@, value.unwrap()@))
            } else {
                Ok((field, opt_string_view(value)))
            },
            FieldName::Reporter => if value is Some && !found {
                Err(unknown_user_message("reporter"@, value.unwrap()@))
            } else {
                Ok((field, opt_string_view(value)))
            },
            FieldName::Description => Ok((field, opt_string_view(value))),
            _ => Err("UpdateField cannot set the "@ + field_label(field) + " here; use a dedicated post-function."@),
        },
        _ => Ok((FieldName::Estimate, opt_string_view(card.estimate))),
    }
}

/// The value of a settable field on a card.
pub open spec fn field_value(card: Card, f: FieldName) -> Option<Seq<char>> {
    match f {
        FieldName::Priority => opt_string_view(card.priority_id),
        FieldName::Assignee => opt_string_view(card.assignee_id),
        FieldName::Reporter => opt_string_view(card.reporter_id),
        FieldName::Resolution => opt_string_view(card.resolution_id),
        FieldName::DueDate => opt_string_view(card.due_date),
        FieldName::StartDate => opt_string_view(card.start_date),
        FieldName::Estimate => opt_string_view(card.estimate),
        FieldName::Description => opt_string_view(card.description),
    }
}

/// Whether `after` is `before` with field `f` set to `v` and every other
/// field as it was.
pub open spec fn only_set(before: Card, after: Card, f: FieldName, v: Option<Seq<char>>) -> bool {
    &&& field_value(after, f) == v
    &&& forall|g: FieldName| g != f ==> field_value(after, g) == field_value(before, g)
    &&& after.id@ == before.id@
    &&& after.key@ == before.key@
    &&& after.project_id@ == before.project_id@
    &&& after.type_id@ == before.type_id@
    &&& opt_string_view(after.parent_id) == opt_string_view(before.parent_id)
    &&& after.summary@ == before.summary@
    &&& after.status_id@ == before.status_id@
    &&& after.creator_id@ == before.creator_id@
    &&& opt_string_view(after.resolved_at) == opt_string_view(before.resolved_at)
    &&& after.rank@ == before.rank@
    &&& opt_string_view(after.archived_at) == opt_string_view(before.archived_at)
    &&& opt_string_view(after.deleted_at) == opt_string_view(before.deleted_at)
    &&& after.created_at@ == before.created_at@
    &&& after.updated_at@ == before.updated_at@
}

fn copy_opt_string(s: &Option<String>) -> (out: Option<String>)
    ensures
        opt_string_view(out) == opt_string_view(*s),
{
    match s {
        Some(v) => Some(v.clone()),
        None => None,
    }
}

/// Applies one field post-function to the card a move produces: a
/// resolution is only set here (the resolution rules reconcile it with the
/// landing status later), an assignment follows its target, and an
/// `UpdateField` writes priority, assignee, reporter or description. The
/// caller reads whether the named resolution, priority or user exists and
/// passes it as `found`; a missing one, or a field `UpdateField` may not
/// set, is a `Validation` error and leaves the card as it was. Comment and
/// event post-functions run after the write and change nothing here.
pub fn apply_post_function(
    next: &mut Card,
    pf: &PostFunction,
    actor_id: Option<&str>,
    lead_id: Option<&str>,
    found: bool,
) -> (res: AppResult<()>)
    ensures
        match post_function_effect(*pf, *old(next), opt_str_view(actor_id), opt_str_view(lead_id), found) {
            Ok((f, v)) => res is Ok && (match *pf {
                PostFunction::AddComment(_) | PostFunction::FireEvent(_) => *final(next) == *old(next),
                _ => only_set(*old(next), *final(next), f, v),
            }),
            Err(m) => (res matches Err(AppError::Validation(e)) && e@ == m) && *final(next) == *old(next),
        },
{
    match pf {
        PostFunction::SetResolution(r) => {
            if r.is_some() && !found {
                return Err(AppError::Validation(
                    "A SetResolution post-function names a resolution that is not in this project.".to_owned(),
                ));
            }
            next.resolution_id = copy_opt_string(r);
            Ok(())
        },
        PostFunction::AssignTo(target) => {
            let reporter: Option<&str> = match &next.reporter_id {
                Some(r) => Some(r.as_str()),
                None => None,
            };
            let assignee = assignee_for(*target, actor_id, reporter, lead_id);
            next.assignee_id = assignee;
            Ok(())
        },
        PostFunction::UpdateField { field, value } => {
            match field {
                FieldName::Priority => {
                    if value.is_some() && !found {
                        return Err(AppError::Validation(
                            "An UpdateField post-function names a priority not in this project.".to_owned(),
                        ));
                    }
                    next.priority_id = copy_opt_string(value);
                    Ok(())
                },
                FieldName::Assignee => {
                    if let Some(id) = value {
                        if !found {
                            return Err(unknown_user("assignee", id.as_str()));
                        }
                    }
                    next.assignee_id = copy_opt_string(value);
                    Ok(())
                },
                FieldName::Reporter => {
                    if let Some(id) = value {
                        if !found {
                            return Err(unknown_user("reporter", id.as_str()));
                        }
                    }
                    next.reporter_id = copy_opt_string(value);
                    Ok(())
                },
                FieldName::Description => {
                    next.description = copy_opt_string(value);
                    Ok(())
                },
                _ => check_update_field(*field),
            }
        },
        PostFunction::AddComment(_) | PostFunction::FireEvent(_) => Ok(()),
    }
}

/// A post-function that runs after the card is written.
#[derive(Debug, Clone, PartialEq, Eq)]
pub enum Deferred {
    /// Add a comment with this body, authored by the actor.
    Comment(String),
    /// Record this event for automation to consume.
    Event(String),
}

/// A deferred post-function as plain values: whether it is a comment, and
/// its text.
pub open spec fn deferred_view(d: Deferred) -> (bool, Seq<char>) {
    match d {
        Deferred::Comment(b) => (true, b@),
        Deferred::Event(e) => (false, e@),
    }
}

/// The views of a run of deferred post-functions.
pub open spec fn deferred_views(ds: Seq<Deferred>) -> Seq<(bool, Seq<char>)> {
    ds.map_values(|d: Deferred| deferred_view(d))
}

/// The comments and events a transition's post-functions leave for after
/// the write, in their order. Without an actor no comment can be authored,
/// so comment steps are skipped; events still fire.
pub open spec fn deferred_of(fs: Seq<PostFunction>, has_actor: bool) -> Seq<(bool, Seq<char>)>
    decreases fs.len(),
{
    if fs.len() == 0 {
        Seq::empty()
    } else {
        let rest = deferred_of(fs.drop_last(), has_actor);
        match fs.last() {
            PostFunction::AddComment(b) => if has_actor {
                rest.push((true, b@))
            } else {
                rest
            },
            PostFunction::FireEvent(e) => rest.push((false, e@)),
            _ => rest,
        }
    }
}

/// What runs after a transition's write, in order: first the comment the
/// actor typed on the transition's screen (checked as any comment is), then
/// the transition's comment and event post-functions. Without an actor,
/// neither comment is added; the events still fire.
pub fn deferred_actions(functions: &Vec<PostFunction>, actor_id: Option<&str>, entered_comment: Option<&str>) -> (res:
    AppResult<Vec<Deferred>>)
    ensures
        match (entered_comment, actor_id) {
            (Some(c), Some(_)) => match body_rule(c@) {
                Err(m) => res matches Err(AppError::Validation(e)) && e@ == m,
                Ok(b) => res matches Ok(v) && deferred_views(v@) == seq![(true, b)] + deferred_of(functions@, true),
            },
            _ => res matches Ok(v) && deferred_views(v@) == deferred_of(functions@, actor_id is Some),
        },
{
    let has_actor = actor_id.is_some();
    let mut out: Vec<Deferred> = Vec::new();
    let mut head: Ghost<Seq<(bool, Seq<char>)>> = Ghost(Seq::empty());
    if let (Some(body), Some(_)) = (entered_comment, actor_id) {
        match validate_body(body) {
            Ok(b) => {
                out.push(Deferred::Comment(b));
            },
            Err(e) => {
                return Err(e);
            },
        }
        proof {
            head@ = deferred_views(out@);
        }
    }
    proof {
        assert(deferred_views(out@) =~= head@ + deferred_of(functions@.take(0), has_actor));
    }
    let mut i: usize = 0;
    while i < functions.len()
        invariant
            i <= functions.len(),
            has_actor == actor_id is Some,
            deferred_views(out@) == head@ + deferred_of(functions@.take(i as int), has_actor),
        decreases functions.len() - i,
    {
        let ghost before = out@;
        assert(functions@.take(i as int + 1).drop_last() =~= functions@.take(i as int));
        assert(functions@.take(i as int + 1).last() == functions@[i as int]);
        match &functions[i] {
            PostFunction::AddComment(body) => {
                if has_actor {
                    out.push(Deferred::Comment(body.clone()));
                    assert(deferred_views(out@) =~= deferred_views(before).push((true, body@)));
                }
            },
            PostFunction::FireEvent(event) => {
                out.push(Deferred::Event(event.clone()));
                assert(deferred_views(out@) =~= deferred_views(before).push((false, event@)));
            },
            _ => {},
        }
        i = i + 1;
    }
    assert(functions@.take(functions@.len() as int) =~= functions@);
    Ok(out)
}

/// Whether a workflow may be deleted: never the project's default, which
/// its permissive moves fall back to.
pub fn check_delete(workflow: &Workflow) -> (res: AppResult<()>)
    ensures
        !workflow.is_default <==> res is Ok,
        workflow.is_default ==> (res matches Err(AppError::Conflict(m)) && m@
            == "The default workflow cannot be deleted. Make another workflow the default first."@),
{
    if workflow.is_default {
        return Err(AppError::Conflict(
            "The default workflow cannot be deleted. Make another workflow the default first.".to_owned(),
        ));
    }
    Ok(())
}

/// The refusal of a workflow assignment that names a card type of another
/// project.
pub fn foreign_card_type(type_id: &str) -> (e: AppError)
    ensures
        e matches AppError::Validation(m) && m@ == debug_quoted(type_id@) + " is not a card type of this project."@,
{
    let mut m = debug_quote(type_id);
    m.append(" is not a card type of this project.");
    AppError::Validation(m)
}

/// An offered transition as plain values: its id, button label and target.
pub type OfferView = (Option<Seq<char>>, Seq<char>, Seq<char>);

/// The view of an offered transition.
pub open spec fn offer_view(t: AvailableTransition) -> OfferView {
    (opt_string_view(t.id), t.name@, t.to_status_id@)
}

/// The transitions of a custom workflow a card is offered, in order: of the
/// candidate edges, each with its condition verdict for the viewer, those whose
/// conditions all passed (the verdict is `None`).
pub open spec fn unhidden(candidates: Seq<(Transition, Option<String>)>) -> Seq<OfferView>
    decreases candidates.len(),
{
    if candidates.len() == 0 {
        Seq::empty()
    } else {
        let rest = unhidden(candidates.drop_last());
        let (e, verdict) = candidates.last();
        if verdict is None {
            rest.push((Some(e.id@), e.name@, e.to_status_id@))
        } else {
            rest
        }
    }
}

/// The offer an edge makes.
pub open spec fn offer_of(t: Transition) -> OfferView {
    (Some(t.id@), t.name@, t.to_status_id@)
}

/// Conditions hide: a card is offered exactly the edges whose conditions all
/// passed, so an edge hidden by a failing condition is never offered (unless
/// another, unhidden edge makes the very same offer).
pub proof fn lemma_offered_iff_unhidden(candidates: Seq<(Transition, Option<String>)>, x: OfferView)
    ensures
        unhidden(candidates).contains(x) <==> exists|j: int|
            0 <= j < candidates.len() && candidates[j].1 is None && #[trigger] offer_of(candidates[j].0) == x,
    decreases candidates.len(),
{
    if candidates.len() > 0 {
        let n = candidates.len() - 1;
        let rc = candidates.drop_last();
        lemma_offered_iff_unhidden(rc, x);
        let rest = unhidden(rc);
        let all = unhidden(candidates);
        if all.contains(x) {
            if candidates.last().1 is None && x == offer_of(candidates.last().0) {
                assert(offer_of(candidates[n].0) == x);
            } else {
                assert(rest.contains(x)) by {
                    if candidates.last().1 is None {
                        let w = choose|w: int| 0 <= w < all.len() && all[w] == x;
                        assert(w < rest.len());
                        assert(rest[w] == x);
                    }
                }
                let j = choose|j: int| 0 <= j < rc.len() && rc[j].1 is None && #[trigger] offer_of(rc[j].0) == x;
                assert(candidates[j] == rc[j]);
                assert(offer_of(candidates[j].0) == x);
            }
        }
        if exists|j: int| 0 <= j < candidates.len() && candidates[j].1 is None && #[trigger] offer_of(candidates[j].0) == x {
            let j = choose|j: int| 0 <= j < candidates.len() && candidates[j].1 is None && #[trigger] offer_of(candidates[j].0) == x;
            if j == n {
                assert(all[all.len() - 1] == x);
            } else {
                assert(rc[j] == candidates[j]);
                assert(offer_of(rc[j].0) == x);
                let w = choose|w: int| 0 <= w < rest.len() && rest[w] == x;
                assert(all[w] == x);
            }
        }
    }
}

/// The transitions a card may take now under a custom workflow, given each
/// candidate edge with its condition verdict for the viewer: a failing
/// condition hides its edge, so the board offers a button only when this
/// viewer could press it.
pub fn unhidden_transitions(candidates: &Vec<(Transition, Option<String>)>) -> (out: Vec<AvailableTransition>)
    ensures
        out@.map_values(|t: AvailableTransition| offer_view(t)) == unhidden(candidates@),
{
    let mut out: Vec<AvailableTransition> = Vec::new();
    let mut i: usize = 0;
    proof {
        assert(out@.map_values(|t: AvailableTransition| offer_view(t)) =~= unhidden(candidates@.take(0)));
    }
    while i < candidates.len()
        invariant
            i <= candidates.len(),
            out@.map_values(|t: AvailableTransition| offer_view(t)) == unhidden(candidates@.take(i as int)),
        decreases candidates.len() - i,
    {
        let ghost before = out@;
        assert(candidates@.take(i as int + 1).drop_last() =~= candidates@.take(i as int));
        assert(candidates@.take(i as int + 1).last() == candidates@[i as int]);
        let (e, verdict) = &candidates[i];
        if verdict.is_none() {
            out.push(AvailableTransition {
                id: Some(e.id.clone()),
                name: e.name.clone(),
                to_status_id: e.to_status_id.clone(),
            });
            assert(out@.map_values(|t: AvailableTransition| offer_view(t)) =~= before.map_values(
                |t: AvailableTransition| offer_view(t),
            ).push((Some(e.id@), e.name@, e.to_status_id@)));
        }
        i = i + 1;
    }
    assert(candidates@.take(candidates@.len() as int) =~= candidates@);
    out
}

} // verus!
