//! The webhook receiver's pure half: checking a delivery's signature, and the
//! events a delivery carries.
//!
//! A delivery is trusted only when its `x-hub-signature-256` header is
//! `sha256=<hex>` and the hex decodes to exactly the HMAC-SHA256 of the raw
//! body under the repository's secret. The digest comparison is constant-time.

use hmac::{Hmac, Mac};
use sha2::Sha256;
use subtle::ConstantTimeEq;
use vstd::prelude::*;

use crate::error::{AppError, AppResult};
use crate::text::{opt_string_view, str_eq, usize_to_decimal};

verus! {

/// The header carrying the HMAC-SHA256 signature.
pub const SIGNATURE_HEADER: &'static str = "x-hub-signature-256";

/// The header naming the event (`push`, `pull_request`, ...).
pub const EVENT_HEADER: &'static str = "x-github-event";

/// The header carrying the delivery GUID, the natural idempotency key.
pub const DELIVERY_HEADER: &'static str = "x-github-delivery";

/// The HMAC-SHA256 of `message` under `key`.
pub uninterp spec fn hmac_sha256_of(key: Seq<u8>, message: Seq<u8>) -> Seq<u8>;

/// Computes HMAC-SHA256 with the `hmac` and `sha2` crates: `Hmac<Sha256>` is
/// keyed with `new_from_slice`, fed the message, and finalised. The contract
/// names the digest and claims that it is a function of the key and the
/// message, 32 bytes long (SHA-256's output size). `new_from_slice` accepts a
/// key of any length for HMAC, so the `expect` never fires.
#[verifier::external_body]
fn hmac_sha256(key: &[u8], message: &[u8]) -> (digest: Vec<u8>)
    ensures
        digest@ == hmac_sha256_of(key@, message@),
        digest@.len() == 32,
{
    let mut mac = <Hmac<Sha256>>::new_from_slice(key).expect("HMAC accepts any key length");
    mac.update(message);
    mac.finalize().into_bytes().to_vec()
}

/// The value of a hexadecimal digit, either case.
pub open spec fn hex_digit_value(c: char) -> Option<u8> {
    if '0' <= c && c <= '9' {
        Some((c as int - '0' as int) as u8)
    } else if 'a' <= c && c <= 'f' {
        Some((c as int - 'a' as int + 10) as u8)
    } else if 'A' <= c && c <= 'F' {
        Some((c as int - 'A' as int + 10) as u8)
    } else {
        None
    }
}

/// The bytes a hexadecimal text decodes to: an even number of hex digits,
/// either case, two per byte, high digit first.
pub open spec fn hex_decoded(s: Seq<char>) -> Option<Seq<u8>>
    decreases s.len(),
{
    if s.len() == 0 {
        Some(Seq::empty())
    } else if s.len() == 1 {
        None
    } else {
        match (hex_decoded(s.drop_last().drop_last()), hex_digit_value(s[s.len() - 2]), hex_digit_value(
            s[s.len() - 1],
        )) {
            (Some(front), Some(hi), Some(lo)) => Some(front.push((hi * 16 + lo) as u8)),
            _ => None,
        }
    }
}

/// `hex::decode`: the bytes of an even-length run of hexadecimal digits, and
/// an error for an odd length or any other character. The contract restates
/// the crate's `FromHex for Vec<u8>` in full.
#[verifier::external_body]
fn hex_decode(s: &str) -> (bytes: Option<Vec<u8>>)
    ensures
        match hex_decoded(s@) {
            Some(b) => bytes matches Some(v) && v@ == b,
            None => bytes is None,
        },
{
    hex::decode(s).ok()
}

/// `<[u8] as subtle::ConstantTimeEq>::ct_eq`, converted to `bool`: whether
/// the two slices are equal, in time that does not depend on where they
/// differ. Slices of different lengths are unequal.
#[verifier::external_body]
fn constant_time_eq(a: &[u8], b: &[u8]) -> (eq: bool)
    ensures
        eq == (a@ == b@),
{
    a.ct_eq(b).into()
}

/// The text after `prefix` in `s`, if `s` starts with it.
pub open spec fn after_prefix(s: Seq<char>, prefix: Seq<char>) -> Option<Seq<char>> {
    if s.len() >= prefix.len() && s.take(prefix.len() as int) == prefix {
        Some(s.skip(prefix.len() as int))
    } else {
        None
    }
}

/// Whether `header` signs `body` under `secret`: it is `sha256=` followed by
/// the hex of exactly the HMAC-SHA256 of the body.
pub open spec fn signature_rule(secret: Seq<u8>, body: Seq<u8>, header: Seq<char>) -> bool {
    match after_prefix(header, "sha256="@) {
        None => false,
        Some(h) => match hex_decoded(h) {
            None => false,
            Some(d) => d == hmac_sha256_of(secret, body),
        },
    }
}

/// `s` without `prefix`, when it starts with it.
fn strip_prefix(s: &str, prefix: &str) -> (r: Option<String>)
    ensures
        crate::text::opt_string_view(r) == after_prefix(s@, prefix@),
{
    let v = crate::text::chars_of(s);
    let p = crate::text::chars_of(prefix);
    if v.len() < p.len() {
        return None;
    }
    let head = crate::text::sub_vec(&v, 0, p.len());
    if !crate::text::seq_eq(&head, &p) {
        return None;
    }
    let tail = crate::text::sub_vec(&v, p.len(), v.len());
    Some(crate::text::string_of(&tail))
}

/// Verifies a GitHub webhook signature over the raw body, by
/// [`signature_rule`], comparing the digests in constant time. No `sha256=`
/// prefix, text that is not hex, a wrong length or a wrong digest all give
/// `false`.
pub fn verify_signature(secret: &[u8], raw_body: &[u8], header: &str) -> (ok: bool)
    ensures
        ok == signature_rule(secret@, raw_body@, header@),
{
    let hex_sig = match strip_prefix(header, "sha256=") {
        Some(h) => h,
        None => return false,
    };
    let expected = match hex_decode(hex_sig.as_str()) {
        Some(e) => e,
        None => return false,
    };
    let computed = hmac_sha256(secret, raw_body);
    constant_time_eq(computed.as_slice(), expected.as_slice())
}

/// The lowercase hexadecimal digit for `0 <= n < 16`.
pub open spec fn hex_digit_char(n: int) -> char {
    if n < 10 {
        (n + '0' as int) as char
    } else {
        (n - 10 + 'a' as int) as char
    }
}

/// The lowercase hexadecimal text of `bytes`, two digits per byte.
pub open spec fn hex_encoded(bytes: Seq<u8>) -> Seq<char>
    decreases bytes.len(),
{
    if bytes.len() == 0 {
        Seq::empty()
    } else {
        let b = bytes.last();
        hex_encoded(bytes.drop_last()).push(hex_digit_char(b as int / 16)).push(hex_digit_char(b as int % 16))
    }
}

proof fn lemma_hex_round_trip(bytes: Seq<u8>)
    ensures
        hex_decoded(hex_encoded(bytes)) == Some(bytes),
        hex_encoded(bytes).len() == 2 * bytes.len(),
    decreases bytes.len(),
{
    if bytes.len() > 0 {
        lemma_hex_round_trip(bytes.drop_last());
        let e = hex_encoded(bytes);
        let b = bytes.last();
        assert(e.drop_last().drop_last() == hex_encoded(bytes.drop_last()));
        assert(hex_digit_value(hex_digit_char(b as int / 16)) == Some((b / 16) as u8));
        assert(hex_digit_value(hex_digit_char(b as int % 16)) == Some((b % 16) as u8));
        assert(((b / 16) as u8 * 16 + (b % 16) as u8) as u8 == b);
        assert(bytes.drop_last().push(b) == bytes);
    }
}

/// A signature made the way GitHub makes one, `sha256=` and the lowercase hex
/// of the HMAC-SHA256 of the body under the secret, always verifies.
pub proof fn lemma_genuine_signature_verifies(secret: Seq<u8>, body: Seq<u8>)
    ensures
        signature_rule(secret, body, "sha256="@ + hex_encoded(hmac_sha256_of(secret, body))),
{
    let d = hmac_sha256_of(secret, body);
    let header = "sha256="@ + hex_encoded(d);
    lemma_hex_round_trip(d);
    assert(header.take("sha256="@.len() as int) == "sha256="@);
    assert(header.skip("sha256="@.len() as int) == hex_encoded(d));
}

/// A commit in a push event.
#[derive(Debug, Clone, PartialEq, Eq)]
pub struct PushCommit {
    /// The commit SHA.
    pub id: String,
    /// The full commit message.
    pub message: String,
    /// The browser URL.
    pub url: String,
}

/// The webhook events Atlas acts on.
#[derive(Debug, Clone, PartialEq, Eq)]
pub enum WebhookEvent {
    /// Commits pushed to a branch.
    Push {
        /// The branch, without `refs/heads/`.
        branch: String,
        /// The pushed commits.
        commits: Vec<PushCommit>,
    },
    /// A pull request changed.
    PullRequest {
        /// `opened`, `closed`, `synchronize`, ...
        action: String,
        /// The head branch.
        branch: String,
        /// Whether it was merged: `merged` is true, or `merged_at` is set.
        merged: bool,
        /// The PR number.
        number: i64,
        /// The PR title.
        title: String,
        /// The browser URL.
        html_url: String,
    },
    /// A check suite completed.
    CheckSuite {
        /// The head commit.
        head_sha: String,
        /// The head branch, if any.
        head_branch: Option<String>,
        /// The conclusion, if any.
        conclusion: Option<String>,
    },
    /// A branch or tag was created.
    Create {
        /// `branch` or `tag`.
        ref_type: String,
        /// The ref's short name.
        ref_name: String,
    },
    /// A branch or tag was deleted.
    Delete {
        /// `branch` or `tag`.
        ref_type: String,
        /// The ref's short name.
        ref_name: String,
    },
}

/// A push's `ref` with `refs/heads/` removed; any other ref is left alone.
pub open spec fn branch_of_ref(git_ref: Seq<char>) -> Seq<char> {
    match after_prefix(git_ref, "refs/heads/"@) {
        Some(b) => b,
        None => git_ref,
    }
}

/// Strips `refs/heads/` from a push's `ref`.
pub fn strip_branch_ref(git_ref: &str) -> (branch: String)
    ensures
        branch@ == branch_of_ref(git_ref@),
{
    match strip_prefix(git_ref, "refs/heads/") {
        Some(b) => b,
        None => crate::text::copy_str(git_ref),
    }
}

/// What a JSON pointer finds in a webhook body.
#[derive(Debug, Clone, PartialEq, Eq)]
pub enum JsonNode {
    /// The body is not JSON; the parser's message.
    Invalid(String),
    /// Nothing at that pointer.
    Missing,
    /// `null`.
    Null,
    /// A boolean.
    Bool(bool),
    /// A number: its value when it is an integer that fits an `i64`.
    Number(Option<i64>),
    /// A string.
    Text(String),
    /// An array of this many elements.
    Array(usize),
    /// An object.
    Object,
}

/// The plain form of a [`JsonNode`].
pub enum JsonNodeView {
    /// The body is not JSON; the parser's message.
    Invalid(Seq<char>),
    /// Nothing at that pointer.
    Missing,
    /// `null`.
    Null,
    /// A boolean.
    Bool(bool),
    /// A number: its value when it is an integer that fits an `i64`.
    Number(Option<int>),
    /// A string.
    Text(Seq<char>),
    /// An array of this many elements.
    Array(nat),
    /// An object.
    Object,
}

impl View for JsonNode {
    type V = JsonNodeView;

    open spec fn view(&self) -> JsonNodeView {
        match self {
            JsonNode::Invalid(m) => JsonNodeView::Invalid(m@),
            JsonNode::Missing => JsonNodeView::Missing,
            JsonNode::Null => JsonNodeView::Null,
            JsonNode::Bool(b) => JsonNodeView::Bool(*b),
            JsonNode::Number(n) => JsonNodeView::Number(match n {
                Some(v) => Some(*v as int),
                None => None,
            }),
            JsonNode::Text(t) => JsonNodeView::Text(t@),
            JsonNode::Array(n) => JsonNodeView::Array(*n as nat),
            JsonNode::Object => JsonNodeView::Object,
        }
    }
}

/// What `serde_json` finds at a JSON pointer in a body.
pub uninterp spec fn json_pointer_of(body: Seq<u8>, pointer: Seq<char>) -> JsonNodeView;

/// Parses `body` with `serde_json::from_slice` into a `serde_json::Value`
/// and looks `pointer` up with `Value::pointer` (RFC 6901). The contract names
/// the result and claims that it is a function of the body and the pointer;
/// which bodies parse, and the parser's messages, are serde_json's.
#[verifier::external_body]
fn json_pointer(body: &[u8], pointer: &str) -> (node: JsonNode)
    ensures
        node@ == json_pointer_of(body@, pointer@),
{
    match serde_json::from_slice::<serde_json::Value>(body) {
        Err(e) => JsonNode::Invalid(e.to_string()),
        Ok(v) => match v.pointer(pointer) {
            None => JsonNode::Missing,
            Some(serde_json::Value::Null) => JsonNode::Null,
            Some(serde_json::Value::Bool(b)) => JsonNode::Bool(*b),
            Some(serde_json::Value::Number(n)) => JsonNode::Number(n.as_i64()),
            Some(serde_json::Value::String(t)) => JsonNode::Text(t.clone()),
            Some(serde_json::Value::Array(a)) => JsonNode::Array(a.len()),
            Some(serde_json::Value::Object(_)) => JsonNode::Object,
        },
    }
}

/// A string member with a default: absent is empty, a string is itself,
/// anything else is a shape error (`None`).
pub open spec fn text_or_empty(n: JsonNodeView) -> Option<Seq<char>> {
    match n {
        JsonNodeView::Missing => Some(Seq::empty()),
        JsonNodeView::Text(t) => Some(t),
        _ => None,
    }
}

/// A required string member: a string is itself, anything else is a shape
/// error (`None`).
pub open spec fn text_required(n: JsonNodeView) -> Option<Seq<char>> {
    match n {
        JsonNodeView::Text(t) => Some(t),
        _ => None,
    }
}

/// An optional string member: absent or `null` is `None`, a string is itself,
/// anything else is a shape error (the outer `None`).
pub open spec fn text_optional(n: JsonNodeView) -> Option<Option<Seq<char>>> {
    match n {
        JsonNodeView::Missing => Some(None),
        JsonNodeView::Null => Some(None),
        JsonNodeView::Text(t) => Some(Some(t)),
        _ => None,
    }
}

/// A boolean member with a default of `false`.
pub open spec fn bool_or_false(n: JsonNodeView) -> Option<bool> {
    match n {
        JsonNodeView::Missing => Some(false),
        JsonNodeView::Bool(b) => Some(b),
        _ => None,
    }
}

/// An integer member with a default of `0`.
pub open spec fn int_or_zero(n: JsonNodeView) -> Option<int> {
    match n {
        JsonNodeView::Missing => Some(0),
        JsonNodeView::Number(Some(v)) => Some(v),
        _ => None,
    }
}

/// The text of the pointer to member `field` of commit `i`.
pub open spec fn commit_pointer(i: int, field: Seq<char>) -> Seq<char> {
    "/commits/"@ + crate::text::decimal(i) + "/"@ + field
}

/// What a JSON pointer found for one pushed commit: the commit itself, then
/// its `id`, `message` and `url` members.
pub struct CommitNodes {
    /// The commit.
    pub commit: JsonNode,
    /// Its `id`.
    pub id: JsonNode,
    /// Its `message`.
    pub message: JsonNode,
    /// Its `url`.
    pub url: JsonNode,
}

/// The plain form of [`CommitNodes`].
pub open spec fn commit_nodes_view(c: CommitNodes) -> (JsonNodeView, JsonNodeView, JsonNodeView, JsonNodeView) {
    (c.commit@, c.id@, c.message@, c.url@)
}

/// The plain form of a list of [`CommitNodes`].
pub open spec fn commit_nodes_views(v: Seq<CommitNodes>) -> Seq<(JsonNodeView, JsonNodeView, JsonNodeView, JsonNodeView)> {
    v.map_values(|c: CommitNodes| commit_nodes_view(c))
}

/// The commits of a push, `(id, message, url)`, when every one is an object
/// with a string `id` and `message` and, if any, a string `url`.
pub open spec fn commits_rule(items: Seq<(JsonNodeView, JsonNodeView, JsonNodeView, JsonNodeView)>) -> Option<
    Seq<(Seq<char>, Seq<char>, Seq<char>)>,
>
    decreases items.len(),
{
    if items.len() == 0 {
        Some(Seq::empty())
    } else {
        match commits_rule(items.drop_last()) {
            None => None,
            Some(before) => {
                let (commit, id, message, url) = items.last();
                if !(commit is Object) {
                    None
                } else {
                    match (text_required(id), text_required(message), text_or_empty(url)) {
                        (Some(id), Some(message), Some(url)) => Some(before.push((id, message, url))),
                        _ => None,
                    }
                }
            },
        }
    }
}

/// What the pointers of the first `n` commits of a push body find.
pub open spec fn commit_items(body: Seq<u8>, n: nat) -> Seq<(JsonNodeView, JsonNodeView, JsonNodeView, JsonNodeView)> {
    Seq::new(
        n,
        |i: int|
            (
                json_pointer_of(body, "/commits/"@ + crate::text::decimal(i)),
                json_pointer_of(body, commit_pointer(i, "id"@)),
                json_pointer_of(body, commit_pointer(i, "message"@)),
                json_pointer_of(body, commit_pointer(i, "url"@)),
            ),
    )
}

/// The plain form of a [`WebhookEvent`].
pub enum EventView {
    /// A push: branch and commits.
    Push(Seq<char>, Seq<(Seq<char>, Seq<char>, Seq<char>)>),
    /// A pull request: action, branch, merged, number, title, URL.
    PullRequest(Seq<char>, Seq<char>, bool, int, Seq<char>, Seq<char>),
    /// A check suite: head SHA, head branch, conclusion.
    CheckSuite(Seq<char>, Option<Seq<char>>, Option<Seq<char>>),
    /// A ref created: type and name.
    Create(Seq<char>, Seq<char>),
    /// A ref deleted: type and name.
    Delete(Seq<char>, Seq<char>),
}

/// The plain form of an event.
pub open spec fn event_view(e: WebhookEvent) -> EventView {
    match e {
        WebhookEvent::Push { branch, commits } => EventView::Push(
            branch@,
            commits@.map_values(|c: PushCommit| (c.id@, c.message@, c.url@)),
        ),
        WebhookEvent::PullRequest { action, branch, merged, number, title, html_url } => EventView::PullRequest(
            action@,
            branch@,
            merged,
            number as int,
            title@,
            html_url@,
        ),
        WebhookEvent::CheckSuite { head_sha, head_branch, conclusion } => EventView::CheckSuite(
            head_sha@,
            opt_string_view(head_branch),
            opt_string_view(conclusion),
        ),
        WebhookEvent::Create { ref_type, ref_name } => EventView::Create(ref_type@, ref_name@),
        WebhookEvent::Delete { ref_type, ref_name } => EventView::Delete(ref_type@, ref_name@),
    }
}

/// The plain form of an optional event.
pub open spec fn opt_event_view(e: Option<WebhookEvent>) -> Option<EventView> {
    match e {
        Some(e) => Some(event_view(e)),
        None => None,
    }
}

/// What the pointers of a push body find: the body, `/ref`, `/commits`, and
/// each commit's nodes (read only when `/commits` is an array).
pub struct PushNodes {
    /// The whole body.
    pub top: JsonNode,
    /// `/ref`.
    pub git_ref: JsonNode,
    /// `/commits`.
    pub commits: JsonNode,
    /// The nodes of each commit.
    pub items: Vec<CommitNodes>,
}

/// A push from its nodes: `None` unless the body is an object, `ref` is a
/// string or absent, and `commits` is absent or an array of well-formed
/// commits.
pub open spec fn push_rule(
    top: JsonNodeView,
    git_ref: JsonNodeView,
    commits: JsonNodeView,
    items: Seq<(JsonNodeView, JsonNodeView, JsonNodeView, JsonNodeView)>,
) -> Option<EventView> {
    if !(top is Object) {
        None
    } else {
        match (text_or_empty(git_ref), commits) {
            (Some(r), JsonNodeView::Missing) => Some(EventView::Push(branch_of_ref(r), Seq::empty())),
            (Some(r), JsonNodeView::Array(_)) => match commits_rule(items) {
                Some(cs) => Some(EventView::Push(branch_of_ref(r), cs)),
                None => None,
            },
            _ => None,
        }
    }
}

/// What the pointers of a pull request body find.
pub struct PullRequestNodes {
    /// The whole body.
    pub top: JsonNode,
    /// `/pull_request`.
    pub pull_request: JsonNode,
    /// `/pull_request/head`.
    pub head: JsonNode,
    /// `/action`.
    pub action: JsonNode,
    /// `/pull_request/number`.
    pub number: JsonNode,
    /// `/pull_request/title`.
    pub title: JsonNode,
    /// `/pull_request/html_url`.
    pub html_url: JsonNode,
    /// `/pull_request/merged`.
    pub merged: JsonNode,
    /// `/pull_request/merged_at`.
    pub merged_at: JsonNode,
    /// `/pull_request/head/ref`.
    pub head_ref: JsonNode,
}

/// A pull request event from its nodes: `None` unless the body, the pull
/// request and its head are objects and every member has its type (absent
/// members take their defaults). It merged when `merged` is true or
/// `merged_at` is set.
pub open spec fn pull_request_rule(n: PullRequestNodes) -> Option<EventView> {
    if !(n.top@ is Object) || !(n.pull_request@ is Object) || !(n.head@ is Object) {
        None
    } else {
        match (
            text_or_empty(n.action@),
            int_or_zero(n.number@),
            text_or_empty(n.title@),
            text_or_empty(n.html_url@),
            bool_or_false(n.merged@),
            text_optional(n.merged_at@),
            text_or_empty(n.head_ref@),
        ) {
            (Some(action), Some(number), Some(title), Some(url), Some(merged), Some(merged_at), Some(branch)) => Some(
                EventView::PullRequest(action, branch, merged || merged_at is Some, number, title, url),
            ),
            _ => None,
        }
    }
}

/// What the pointers of a check suite body find.
pub struct CheckSuiteNodes {
    /// The whole body.
    pub top: JsonNode,
    /// `/check_suite`.
    pub check_suite: JsonNode,
    /// `/check_suite/head_sha`.
    pub head_sha: JsonNode,
    /// `/check_suite/head_branch`.
    pub head_branch: JsonNode,
    /// `/check_suite/conclusion`.
    pub conclusion: JsonNode,
}

/// A check suite event from its nodes: `None` unless the body and the suite
/// are objects and every member has its type.
pub open spec fn check_suite_rule(n: CheckSuiteNodes) -> Option<EventView> {
    if !(n.top@ is Object) || !(n.check_suite@ is Object) {
        None
    } else {
        match (text_or_empty(n.head_sha@), text_optional(n.head_branch@), text_optional(n.conclusion@)) {
            (Some(sha), Some(branch), Some(conclusion)) => Some(EventView::CheckSuite(sha, branch, conclusion)),
            _ => None,
        }
    }
}

/// What the pointers of a `create` or `delete` body find.
pub struct RefNodes {
    /// The whole body.
    pub top: JsonNode,
    /// `/ref`.
    pub git_ref: JsonNode,
    /// `/ref_type`.
    pub ref_type: JsonNode,
}

/// A ref created (`create`) or deleted event from its nodes: `None` unless
/// the body is an object and both members are strings or absent.
pub open spec fn ref_rule(create: bool, n: RefNodes) -> Option<EventView> {
    if !(n.top@ is Object) {
        None
    } else {
        match (text_or_empty(n.git_ref@), text_or_empty(n.ref_type@)) {
            (Some(name), Some(kind)) => if create {
                Some(EventView::Create(kind, name))
            } else {
                Some(EventView::Delete(kind, name))
            },
            _ => None,
        }
    }
}

/// A shape verdict as the event rule reports it: `None` on a shape error.
pub open spec fn shaped(e: Option<EventView>) -> Option<Option<EventView>> {
    match e {
        Some(v) => Some(Some(v)),
        None => None,
    }
}

/// The event a delivery carries, when its body has the event's shape: `None`
/// on a shape error, `Some(None)` for an event Atlas does not act on.
pub open spec fn event_rule(event: Seq<char>, body: Seq<u8>) -> Option<Option<EventView>> {
    let top = json_pointer_of(body, ""@);
    if event == "push"@ {
        let commits = json_pointer_of(body, "/commits"@);
        let n: nat = match commits {
            JsonNodeView::Array(n) => n,
            _ => 0,
        };
        shaped(push_rule(top, json_pointer_of(body, "/ref"@), commits, commit_items(body, n)))
    } else if event == "pull_request"@ {
        if !(top is Object) || !(json_pointer_of(body, "/pull_request"@) is Object) || !(json_pointer_of(
            body,
            "/pull_request/head"@,
        ) is Object) {
            None
        } else {
            match (
                text_or_empty(json_pointer_of(body, "/action"@)),
                int_or_zero(json_pointer_of(body, "/pull_request/number"@)),
                text_or_empty(json_pointer_of(body, "/pull_request/title"@)),
                text_or_empty(json_pointer_of(body, "/pull_request/html_url"@)),
                bool_or_false(json_pointer_of(body, "/pull_request/merged"@)),
                text_optional(json_pointer_of(body, "/pull_request/merged_at"@)),
                text_or_empty(json_pointer_of(body, "/pull_request/head/ref"@)),
            ) {
                (Some(action), Some(number), Some(title), Some(url), Some(merged), Some(merged_at), Some(branch)) => Some(
                    Some(EventView::PullRequest(action, branch, merged || merged_at is Some, number, title, url)),
                ),
                _ => None,
            }
        }
    } else if event == "check_suite"@ {
        if !(top is Object) || !(json_pointer_of(body, "/check_suite"@) is Object) {
            None
        } else {
            match (
                text_or_empty(json_pointer_of(body, "/check_suite/head_sha"@)),
                text_optional(json_pointer_of(body, "/check_suite/head_branch"@)),
                text_optional(json_pointer_of(body, "/check_suite/conclusion"@)),
            ) {
                (Some(sha), Some(branch), Some(conclusion)) => Some(Some(EventView::CheckSuite(sha, branch, conclusion))),
                _ => None,
            }
        }
    } else if event == "create"@ || event == "delete"@ {
        if !(top is Object) {
            None
        } else {
            match (
                text_or_empty(json_pointer_of(body, "/ref"@)),
                text_or_empty(json_pointer_of(body, "/ref_type"@)),
            ) {
                (Some(name), Some(kind)) => if event == "create"@ {
                    Some(Some(EventView::Create(kind, name)))
                } else {
                    Some(Some(EventView::Delete(kind, name)))
                },
                _ => None,
            }
        }
    } else {
        Some(None)
    }
}

fn text_or_empty_of(n: &JsonNode) -> (r: Option<String>)
    ensures
        opt_string_view(r) == text_or_empty(n@),
{
    match n {
        JsonNode::Missing => Some(String::new()),
        JsonNode::Text(t) => Some(t.clone()),
        _ => None,
    }
}

fn text_required_of(n: &JsonNode) -> (r: Option<String>)
    ensures
        opt_string_view(r) == text_required(n@),
{
    match n {
        JsonNode::Text(t) => Some(t.clone()),
        _ => None,
    }
}

fn text_optional_of(n: &JsonNode) -> (r: Option<Option<String>>)
    ensures
        match text_optional(n@) {
            None => r is None,
            Some(o) => r matches Some(x) && opt_string_view(x) == o,
        },
{
    match n {
        JsonNode::Missing => Some(None),
        JsonNode::Null => Some(None),
        JsonNode::Text(t) => Some(Some(t.clone())),
        _ => None,
    }
}

/// The pointer to commit `i`, or to member `field` of it.
fn commit_path(i: usize, field: Option<&str>) -> (p: String)
    ensures
        field matches Some(f) ==> p@ == commit_pointer(i as int, f@),
        field is None ==> p@ == "/commits/"@ + crate::text::decimal(i as int),
{
    let mut p = "/commits/".to_owned();
    let d = usize_to_decimal(i);
    p.append(d.as_str());
    if let Some(f) = field {
        p.append("/");
        p.append(f);
    }
    p
}

/// What the pointers of the first `n` commits of a push body find, by
/// [`commit_items`].
fn commit_nodes(body: &[u8], n: usize) -> (v: Vec<CommitNodes>)
    ensures
        commit_nodes_views(v@) == commit_items(body@, n as nat),
{
    let mut v: Vec<CommitNodes> = Vec::new();
    let mut i: usize = 0;
    while i < n
        invariant
            i <= n,
            commit_nodes_views(v@) == commit_items(body@, n as nat).take(i as int),
        decreases n - i,
    {
        let ghost before = v@;
        let commit = json_pointer(body, commit_path(i, None).as_str());
        let id = json_pointer(body, commit_path(i, Some("id")).as_str());
        let message = json_pointer(body, commit_path(i, Some("message")).as_str());
        let url = json_pointer(body, commit_path(i, Some("url")).as_str());
        v.push(CommitNodes { commit, id, message, url });
        proof {
            assert(commit_nodes_views(v@) =~= commit_nodes_views(before).push(commit_nodes_view(v@.last())));
            assert(commit_items(body@, n as nat).take(i + 1) =~= commit_items(body@, n as nat).take(i as int).push(
                commit_items(body@, n as nat)[i as int],
            ));
        }
        i = i + 1;
    }
    proof {
        assert(commit_items(body@, n as nat).take(n as int) =~= commit_items(body@, n as nat));
    }
    v
}

proof fn lemma_commits_stay_broken(items: Seq<(JsonNodeView, JsonNodeView, JsonNodeView, JsonNodeView)>, k: int)
    requires
        0 < k <= items.len(),
        commits_rule(items.take(k)) is None,
    ensures
        commits_rule(items) is None,
    decreases items.len() - k,
{
    if k < items.len() {
        assert(items.take(k + 1).drop_last() =~= items.take(k));
        lemma_commits_stay_broken(items, k + 1);
    } else {
        assert(items.take(k) =~= items);
    }
}

/// The commits of a push from their nodes, by [`commits_rule`].
pub fn commits_from(items: &Vec<CommitNodes>) -> (r: Option<Vec<PushCommit>>)
    ensures
        match commits_rule(commit_nodes_views(items@)) {
            None => r is None,
            Some(cs) => r matches Some(v) && v@.map_values(|c: PushCommit| (c.id@, c.message@, c.url@)) == cs,
        },
{
    let ghost all = commit_nodes_views(items@);
    let mut out: Vec<PushCommit> = Vec::new();
    let mut i: usize = 0;
    while i < items.len()
        invariant
            i <= items.len(),
            all == commit_nodes_views(items@),
            all.len() == items@.len(),
            commits_rule(all.take(i as int)) matches Some(cs) && out@.map_values(
                |c: PushCommit| (c.id@, c.message@, c.url@),
            ) == cs,
        decreases items.len() - i,
    {
        let ghost before = out@.map_values(|c: PushCommit| (c.id@, c.message@, c.url@));
        proof {
            assert(all.take(i + 1).drop_last() =~= all.take(i as int));
            assert(all.take(i + 1).last() == commit_nodes_view(items@[i as int]));
        }
        let item = &items[i];
        if !object_node(&item.commit) {
            proof {
                lemma_commits_stay_broken(all, i + 1);
            }
            return None;
        }
        let id = match text_required_of(&item.id) {
            Some(t) => t,
            None => {
                proof {
                    lemma_commits_stay_broken(all, i + 1);
                }
                return None;
            },
        };
        let message = match text_required_of(&item.message) {
            Some(t) => t,
            None => {
                proof {
                    lemma_commits_stay_broken(all, i + 1);
                }
                return None;
            },
        };
        let url = match text_or_empty_of(&item.url) {
            Some(u) => u,
            None => {
                proof {
                    lemma_commits_stay_broken(all, i + 1);
                }
                return None;
            },
        };
        out.push(PushCommit { id, message, url });
        proof {
            assert(out@.map_values(|c: PushCommit| (c.id@, c.message@, c.url@)) =~= before.push(
                (out@.last().id@, out@.last().message@, out@.last().url@),
            ));
        }
        i = i + 1;
    }
    proof {
        assert(all.take(items.len() as int) =~= all);
    }
    Some(out)
}

/// Whether a node is an object.
fn object_node(n: &JsonNode) -> (b: bool)
    ensures
        b == (n@ is Object),
{
    match n {
        JsonNode::Object => true,
        _ => false,
    }
}

/// The error for a body without the event's shape.
fn shape_error(event: &str) -> (e: AppError)
    ensures
        e matches AppError::Internal(m) && m@ == "webhook payload does not have the shape of a "@ + event@
            + " event"@,
{
    let mut m = "webhook payload does not have the shape of a ".to_owned();
    m.append(event);
    m.append(" event");
    AppError::Internal(m)
}

/// A push event from what the pointers of its body found, by [`push_rule`].
pub fn push_event(nodes: &PushNodes) -> (e: Option<WebhookEvent>)
    ensures
        opt_event_view(e) == push_rule(nodes.top@, nodes.git_ref@, nodes.commits@, commit_nodes_views(nodes.items@)),
{
    if !object_node(&nodes.top) {
        return None;
    }
    let r = match text_or_empty_of(&nodes.git_ref) {
        Some(r) => r,
        None => return None,
    };
    let commits = match &nodes.commits {
        JsonNode::Missing => {
            let v: Vec<PushCommit> = Vec::new();
            assert(v@.map_values(|c: PushCommit| (c.id@, c.message@, c.url@)) =~= Seq::empty());
            v
        },
        JsonNode::Array(_) => match commits_from(&nodes.items) {
            Some(cs) => cs,
            None => return None,
        },
        _ => return None,
    };
    let branch = strip_branch_ref(r.as_str());
    Some(WebhookEvent::Push { branch, commits })
}

/// A pull request event from what the pointers of its body found, by
/// [`pull_request_rule`].
pub fn pull_request_event(nodes: &PullRequestNodes) -> (e: Option<WebhookEvent>)
    ensures
        opt_event_view(e) == pull_request_rule(*nodes),
{
    if !object_node(&nodes.top) || !object_node(&nodes.pull_request) || !object_node(&nodes.head) {
        return None;
    }
    let action = match text_or_empty_of(&nodes.action) {
        Some(a) => a,
        None => return None,
    };
    let number: i64 = match &nodes.number {
        JsonNode::Missing => 0,
        JsonNode::Number(Some(v)) => *v,
        _ => return None,
    };
    let title = match text_or_empty_of(&nodes.title) {
        Some(t) => t,
        None => return None,
    };
    let html_url = match text_or_empty_of(&nodes.html_url) {
        Some(u) => u,
        None => return None,
    };
    let merged_flag = match &nodes.merged {
        JsonNode::Missing => false,
        JsonNode::Bool(b) => *b,
        _ => return None,
    };
    let merged_at = match text_optional_of(&nodes.merged_at) {
        Some(m) => m,
        None => return None,
    };
    let branch = match text_or_empty_of(&nodes.head_ref) {
        Some(b) => b,
        None => return None,
    };
    let merged = merged_flag || merged_at.is_some();
    Some(WebhookEvent::PullRequest { action, branch, merged, number, title, html_url })
}

/// A check suite event from what the pointers of its body found, by
/// [`check_suite_rule`].
pub fn check_suite_event(nodes: &CheckSuiteNodes) -> (e: Option<WebhookEvent>)
    ensures
        opt_event_view(e) == check_suite_rule(*nodes),
{
    if !object_node(&nodes.top) || !object_node(&nodes.check_suite) {
        return None;
    }
    let head_sha = match text_or_empty_of(&nodes.head_sha) {
        Some(s) => s,
        None => return None,
    };
    let head_branch = match text_optional_of(&nodes.head_branch) {
        Some(b) => b,
        None => return None,
    };
    let conclusion = match text_optional_of(&nodes.conclusion) {
        Some(c) => c,
        None => return None,
    };
    Some(WebhookEvent::CheckSuite { head_sha, head_branch, conclusion })
}

/// A ref created (`create`) or deleted event from what the pointers of its
/// body found, by [`ref_rule`].
pub fn ref_event(create: bool, nodes: &RefNodes) -> (e: Option<WebhookEvent>)
    ensures
        opt_event_view(e) == ref_rule(create, *nodes),
{
    if !object_node(&nodes.top) {
        return None;
    }
    let ref_name = match text_or_empty_of(&nodes.git_ref) {
        Some(r) => r,
        None => return None,
    };
    let ref_type = match text_or_empty_of(&nodes.ref_type) {
        Some(t) => t,
        None => return None,
    };
    if create {
        Some(WebhookEvent::Create { ref_type, ref_name })
    } else {
        Some(WebhookEvent::Delete { ref_type, ref_name })
    }
}

/// The event read from a body's nodes, or the shape error.
fn shaped_event(event_name: &str, e: Option<WebhookEvent>) -> (res: AppResult<Option<WebhookEvent>>)
    ensures
        e is None ==> res matches Err(AppError::Internal(_)),
        e matches Some(v) ==> res matches Ok(Some(r)) && r == v,
{
    match e {
        Some(v) => Ok(Some(v)),
        None => Err(shape_error(event_name)),
    }
}

/// Parses a webhook body into the event it carries. A body that is not JSON
/// is a `BadRequest` carrying the parser's message; a body without the
/// event's shape is an internal error; an event Atlas does not act on is
/// `Ok(None)`.
pub fn parse_event(event_name: &str, body: &[u8]) -> (res: AppResult<Option<WebhookEvent>>)
    ensures
        json_pointer_of(body@, ""@) matches JsonNodeView::Invalid(msg) ==> (res matches Err(AppError::BadRequest(m))
            && m@ == "invalid webhook JSON: "@ + msg),
        !(json_pointer_of(body@, ""@) is Invalid) ==> match event_rule(event_name@, body@) {
            None => res matches Err(AppError::Internal(_)),
            Some(None) => res matches Ok(None),
            Some(Some(v)) => res matches Ok(Some(e)) && event_view(e) == v,
        },
{
    proof {
        reveal_strlit("push");
        reveal_strlit("pull_request");
        reveal_strlit("check_suite");
        reveal_strlit("create");
        reveal_strlit("delete");
    }
    let top = json_pointer(body, "");
    if let JsonNode::Invalid(msg) = top {
        let mut m = "invalid webhook JSON: ".to_owned();
        m.append(msg.as_str());
        return Err(AppError::BadRequest(m));
    }
    if str_eq(event_name, "push") {
        let git_ref = json_pointer(body, "/ref");
        let commits = json_pointer(body, "/commits");
        let n: usize = match &commits {
            JsonNode::Array(n) => *n,
            _ => 0,
        };
        let items = commit_nodes(body, n);
        let nodes = PushNodes { top, git_ref, commits, items };
        shaped_event(event_name, push_event(&nodes))
    } else if str_eq(event_name, "pull_request") {
        let nodes = PullRequestNodes {
            top,
            pull_request: json_pointer(body, "/pull_request"),
            head: json_pointer(body, "/pull_request/head"),
            action: json_pointer(body, "/action"),
            number: json_pointer(body, "/pull_request/number"),
            title: json_pointer(body, "/pull_request/title"),
            html_url: json_pointer(body, "/pull_request/html_url"),
            merged: json_pointer(body, "/pull_request/merged"),
            merged_at: json_pointer(body, "/pull_request/merged_at"),
            head_ref: json_pointer(body, "/pull_request/head/ref"),
        };
        shaped_event(event_name, pull_request_event(&nodes))
    } else if str_eq(event_name, "check_suite") {
        let nodes = CheckSuiteNodes {
            top,
            check_suite: json_pointer(body, "/check_suite"),
            head_sha: json_pointer(body, "/check_suite/head_sha"),
            head_branch: json_pointer(body, "/check_suite/head_branch"),
            conclusion: json_pointer(body, "/check_suite/conclusion"),
        };
        shaped_event(event_name, check_suite_event(&nodes))
    } else if str_eq(event_name, "create") || str_eq(event_name, "delete") {
        let nodes = RefNodes { top, git_ref: json_pointer(body, "/ref"), ref_type: json_pointer(body, "/ref_type") };
        shaped_event(event_name, ref_event(str_eq(event_name, "create"), &nodes))
    } else {
        Ok(None)
    }
}

} // verus!
