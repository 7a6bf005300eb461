//! The pure half of the GitHub REST client: what a token-validation probe's
//! answer means, the CI badge a card shows, and a pull request's merge state.
//!
//! The HTTP calls themselves are made outside this library; their answers are
//! handed to the functions here as plain values.

use chrono::{DateTime, NaiveDateTime};
use vstd::prelude::*;

use crate::error::{AppError, AppResult};
use crate::text::{
    back_ws, chars_of, is_ws, opt_str_view, str_eq, string_of, string_of_range, sub_vec, trim, trim_end,
    trim_vec, usize_to_decimal,
};

verus! {

/// The fixed GitHub REST base: the single outbound host.
pub const GITHUB_API_BASE: &'static str = "https://api.github.com";

/// The header GitHub returns a classic token's scopes in.
pub const SCOPES_HEADER: &'static str = "x-oauth-scopes";

/// The header GitHub returns a token's expiry in.
pub const EXPIRY_HEADER: &'static str = "github-authentication-token-expiration";

/// The instant `%Y-%m-%d %H:%M:%S %z` reads from a text, in Unix seconds.
pub uninterp spec fn offset_time_of(text: Seq<char>) -> Option<int>;

/// `chrono::DateTime::parse_from_str` with the format
/// `%Y-%m-%d %H:%M:%S %z` (a numeric offset such as `+0500`), then
/// `timestamp()`. The contract names the instant, in Unix seconds, and claims
/// that it is a function of the text; which texts the format accepts is
/// chrono's.
#[verifier::external_body]
fn parse_offset_time(text: &str) -> (t: Option<i64>)
    ensures
        match t {
            Some(x) => offset_time_of(text@) == Some(x as int),
            None => offset_time_of(text@) is None,
        },
{
    DateTime::parse_from_str(text, "%Y-%m-%d %H:%M:%S %z").ok().map(|dt| dt.timestamp())
}

/// The instant `%Y-%m-%d %H:%M:%S` reads from a text, taken as UTC, in Unix
/// seconds.
pub uninterp spec fn naive_time_of(text: Seq<char>) -> Option<int>;

/// `chrono::NaiveDateTime::parse_from_str` with the format
/// `%Y-%m-%d %H:%M:%S`, then `and_utc().timestamp()`. The contract names the
/// instant, in Unix seconds, and claims that it is a function of the text.
#[verifier::external_body]
fn parse_naive_time(text: &str) -> (t: Option<i64>)
    ensures
        match t {
            Some(x) => naive_time_of(text@) == Some(x as int),
            None => naive_time_of(text@) is None,
        },
{
    NaiveDateTime::parse_from_str(text, "%Y-%m-%d %H:%M:%S").ok().map(|n| n.and_utc().timestamp())
}

/// `s` without the suffix `zone`, if it ends with it.
pub open spec fn before_suffix(s: Seq<char>, zone: Seq<char>) -> Option<Seq<char>> {
    if s.len() >= zone.len() && s.skip(s.len() - zone.len()) == zone {
        Some(s.take(s.len() - zone.len()))
    } else {
        None
    }
}

/// What the token-expiry header says, in Unix seconds: the trimmed value read
/// with a numeric offset, else (when it ends in ` UTC` or ` GMT`, both +0000)
/// the rest read as UTC. Anything else, an empty value included, is unknown.
pub open spec fn expiry_rule(raw: Seq<char>) -> Option<int> {
    let value = trim(raw);
    if value.len() == 0 {
        None
    } else if offset_time_of(value) is Some {
        offset_time_of(value)
    } else {
        match before_suffix(value, " UTC"@) {
            Some(rest) if naive_time_of(trim_end(rest)) is Some => naive_time_of(trim_end(rest)),
            _ => match before_suffix(value, " GMT"@) {
                Some(rest) => naive_time_of(trim_end(rest)),
                None => None,
            },
        }
    }
}

/// `v` without the suffix `zone`, if it ends with it.
fn strip_suffix(v: &Vec<char>, zone: &str) -> (r: Option<Vec<char>>)
    ensures
        match before_suffix(v@, zone@) {
            Some(s) => r matches Some(w) && w@ == s,
            None => r is None,
        },
{
    let z = crate::text::chars_of(zone);
    if v.len() < z.len() {
        return None;
    }
    let tail = sub_vec(v, v.len() - z.len(), v.len());
    assert(tail@ == v@.skip(v.len() - z.len()));
    if !crate::text::seq_eq(&tail, &z) {
        return None;
    }
    let head = sub_vec(v, 0, v.len() - z.len());
    Some(head)
}

/// `str::trim_end` on characters.
fn trim_end_vec(v: &Vec<char>) -> (out: Vec<char>)
    ensures
        out@ == trim_end(v@),
{
    let mut j = v.len();
    while j > 0 && crate::text::is_ws_char(v[j - 1])
        invariant
            j <= v.len(),
            back_ws(v@, 0, j as int) == back_ws(v@, 0, v.len() as int),
        decreases j,
    {
        j = j - 1;
    }
    sub_vec(v, 0, j)
}

/// Parses the token-expiry header by [`expiry_rule`], in Unix seconds. An
/// unparseable or empty value is unknown, never "never expires".
pub fn parse_token_expiry(raw: &str) -> (t: Option<i64>)
    ensures
        match expiry_rule(raw@) {
            Some(v) => t == Some(v as i64),
            None => t is None,
        },
{
    let value = crate::text::trimmed_chars(raw);
    if value.len() == 0 {
        return None;
    }
    let text = string_of(&value);
    match parse_offset_time(text.as_str()) {
        Some(t) => return Some(t),
        None => {},
    }
    match strip_suffix(&value, " UTC") {
        Some(rest) => {
            let r = trim_end_vec(&rest);
            let s = string_of(&r);
            match parse_naive_time(s.as_str()) {
                Some(t) => return Some(t),
                None => {},
            }
        },
        None => {},
    }
    match strip_suffix(&value, " GMT") {
        Some(rest) => {
            let r = trim_end_vec(&rest);
            let s = string_of(&r);
            parse_naive_time(s.as_str())
        },
        None => None,
    }
}

/// The state of splitting `s` on `,`: the pieces finished so far, and the one
/// being read.
pub open spec fn comma_state(s: Seq<char>) -> (Seq<Seq<char>>, Seq<char>)
    decreases s.len(),
{
    if s.len() == 0 {
        (Seq::empty(), Seq::empty())
    } else {
        let (done, cur) = comma_state(s.drop_last());
        let c = s.last();
        if c == ',' {
            (done.push(cur), Seq::empty())
        } else {
            (done, cur.push(c))
        }
    }
}

/// The pieces of `s` between its commas.
pub open spec fn comma_pieces(s: Seq<char>) -> Seq<Seq<char>> {
    let (done, cur) = comma_state(s);
    done.push(cur)
}

/// The trimmed, non-empty pieces of a run of pieces, in order.
pub open spec fn scopes_of(pieces: Seq<Seq<char>>) -> Seq<Seq<char>>
    decreases pieces.len(),
{
    if pieces.len() == 0 {
        Seq::empty()
    } else {
        let rest = scopes_of(pieces.drop_last());
        let t = trim(pieces.last());
        if t.len() > 0 {
            rest.push(t)
        } else {
            rest
        }
    }
}

/// What the scopes header says: its comma-separated entries, trimmed, empty
/// ones dropped. An absent header, or one with no entries (a fine-grained
/// token), is unknown rather than an empty list, so stored scopes are kept.
pub open spec fn scopes_rule(raw: Option<Seq<char>>) -> Option<Seq<Seq<char>>> {
    match raw {
        None => None,
        Some(r) => if scopes_of(comma_pieces(r)).len() == 0 {
            None
        } else {
            Some(scopes_of(comma_pieces(r)))
        },
    }
}

/// Parses the scopes header by [`scopes_rule`].
pub fn parse_scopes_header(raw: Option<&str>) -> (scopes: Option<Vec<String>>)
    ensures
        match scopes_rule(opt_str_view(raw)) {
            None => scopes is None,
            Some(s) => scopes matches Some(v) && v@.map_values(|x: String| x@) == s,
        },
{
    let r = match raw {
        Some(r) => r,
        None => return None,
    };
    let v = crate::text::chars_of(r);
    let mut done: Vec<String> = Vec::new();
    let mut cur: Vec<char> = Vec::new();
    let mut i: usize = 0;
    while i < v.len()
        invariant
            i <= v.len(),
            v@ == r@,
            ({
                let (d, c) = comma_state(v@.take(i as int));
                done@.map_values(|x: String| x@) == scopes_of(d) && cur@ == c
            }),
        decreases v.len() - i,
    {
        let c = v[i];
        proof {
            assert(v@.take(i + 1).drop_last() == v@.take(i as int));
            assert(v@.take(i + 1).last() == c);
        }
        let ghost d0 = comma_state(v@.take(i as int)).0;
        if c == ',' {
            proof {
                assert(d0.push(cur@).drop_last() == d0);
                assert(d0.push(cur@).last() == cur@);
            }
            let t = trim_vec(&cur);
            if t.len() > 0 {
                done.push(string_of(&t));
                assert(done@.map_values(|x: String| x@) == done@.drop_last().map_values(|x: String| x@).push(t@));
            }
            cur = Vec::new();
        } else {
            cur.push(c);
        }
        i = i + 1;
    }
    assert(v@.take(v.len() as int) == v@);
    let ghost d1 = comma_state(v@).0;
    proof {
        assert(d1.push(cur@).drop_last() == d1);
        assert(d1.push(cur@).last() == cur@);
    }
    let t = trim_vec(&cur);
    if t.len() > 0 {
        done.push(string_of(&t));
        assert(done@.map_values(|x: String| x@) == done@.drop_last().map_values(|x: String| x@).push(t@));
    }
    assert(done@.map_values(|x: String| x@).len() == done@.len());
    if done.len() == 0 {
        None
    } else {
        Some(done)
    }
}

/// Whether a stored credential works.
#[derive(Debug, Clone, Copy, PartialEq, Eq, Structural)]
pub enum CredentialStatus {
    /// The token works now.
    Valid,
    /// The token is revoked, or lacks the access the probe needs.
    Invalid,
}

/// What a validation probe found out about a token.
#[derive(Debug, Clone, PartialEq, Eq)]
pub struct ValidationOutcome {
    /// Whether the token works.
    pub status: CredentialStatus,
    /// Its scopes, or `None` when unknown.
    pub scopes: Option<Vec<String>>,
    /// When it expires, in Unix seconds, or `None` when unknown.
    pub expires_at: Option<i64>,
}

/// The text `reqwest::StatusCode` displays for a status code: its number
/// and canonical reason.
pub uninterp spec fn status_text_of(code: u16) -> Seq<char>;

/// `reqwest::StatusCode::from_u16` and its `Display`. The crate accepts
/// exactly the codes from 100 to 999 and displays the code followed by its
/// canonical reason (or a placeholder for a code with none); the text is
/// named here, not spelled out.
#[verifier::external_body]
fn status_text(code: u16) -> (t: String)
    requires
        100 <= code <= 999,
    ensures
        t@ == status_text_of(code),
{
    match reqwest::StatusCode::from_u16(code) {
        Ok(status) => status.to_string(),
        Err(err) => err.to_string(),
    }
}

/// The text of the internal error for an unexpected probe status.
pub open spec fn unexpected_status_message(status: u16) -> Seq<char> {
    "GitHub returned an unexpected status "@ + status_text_of(status)
        + " from GET /user while validating a token; not recording the credential as invalid on a transient failure"@
}

/// Classifies a `GET /user` answer: a 2xx is `Valid`, with the scopes and
/// expiry its headers carry; a 401 or 403 is `Invalid`, asserting nothing
/// else; anything else is an internal error, because a transient failure must
/// not mark a good credential dead.
pub fn interpret_user_response(status: u16, scopes_header: Option<&str>, expiry_header: Option<&str>) -> (res:
    AppResult<ValidationOutcome>)
    requires
        100 <= status <= 999,
    ensures
        200 <= status <= 299 ==> (res matches Ok(o) && o.status == CredentialStatus::Valid && (match scopes_rule(
            opt_str_view(scopes_header),
        ) {
            None => o.scopes is None,
            Some(s) => o.scopes matches Some(v) && v@.map_values(|x: String| x@) == s,
        }) && (match expiry_header {
            None => o.expires_at is None,
            Some(e) => match expiry_rule(e@) {
                Some(t) => o.expires_at == Some(t as i64),
                None => o.expires_at is None,
            },
        })),
        (status == 401 || status == 403) ==> (res matches Ok(o) && o.status == CredentialStatus::Invalid
            && o.scopes is None && o.expires_at is None),
        !(200 <= status <= 299 || status == 401 || status == 403) ==> (res matches Err(AppError::Internal(m))
            && m@ == unexpected_status_message(status)),
{
    if 200 <= status && status <= 299 {
        let scopes = parse_scopes_header(scopes_header);
        let expires_at = match expiry_header {
            Some(e) => parse_token_expiry(e),
            None => None,
        };
        return Ok(ValidationOutcome { status: CredentialStatus::Valid, scopes, expires_at });
    }
    if status == 401 || status == 403 {
        return Ok(ValidationOutcome { status: CredentialStatus::Invalid, scopes: None, expires_at: None });
    }
    let mut m = "GitHub returned an unexpected status ".to_owned();
    let d = status_text(status);
    m.append(d.as_str());
    m.append(
        " from GET /user while validating a token; not recording the credential as invalid on a transient failure",
    );
    Err(AppError::Internal(m))
}

/// A single GitHub check run, reduced to the two fields the rollup needs.
#[derive(Debug, Clone, PartialEq, Eq)]
pub struct CheckRun {
    /// `queued`, `in_progress`, `completed`, ...
    pub status: String,
    /// The conclusion once completed: `success`, `failure`, ..., or `None`.
    pub conclusion: Option<String>,
}

/// The single CI badge a card shows.
#[derive(Debug, Clone, Copy, PartialEq, Eq, Structural)]
pub enum CiState {
    /// Something succeeded and nothing failed or is still running.
    Passed,
    /// Something is still queued or in progress.
    Running,
    /// Something failed, errored, timed out, or needs action.
    Failed,
    /// Nothing conclusive: no CI, or only skipped, cancelled or neutral results.
    Neutral,
}

/// The plain form of check runs: `(status, conclusion)`.
pub open spec fn runs_view(runs: Seq<CheckRun>) -> Seq<(Seq<char>, Option<Seq<char>>)> {
    runs.map_values(|r: CheckRun| (r.status@, crate::text::opt_string_view(r.conclusion)))
}

/// Whether a check run's conclusion is a failure.
pub open spec fn run_failed(r: (Seq<char>, Option<Seq<char>>)) -> bool {
    r.1 == Some("failure"@) || r.1 == Some("timed_out"@) || r.1 == Some("action_required"@)
}

/// The CI badge, failure first: any failing status or run is `Failed`; else
/// anything pending or not completed is `Running`; else anything that
/// succeeded is `Passed`; else `Neutral`.
pub open spec fn ci_rule(combined: Option<Seq<char>>, runs: Seq<(Seq<char>, Option<Seq<char>>)>) -> CiState {
    if combined == Some("failure"@) || combined == Some("error"@) || exists|i: int|
        0 <= i < runs.len() && run_failed(#[trigger] runs[i]) {
        CiState::Failed
    } else if combined == Some("pending"@) || exists|i: int|
        0 <= i < runs.len() && (#[trigger] runs[i]).0 != "completed"@ {
        CiState::Running
    } else if combined == Some("success"@) || exists|i: int|
        0 <= i < runs.len() && (#[trigger] runs[i]).1 == Some("success"@) {
        CiState::Passed
    } else {
        CiState::Neutral
    }
}

/// The badge is `Failed` exactly when the combined status is `failure` or
/// `error`, or some check run concluded `failure`, `timed_out` or
/// `action_required`: failure comes first, whatever else is running or passed.
pub proof fn lemma_failures_fail_the_badge(combined: Option<Seq<char>>, runs: Seq<(Seq<char>, Option<Seq<char>>)>)
    ensures
        ci_rule(combined, runs) == CiState::Failed <==> (combined == Some("failure"@) || combined == Some("error"@)
            || exists|i: int|
            0 <= i < runs.len() && (#[trigger] runs[i].1 == Some("failure"@) || runs[i].1 == Some("timed_out"@)
                || runs[i].1 == Some("action_required"@))),
{
    if exists|i: int|
        0 <= i < runs.len() && (#[trigger] runs[i].1 == Some("failure"@) || runs[i].1 == Some("timed_out"@)
            || runs[i].1 == Some("action_required"@)) {
        let i = choose|i: int|
            0 <= i < runs.len() && (#[trigger] runs[i].1 == Some("failure"@) || runs[i].1 == Some("timed_out"@)
                || runs[i].1 == Some("action_required"@));
        assert(run_failed(runs[i]));
    }
}

/// After failures, the badge's precedence: anything pending or not completed
/// is `Running`; else a success anywhere is `Passed`; else `Neutral`.
pub proof fn lemma_badge_precedence(combined: Option<Seq<char>>, runs: Seq<(Seq<char>, Option<Seq<char>>)>)
    requires
        ci_rule(combined, runs) != CiState::Failed,
    ensures
        ci_rule(combined, runs) == CiState::Running <==> (combined == Some("pending"@) || exists|i: int|
            0 <= i < runs.len() && (#[trigger] runs[i]).0 != "completed"@),
        ci_rule(combined, runs) == CiState::Passed <==> (!(combined == Some("pending"@) || exists|i: int|
            0 <= i < runs.len() && (#[trigger] runs[i]).0 != "completed"@) && (combined == Some("success"@) || exists|i: int|
            0 <= i < runs.len() && (#[trigger] runs[i]).1 == Some("success"@))),
{
}

/// Whether an optional text is `Some(lit)`.
fn is_some_text(o: &Option<String>, lit: &str) -> (b: bool)
    ensures
        b == (crate::text::opt_string_view(*o) == Some(lit@)),
{
    match o {
        Some(s) => str_eq(s.as_str(), lit),
        None => false,
    }
}

/// Folds legacy commit statuses (`combined_state`) and check runs into one
/// badge, by [`ci_rule`].
pub fn ci_rollup(combined_state: Option<&str>, runs: &Vec<CheckRun>) -> (state: CiState)
    ensures
        state == ci_rule(opt_str_view(combined_state), runs_view(runs@)),
{
    let ghost rv = runs_view(runs@);
    let (sf, sp, ss) = match combined_state {
        Some(c) => (str_eq(c, "failure") || str_eq(c, "error"), str_eq(c, "pending"), str_eq(c, "success")),
        None => (false, false, false),
    };
    let mut failed = false;
    let mut running = false;
    let mut passed = false;
    let mut i: usize = 0;
    while i < runs.len()
        invariant
            i <= runs.len(),
            rv == runs_view(runs@),
            rv.len() == runs@.len(),
            failed == exists|k: int| 0 <= k < i && run_failed(#[trigger] rv[k]),
            running == exists|k: int| 0 <= k < i && (#[trigger] rv[k]).0 != "completed"@,
            passed == exists|k: int| 0 <= k < i && (#[trigger] rv[k]).1 == Some("success"@),
        decreases runs.len() - i,
    {
        let r = &runs[i];
        assert(rv[i as int] == (r.status@, crate::text::opt_string_view(r.conclusion)));
        let f = is_some_text(&r.conclusion, "failure") || is_some_text(&r.conclusion, "timed_out")
            || is_some_text(&r.conclusion, "action_required");
        let n = !str_eq(r.status.as_str(), "completed");
        let p = is_some_text(&r.conclusion, "success");
        failed = failed || f;
        running = running || n;
        passed = passed || p;
        i = i + 1;
    }
    if sf || failed {
        CiState::Failed
    } else if sp || running {
        CiState::Running
    } else if ss || passed {
        CiState::Passed
    } else {
        CiState::Neutral
    }
}

/// The merge state of a pull request.
#[derive(Debug, Clone, Copy, PartialEq, Eq, Structural)]
pub enum PrState {
    /// Still open.
    Open,
    /// Merged: the only signal that a card should advance to Done.
    Merged,
    /// Closed without merging.
    Closed,
}

/// Resolves a PR's merge state: `state` is only ever `open` or `closed`, so
/// `merged` alone says whether it merged.
pub fn pr_state(state: &str, merged: bool) -> (s: PrState)
    ensures
        s == (if merged {
            PrState::Merged
        } else if state@ == "closed"@ {
            PrState::Closed
        } else {
            PrState::Open
        }),
{
    if merged {
        PrState::Merged
    } else if str_eq(state, "closed") {
        PrState::Closed
    } else {
        PrState::Open
    }
}

/// A repository as the repo picker shows it.
#[derive(Debug, Clone, PartialEq, Eq)]
pub struct RepoSummary {
    /// GitHub's immutable numeric id.
    pub id: i64,
    /// `owner/name`.
    pub full_name: String,
    /// The default branch, the base new branches are cut from.
    pub default_branch: String,
    /// Whether the token can push.
    pub can_push: bool,
    /// Whether the repo is private.
    pub private: bool,
}

/// A pull request, reduced to what a card shows.
#[derive(Debug, Clone, PartialEq, Eq)]
pub struct PrSummary {
    /// The PR number.
    pub number: i64,
    /// The PR title.
    pub title: String,
    /// The browser URL.
    pub html_url: String,
    /// Open, merged or closed, by [`pr_state`].
    pub state: PrState,
}

/// A commit on a card's branch.
#[derive(Debug, Clone, PartialEq, Eq)]
pub struct CommitSummary {
    /// The full SHA.
    pub sha: String,
    /// The first line of the message.
    pub message: String,
    /// The browser URL.
    pub html_url: String,
}

/// A pull request's summary from what the API sent: it merged when `merged` is
/// true or `merged_at` is set.
pub fn pull_to_summary(number: i64, title: String, html_url: String, state: &str, merged: bool, merged_at: Option<
    String,
>) -> (s: PrSummary)
    ensures
        s.number == number,
        s.title@ == title@,
        s.html_url@ == html_url@,
        s.state == (if merged || merged_at is Some {
            PrState::Merged
        } else if state@ == "closed"@ {
            PrState::Closed
        } else {
            PrState::Open
        }),
{
    let m = merged || merged_at.is_some();
    PrSummary { number, title, html_url, state: pr_state(state, m) }
}

/// The Git reference a new branch is created under.
pub fn branch_ref(name: &str) -> (r: String)
    ensures
        r@ == "refs/heads/"@ + name@,
{
    let mut r = "refs/heads/".to_owned();
    r.append(name);
    r
}

/// What an answer to creating a branch means.
#[derive(Debug, Clone, Copy, PartialEq, Eq, Structural)]
pub enum BranchOutcome {
    /// A 2xx: the branch was created.
    Created,
    /// A 422: the reference already exists. Creating a branch twice is
    /// harmless, so this counts as done.
    AlreadyThere,
    /// Anything else: a failure to report.
    Failed,
}

/// Reads the HTTP status GitHub answered a branch creation with.
pub fn branch_outcome(status: u16) -> (o: BranchOutcome)
    ensures
        o == (if status == 422 {
            BranchOutcome::AlreadyThere
        } else if 200 <= status < 300 {
            BranchOutcome::Created
        } else {
            BranchOutcome::Failed
        }),
{
    if status == 422 {
        BranchOutcome::AlreadyThere
    } else if 200 <= status && status < 300 {
        BranchOutcome::Created
    } else {
        BranchOutcome::Failed
    }
}

/// How many repositories one page of the picker asks for: GitHub serves
/// between 1 and 100.
pub fn clamp_per_page(per_page: u32) -> (n: u32)
    ensures
        n == (if per_page < 1 {
            1
        } else if per_page > 100 {
            100
        } else {
            per_page
        }),
{
    if per_page < 1 {
        1
    } else if per_page > 100 {
        100
    } else {
        per_page
    }
}

/// A repository as the picker shows it: the token can push only where the
/// API reported a `push` permission.
pub fn repo_to_summary(id: i64, full_name: String, default_branch: String, private: bool, push: Option<bool>) -> (r:
    RepoSummary)
    ensures
        r.id == id,
        r.full_name@ == full_name@,
        r.default_branch@ == default_branch@,
        r.private == private,
        r.can_push == (push == Some(true)),
{
    let can_push = match push {
        Some(p) => p,
        None => false,
    };
    RepoSummary { id, full_name, default_branch, can_push, private }
}

/// The first line of a text, as `str::lines` yields it: up to the first line
/// feed, without the carriage return of a `\r\n` ending; the whole text when
/// it holds no line feed.
pub open spec fn first_line(s: Seq<char>) -> Seq<char> {
    if exists|i: int| 0 <= i < s.len() && s[i] == '\n' {
        let i = choose|i: int| 0 <= i < s.len() && s[i] == '\n' && forall|j: int| 0 <= j < i ==> s[j] != '\n';
        if i > 0 && s[i - 1] == '\r' {
            s.take(i - 1)
        } else {
            s.take(i)
        }
    } else {
        s
    }
}

/// A commit on a card's branch, with the subject line of its message.
pub fn commit_to_summary(sha: String, message: &str, html_url: String) -> (c: CommitSummary)
    ensures
        c.sha@ == sha@,
        c.message@ == first_line(message@),
        c.html_url@ == html_url@,
{
    let chars = chars_of(message);
    let mut i: usize = 0;
    while i < chars.len() && chars[i] != '\n'
        invariant
            i <= chars.len(),
            chars@ == message@,
            forall|j: int| 0 <= j < i ==> chars@[j] != '\n',
        decreases chars.len() - i,
    {
        i = i + 1;
    }
    let ghost s = message@;
    proof {
        if i < chars.len() {
            assert(s[i as int] == '\n');
            let k = choose|k: int| 0 <= k < s.len() && s[k] == '\n' && forall|j: int| 0 <= j < k ==> s[j] != '\n';
            assert(k == i) by {
                if k < i {
                    assert(s[k] != '\n');
                } else if k > i {
                    assert(s[i as int] != '\n');
                }
            }
        } else {
            assert(!(exists|k: int| 0 <= k < s.len() && s[k] == '\n'));
        }
    }
    let end: usize = if i < chars.len() && i > 0 && chars[i - 1] == '\r' {
        i - 1
    } else {
        i
    };
    let line = string_of_range(&chars, 0, end);
    proof {
        assert(s.subrange(0, end as int) =~= s.take(end as int));
        if i >= chars.len() {
            assert(s.take(end as int) =~= s);
        }
    }
    CommitSummary { sha, message: line, html_url }
}

} // verus!
