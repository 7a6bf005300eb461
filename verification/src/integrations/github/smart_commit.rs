//! Smart commits: `ATLAS-42 #done #comment fixed it #time 2h 30m` in a commit
//! message, read as commands on cards.
//!
//! The grammar:
//!
//! - Card keys lead the line. A key anywhere else starts nothing.
//! - Commands are `#word [argument]`, split on `#`; an argument runs to the
//!   next `#`.
//! - A bare key (no command) only links the commit to the card.
//! - Directives are case-insensitive; keys are upper-cased.
//! - Time is `w`/`d`/`h`/`m` tokens summed to whole minutes on a working
//!   calendar (1w = 5d, 1d = 8h), with any trailing words kept as a note.
//!
//! A key is recognised by shape alone, `LETTER (LETTER|DIGIT)* '-' DIGIT+`, so
//! `SHA-256` parses as a candidate; whether it names a real card is decided
//! where the commands are applied.

use vstd::prelude::*;

use crate::domain::comment::{body_rule, validate_body};
use crate::domain::config::Status;
use crate::domain::StatusCategory;
use crate::error::{AppError, AppResult};
use crate::text::{
    all_chars, is_alnum, is_alnum_char, is_alpha, is_alpha_char, is_digit, is_digit_char, is_ws,
    is_ws_char, lower_char, lower_seq, push_char, seq_eq, skip_ws_from, str_eq, string_of, sub_vec,
    trim, trim_start, trim_start_vec, trim_vec, upper_char, upper_seq,
};

verus! {

/// A single command parsed from a smart-commit directive.
#[derive(Debug, Clone, PartialEq, Eq)]
pub enum Command {
    /// A transition directive such as `#done`: the word, lower-cased.
    Transition(String),
    /// A `#comment <text>` directive.
    Comment(String),
    /// A `#time <2w 3d 4h 30m> [note]` directive, in whole minutes (> 0).
    Time {
        /// The logged duration in whole minutes.
        minutes: i64,
        /// Any words after the duration, kept as the worklog note.
        note: Option<String>,
    },
}

/// The plain form of a [`Command`].
pub enum CommandView {
    /// A transition directive, lower-cased.
    Transition(Seq<char>),
    /// A comment.
    Comment(Seq<char>),
    /// A worklog: minutes and an optional note.
    Time(int, Option<Seq<char>>),
}

impl View for Command {
    type V = CommandView;

    open spec fn view(&self) -> CommandView {
        match self {
            Command::Transition(t) => CommandView::Transition(t@),
            Command::Comment(c) => CommandView::Comment(c@),
            Command::Time { minutes, note } => CommandView::Time(
                *minutes as int,
                crate::text::opt_string_view(*note),
            ),
        }
    }
}

/// One line of a message that led with card keys: the keys, and the commands
/// to apply to each of them. Keys with no commands only link the commit.
#[derive(Debug, Clone, PartialEq, Eq)]
pub struct SmartCommit {
    /// The card keys the line led with, upper-cased and de-duplicated in order.
    pub keys: Vec<String>,
    /// The commands to apply to each key. Empty means "link only".
    pub commands: Vec<Command>,
}

/// The plain form of a [`SmartCommit`]: its keys and its commands.
pub open spec fn commit_view(c: SmartCommit) -> (Seq<Seq<char>>, Seq<CommandView>) {
    (c.keys@.map_values(|k: String| k@), c.commands@.map_values(|m: Command| m@))
}

impl SmartCommit {
    /// Whether this is a bare link: keys, but nothing to do.
    pub fn is_link_only(&self) -> (b: bool)
        ensures
            b == (self.commands@.len() == 0),
    {
        self.commands.len() == 0
    }
}

// ---------------------------------------------------------------------------
// Keys
// ---------------------------------------------------------------------------

/// `t` without the characters at its end that are not ASCII letters or digits.
pub open spec fn trim_end_non_alnum(t: Seq<char>) -> Seq<char>
    decreases t.len(),
{
    if t.len() > 0 && !is_alnum(t.last()) {
        trim_end_non_alnum(t.drop_last())
    } else {
        t
    }
}

/// The index of the last `-` in `t`, or -1.
pub open spec fn last_dash(t: Seq<char>) -> int
    decreases t.len(),
{
    if t.len() == 0 {
        -1
    } else if t.last() == '-' {
        t.len() - 1
    } else {
        last_dash(t.drop_last())
    }
}

/// The card key a token names, upper-cased, when (less trailing punctuation)
/// it has the shape `LETTER (LETTER|DIGIT)* '-' DIGIT+`, split at its last
/// dash.
pub open spec fn key_of(token: Seq<char>) -> Option<Seq<char>> {
    let t = trim_end_non_alnum(token);
    let d = last_dash(t);
    if d < 0 {
        None
    } else {
        let project = t.take(d);
        let number = t.skip(d + 1);
        if project.len() > 0 && is_alpha(project[0]) && all_chars(project, |c: char| is_alnum(c))
            && number.len() > 0 && all_chars(number, |c: char| is_digit(c)) {
            Some(upper_seq(t))
        } else {
            None
        }
    }
}

proof fn lemma_last_dash_bounds(t: Seq<char>)
    ensures
        -1 <= last_dash(t) < t.len(),
        last_dash(t) >= 0 ==> t[last_dash(t)] == '-',
        forall|k: int| last_dash(t) < k < t.len() ==> t[k] != '-',
    decreases t.len(),
{
    if t.len() > 0 && t.last() != '-' {
        lemma_last_dash_bounds(t.drop_last());
        assert forall|k: int| last_dash(t) < k < t.len() implies t[k] != '-' by {
            if k < t.len() - 1 {
                assert(t[k] == t.drop_last()[k]);
            }
        }
    }
}

/// The upper-cased text of `v`.
fn upper_string(v: &Vec<char>) -> (out: String)
    ensures
        out@ == upper_seq(v@),
{
    let mut out = String::new();
    let mut i: usize = 0;
    while i < v.len()
        invariant
            i <= v.len(),
            out@ == upper_seq(v@.take(i as int)),
        decreases v.len() - i,
    {
        push_char(&mut out, upper_char(v[i]));
        assert(upper_seq(v@.take(i + 1)) == upper_seq(v@.take(i as int)).push(crate::text::upper(v@[i as int])));
        i = i + 1;
    }
    assert(v@.take(v.len() as int) == v@);
    out
}

/// Whether every character of `v` is an ASCII letter or digit.
fn all_alnum(v: &Vec<char>) -> (b: bool)
    ensures
        b == all_chars(v@, |c: char| is_alnum(c)),
{
    let mut i: usize = 0;
    while i < v.len()
        invariant
            i <= v.len(),
            forall|k: int| 0 <= k < i ==> is_alnum(#[trigger] v@[k]),
        decreases v.len() - i,
    {
        if !is_alnum_char(v[i]) {
            proof {
                let p = |c: char| is_alnum(c);
                assert(!p(v@[i as int]));
            }
            return false;
        }
        i = i + 1;
    }
    true
}

/// Whether every character of `v` is an ASCII digit.
fn all_digits(v: &Vec<char>) -> (b: bool)
    ensures
        b == all_chars(v@, |c: char| is_digit(c)),
{
    let mut i: usize = 0;
    while i < v.len()
        invariant
            i <= v.len(),
            forall|k: int| 0 <= k < i ==> is_digit(#[trigger] v@[k]),
        decreases v.len() - i,
    {
        if !is_digit_char(v[i]) {
            proof {
                let p = |c: char| is_digit(c);
                assert(!p(v@[i as int]));
            }
            return false;
        }
        i = i + 1;
    }
    true
}

/// The card key `token` names, by [`key_of`].
fn card_key(token: &Vec<char>) -> (key: Option<String>)
    ensures
        crate::text::opt_string_view(key) == key_of(token@),
{
    let mut e = token.len();
    assert(token@.take(e as int) == token@);
    while e > 0 && !is_alnum_char(token[e - 1])
        invariant
            e <= token.len(),
            trim_end_non_alnum(token@.take(e as int)) == trim_end_non_alnum(token@),
        decreases e,
    {
        assert(token@.take(e as int).drop_last() == token@.take(e - 1));
        e = e - 1;
    }
    proof {
        assert(token@.take(token.len() as int) == token@);
        if e > 0 {
            assert(token@.take(e as int).last() == token@[e - 1]);
        }
    }
    let t = sub_vec(token, 0, e);
    assert(t@ == trim_end_non_alnum(token@));
    let mut d = t.len();
    assert(t@.take(d as int) == t@);
    while d > 0 && t[d - 1] != '-'
        invariant
            d <= t.len(),
            last_dash(t@.take(d as int)) == last_dash(t@),
        decreases d,
    {
        assert(t@.take(d as int).drop_last() == t@.take(d - 1));
        d = d - 1;
    }
    proof {
        assert(t@.take(t.len() as int) == t@);
        if d > 0 {
            assert(t@.take(d as int).last() == t@[d - 1]);
            assert(last_dash(t@.take(d as int)) == d - 1);
        } else {
            assert(last_dash(t@.take(0)) == -1);
        }
    }
    if d == 0 {
        return None;
    }
    let dash = d - 1;
    let project = sub_vec(&t, 0, dash);
    let number = sub_vec(&t, dash + 1, t.len());
    proof {
        assert(project@ == t@.take(dash as int));
        assert(number@ == t@.skip(dash + 1));
    }
    if project.len() == 0 || !is_alpha_char(project[0]) {
        return None;
    }
    if !all_alnum(&project) || number.len() == 0 || !all_digits(&number) {
        return None;
    }
    Some(upper_string(&t))
}

/// The directive words that move a card, and the category each targets:
/// `#done` and its synonyms close the card, `#in-progress` starts it,
/// `#reopen` and `#todo` send it back. Anything else is not guessed at.
pub open spec fn directive_rule(d: Seq<char>) -> Option<StatusCategory> {
    if d == "done"@ || d == "close"@ || d == "closed"@ || d == "closes"@ || d == "resolve"@ || d
        == "resolved"@ || d == "resolves"@ || d == "fix"@ || d == "fixed"@ || d == "fixes"@ || d
        == "complete"@ || d == "completed"@ {
        Some(StatusCategory::Done)
    } else if d == "in-progress"@ || d == "inprogress"@ || d == "progress"@ || d == "start"@ || d
        == "started"@ || d == "doing"@ || d == "wip"@ {
        Some(StatusCategory::InProgress)
    } else if d == "todo"@ || d == "to-do"@ || d == "reopen"@ || d == "reopened"@ || d
        == "reopens"@ || d == "backlog"@ {
        Some(StatusCategory::Todo)
    } else {
        None
    }
}

/// The documented directive words and where each sends a card: every done
/// synonym (`#fixes`, `#closes`, `#resolved`, ...) closes it, the progress
/// words start it, and the reopen words send it back to the start. No other
/// word moves a card.
pub proof fn lemma_directive_words(d: Seq<char>)
    ensures
        d == "done"@ || d == "close"@ || d == "closed"@ || d == "closes"@ || d == "resolve"@ || d == "resolved"@ || d == "resolves"@ || d == "fix"@ || d == "fixed"@ || d == "fixes"@ || d == "complete"@ || d == "completed"@ ==> directive_rule(d) == Some(StatusCategory::Done),
        d == "in-progress"@ || d == "inprogress"@ || d == "progress"@ || d == "start"@ || d == "started"@ || d == "doing"@ || d == "wip"@ ==> directive_rule(d) == Some(StatusCategory::InProgress),
        d == "todo"@ || d == "to-do"@ || d == "reopen"@ || d == "reopened"@ || d == "reopens"@ || d == "backlog"@ ==> directive_rule(d) == Some(StatusCategory::Todo),
        !(d == "done"@ || d == "close"@ || d == "closed"@ || d == "closes"@ || d == "resolve"@ || d == "resolved"@ || d == "resolves"@ || d == "fix"@ || d == "fixed"@ || d == "fixes"@ || d == "complete"@ || d == "completed"@ || d == "in-progress"@ || d == "inprogress"@ || d == "progress"@ || d == "start"@ || d == "started"@ || d == "doing"@ || d == "wip"@ || d == "todo"@ || d == "to-do"@ || d == "reopen"@ || d == "reopened"@ || d == "reopens"@ || d == "backlog"@) ==> directive_rule(d) is None,
{
    reveal_strlit("done");
    reveal_strlit("close");
    reveal_strlit("closed");
    reveal_strlit("closes");
    reveal_strlit("resolve");
    reveal_strlit("resolved");
    reveal_strlit("resolves");
    reveal_strlit("fix");
    reveal_strlit("fixed");
    reveal_strlit("fixes");
    reveal_strlit("complete");
    reveal_strlit("completed");
    reveal_strlit("in-progress");
    reveal_strlit("inprogress");
    reveal_strlit("progress");
    reveal_strlit("start");
    reveal_strlit("started");
    reveal_strlit("doing");
    reveal_strlit("wip");
    reveal_strlit("todo");
    reveal_strlit("to-do");
    reveal_strlit("reopen");
    reveal_strlit("reopened");
    reveal_strlit("reopens");
    reveal_strlit("backlog");
    assert("in-progress"@.len() != "done"@.len());
    assert("in-progress"@.len() != "close"@.len());
    assert("in-progress"@.len() != "closed"@.len());
    assert("in-progress"@.len() != "closes"@.len());
    assert("in-progress"@.len() != "resolve"@.len());
    assert("in-progress"@.len() != "resolved"@.len());
    assert("in-progress"@.len() != "resolves"@.len());
    assert("in-progress"@.len() != "fix"@.len());
    assert("in-progress"@.len() != "fixed"@.len());
    assert("in-progress"@.len() != "fixes"@.len());
    assert("in-progress"@.len() != "complete"@.len());
    assert("in-progress"@.len() != "completed"@.len());
    assert("inprogress"@.len() != "done"@.len());
    assert("inprogress"@.len() != "close"@.len());
    assert("inprogress"@.len() != "closed"@.len());
    assert("inprogress"@.len() != "closes"@.len());
    assert("inprogress"@.len() != "resolve"@.len());
    assert("inprogress"@.len() != "resolved"@.len());
    assert("inprogress"@.len() != "resolves"@.len());
    assert("inprogress"@.len() != "fix"@.len());
    assert("inprogress"@.len() != "fixed"@.len());
    assert("inprogress"@.len() != "fixes"@.len());
    assert("inprogress"@.len() != "complete"@.len());
    assert("inprogress"@.len() != "completed"@.len());
    assert("progress"@.len() != "done"@.len());
    assert("progress"@.len() != "close"@.len());
    assert("progress"@.len() != "closed"@.len());
    assert("progress"@.len() != "closes"@.len());
    assert("progress"@.len() != "resolve"@.len());
    assert("progress"@[0] != "resolved"@[0]);
    assert("progress"@[0] != "resolves"@[0]);
    assert("progress"@.len() != "fix"@.len());
    assert("progress"@.len() != "fixed"@.len());
    assert("progress"@.len() != "fixes"@.len());
    assert("progress"@[0] != "complete"@[0]);
    assert("progress"@.len() != "completed"@.len());
    assert("start"@.len() != "done"@.len());
    assert("start"@[0] != "close"@[0]);
    assert("start"@.len() != "closed"@.len());
    assert("start"@.len() != "closes"@.len());
    assert("start"@.len() != "resolve"@.len());
    assert("start"@.len() != "resolved"@.len());
    assert("start"@.len() != "resolves"@.len());
    assert("start"@.len() != "fix"@.len());
    assert("start"@[0] != "fixed"@[0]);
    assert("start"@[0] != "fixes"@[0]);
    assert("start"@.len() != "complete"@.len());
    assert("start"@.len() != "completed"@.len());
    assert("started"@.len() != "done"@.len());
    assert("started"@.len() != "close"@.len());
    assert("started"@.len() != "closed"@.len());
    assert("started"@.len() != "closes"@.len());
    assert("started"@[0] != "resolve"@[0]);
    assert("started"@.len() != "resolved"@.len());
    assert("started"@.len() != "resolves"@.len());
    assert("started"@.len() != "fix"@.len());
    assert("started"@.len() != "fixed"@.len());
    assert("started"@.len() != "fixes"@.len());
    assert("started"@.len() != "complete"@.len());
    assert("started"@.len() != "completed"@.len());
    assert("doing"@.len() != "done"@.len());
    assert("doing"@[0] != "close"@[0]);
    assert("doing"@.len() != "closed"@.len());
    assert("doing"@.len() != "closes"@.len());
    assert("doing"@.len() != "resolve"@.len());
    assert("doing"@.len() != "resolved"@.len());
    assert("doing"@.len() != "resolves"@.len());
    assert("doing"@.len() != "fix"@.len());
    assert("doing"@[0] != "fixed"@[0]);
    assert("doing"@[0] != "fixes"@[0]);
    assert("doing"@.len() != "complete"@.len());
    assert("doing"@.len() != "completed"@.len());
    assert("wip"@.len() != "done"@.len());
    assert("wip"@.len() != "close"@.len());
    assert("wip"@.len() != "closed"@.len());
    assert("wip"@.len() != "closes"@.len());
    assert("wip"@.len() != "resolve"@.len());
    assert("wip"@.len() != "resolved"@.len());
    assert("wip"@.len() != "resolves"@.len());
    assert("wip"@[0] != "fix"@[0]);
    assert("wip"@.len() != "fixed"@.len());
    assert("wip"@.len() != "fixes"@.len());
    assert("wip"@.len() != "complete"@.len());
    assert("wip"@.len() != "completed"@.len());
    assert("todo"@[0] != "done"@[0]);
    assert("todo"@.len() != "close"@.len());
    assert("todo"@.len() != "closed"@.len());
    assert("todo"@.len() != "closes"@.len());
    assert("todo"@.len() != "resolve"@.len());
    assert("todo"@.len() != "resolved"@.len());
    assert("todo"@.len() != "resolves"@.len());
    assert("todo"@.len() != "fix"@.len());
    assert("todo"@.len() != "fixed"@.len());
    assert("todo"@.len() != "fixes"@.len());
    assert("todo"@.len() != "complete"@.len());
    assert("todo"@.len() != "completed"@.len());
    assert("todo"@.len() != "in-progress"@.len());
    assert("todo"@.len() != "inprogress"@.len());
    assert("todo"@.len() != "progress"@.len());
    assert("todo"@.len() != "start"@.len());
    assert("todo"@.len() != "started"@.len());
    assert("todo"@.len() != "doing"@.len());
    assert("todo"@.len() != "wip"@.len());
    assert("to-do"@.len() != "done"@.len());
    assert("to-do"@[0] != "close"@[0]);
    assert("to-do"@.len() != "closed"@.len());
    assert("to-do"@.len() != "closes"@.len());
    assert("to-do"@.len() != "resolve"@.len());
    assert("to-do"@.len() != "resolved"@.len());
    assert("to-do"@.len() != "resolves"@.len());
    assert("to-do"@.len() != "fix"@.len());
    assert("to-do"@[0] != "fixed"@[0]);
    assert("to-do"@[0] != "fixes"@[0]);
    assert("to-do"@.len() != "complete"@.len());
    assert("to-do"@.len() != "completed"@.len());
    assert("to-do"@.len() != "in-progress"@.len());
    assert("to-do"@.len() != "inprogress"@.len());
    assert("to-do"@.len() != "progress"@.len());
    assert("to-do"@[0] != "start"@[0]);
    assert("to-do"@.len() != "started"@.len());
    assert("to-do"@[0] != "doing"@[0]);
    assert("to-do"@.len() != "wip"@.len());
    assert("reopen"@.len() != "done"@.len());
    assert("reopen"@.len() != "close"@.len());
    assert("reopen"@[0] != "closed"@[0]);
    assert("reopen"@[0] != "closes"@[0]);
    assert("reopen"@.len() != "resolve"@.len());
    assert("reopen"@.len() != "resolved"@.len());
    assert("reopen"@.len() != "resolves"@.len());
    assert("reopen"@.len() != "fix"@.len());
    assert("reopen"@.len() != "fixed"@.len());
    assert("reopen"@.len() != "fixes"@.len());
    assert("reopen"@.len() != "complete"@.len());
    assert("reopen"@.len() != "completed"@.len());
    assert("reopen"@.len() != "in-progress"@.len());
    assert("reopen"@.len() != "inprogress"@.len());
    assert("reopen"@.len() != "progress"@.len());
    assert("reopen"@.len() != "start"@.len());
    assert("reopen"@.len() != "started"@.len());
    assert("reopen"@.len() != "doing"@.len());
    assert("reopen"@.len() != "wip"@.len());
    assert("reopened"@.len() != "done"@.len());
    assert("reopened"@.len() != "close"@.len());
    assert("reopened"@.len() != "closed"@.len());
    assert("reopened"@.len() != "closes"@.len());
    assert("reopened"@.len() != "resolve"@.len());
    assert("reopened"@[2] != "resolved"@[2]);
    assert("reopened"@[2] != "resolves"@[2]);
    assert("reopened"@.len() != "fix"@.len());
    assert("reopened"@.len() != "fixed"@.len());
    assert("reopened"@.len() != "fixes"@.len());
    assert("reopened"@[0] != "complete"@[0]);
    assert("reopened"@.len() != "completed"@.len());
    assert("reopened"@.len() != "in-progress"@.len());
    assert("reopened"@.len() != "inprogress"@.len());
    assert("reopened"@[0] != "progress"@[0]);
    assert("reopened"@.len() != "start"@.len());
    assert("reopened"@.len() != "started"@.len());
    assert("reopened"@.len() != "doing"@.len());
    assert("reopened"@.len() != "wip"@.len());
    assert("reopens"@.len() != "done"@.len());
    assert("reopens"@.len() != "close"@.len());
    assert("reopens"@.len() != "closed"@.len());
    assert("reopens"@.len() != "closes"@.len());
    assert("reopens"@[2] != "resolve"@[2]);
    assert("reopens"@.len() != "resolved"@.len());
    assert("reopens"@.len() != "resolves"@.len());
    assert("reopens"@.len() != "fix"@.len());
    assert("reopens"@.len() != "fixed"@.len());
    assert("reopens"@.len() != "fixes"@.len());
    assert("reopens"@.len() != "complete"@.len());
    assert("reopens"@.len() != "completed"@.len());
    assert("reopens"@.len() != "in-progress"@.len());
    assert("reopens"@.len() != "inprogress"@.len());
    assert("reopens"@.len() != "progress"@.len());
    assert("reopens"@.len() != "start"@.len());
    assert("reopens"@[0] != "started"@[0]);
    assert("reopens"@.len() != "doing"@.len());
    assert("reopens"@.len() != "wip"@.len());
    assert("backlog"@.len() != "done"@.len());
    assert("backlog"@.len() != "close"@.len());
    assert("backlog"@.len() != "closed"@.len());
    assert("backlog"@.len() != "closes"@.len());
    assert("backlog"@[0] != "resolve"@[0]);
    assert("backlog"@.len() != "resolved"@.len());
    assert("backlog"@.len() != "resolves"@.len());
    assert("backlog"@.len() != "fix"@.len());
    assert("backlog"@.len() != "fixed"@.len());
    assert("backlog"@.len() != "fixes"@.len());
    assert("backlog"@.len() != "complete"@.len());
    assert("backlog"@.len() != "completed"@.len());
    assert("backlog"@.len() != "in-progress"@.len());
    assert("backlog"@.len() != "inprogress"@.len());
    assert("backlog"@.len() != "progress"@.len());
    assert("backlog"@.len() != "start"@.len());
    assert("backlog"@[0] != "started"@[0]);
    assert("backlog"@.len() != "doing"@.len());
    assert("backlog"@.len() != "wip"@.len());
}

/// Maps a transition directive to the status category it targets.
pub fn directive_category(directive: &str) -> (c: Option<StatusCategory>)
    ensures
        c == directive_rule(directive@),
{
    let d = directive;
    if str_eq(d, "done") || str_eq(d, "close") || str_eq(d, "closed") || str_eq(d, "closes")
        || str_eq(d, "resolve") || str_eq(d, "resolved") || str_eq(d, "resolves") || str_eq(d, "fix")
        || str_eq(d, "fixed") || str_eq(d, "fixes") || str_eq(d, "complete") || str_eq(d, "completed") {
        Some(StatusCategory::Done)
    } else if str_eq(d, "in-progress") || str_eq(d, "inprogress") || str_eq(d, "progress") || str_eq(
        d,
        "start",
    ) || str_eq(d, "started") || str_eq(d, "doing") || str_eq(d, "wip") {
        Some(StatusCategory::InProgress)
    } else if str_eq(d, "todo") || str_eq(d, "to-do") || str_eq(d, "reopen") || str_eq(d, "reopened")
        || str_eq(d, "reopens") || str_eq(d, "backlog") {
        Some(StatusCategory::Todo)
    } else {
        None
    }
}

// ---------------------------------------------------------------------------
// Time
// ---------------------------------------------------------------------------

/// The state of splitting `s` into whitespace-separated words: the words
/// finished so far, and the one being read.
pub open spec fn words_state(s: Seq<char>) -> (Seq<Seq<char>>, Seq<char>)
    decreases s.len(),
{
    if s.len() == 0 {
        (Seq::empty(), Seq::empty())
    } else {
        let (done, cur) = words_state(s.drop_last());
        let c = s.last();
        if is_ws(c) {
            if cur.len() > 0 {
                (done.push(cur), Seq::empty())
            } else {
                (done, Seq::empty())
            }
        } else {
            (done, cur.push(c))
        }
    }
}

/// `str::split_whitespace`: the maximal runs of non-whitespace characters.
pub open spec fn words(s: Seq<char>) -> Seq<Seq<char>> {
    let (done, cur) = words_state(s);
    if cur.len() > 0 {
        done.push(cur)
    } else {
        done
    }
}

/// The plain form of a list of character vectors.
pub open spec fn vecs_view(v: Seq<Vec<char>>) -> Seq<Seq<char>> {
    v.map_values(|w: Vec<char>| w@)
}

/// The words of `v`, by [`words`].
fn split_words(v: &Vec<char>) -> (out: Vec<Vec<char>>)
    ensures
        vecs_view(out@) == words(v@),
{
    let mut done: Vec<Vec<char>> = Vec::new();
    let mut cur: Vec<char> = Vec::new();
    let mut i: usize = 0;
    while i < v.len()
        invariant
            i <= v.len(),
            (vecs_view(done@), cur@) == words_state(v@.take(i as int)),
        decreases v.len() - i,
    {
        let c = v[i];
        proof {
            assert(v@.take(i + 1).drop_last() == v@.take(i as int));
            assert(v@.take(i + 1).last() == c);
        }
        if is_ws_char(c) {
            if cur.len() > 0 {
                let w = cur;
                done.push(w);
                assert(vecs_view(done@) == vecs_view(done@.drop_last()).push(w@));
                cur = Vec::new();
            }
        } else {
            cur.push(c);
        }
        i = i + 1;
    }
    assert(v@.take(v.len() as int) == v@);
    if cur.len() > 0 {
        let w = cur;
        done.push(w);
        assert(vecs_view(done@) == vecs_view(done@.drop_last()).push(w@));
    }
    done
}

/// The value of a run of decimal digits.
pub open spec fn digits_value(ds: Seq<char>) -> int
    decreases ds.len(),
{
    if ds.len() == 0 {
        0
    } else {
        digits_value(ds.drop_last()) * 10 + (ds.last() as int - '0' as int)
    }
}

/// What `str::parse::<i64>` reads: an optional `+` or `-`, then one or more
/// ASCII digits, whose value must fit in an `i64`.
pub open spec fn i64_text(s: Seq<char>) -> Option<int> {
    let neg = s.len() > 0 && s[0] == '-';
    let ds = if s.len() > 0 && (s[0] == '-' || s[0] == '+') {
        s.skip(1)
    } else {
        s
    };
    if ds.len() == 0 || !all_chars(ds, |c: char| is_digit(c)) {
        None
    } else {
        let v = if neg {
            -digits_value(ds)
        } else {
            digits_value(ds)
        };
        if i64::MIN <= v <= i64::MAX {
            Some(v)
        } else {
            None
        }
    }
}

proof fn lemma_digits_value_grows(ds: Seq<char>, k: int)
    requires
        0 <= k <= ds.len(),
        all_chars(ds, |c: char| is_digit(c)),
    ensures
        digits_value(ds) >= digits_value(ds.take(k)) >= 0,
    decreases ds.len(),
{
    if ds.len() > 0 {
        let p = |c: char| is_digit(c);
        assert forall|i: int| 0 <= i < ds.drop_last().len() implies p(ds.drop_last()[i]) by {
            assert(p(ds[i]));
        }
        assert(p(ds[ds.len() - 1]));
        if k == ds.len() {
            assert(ds.take(k) == ds);
            lemma_digits_value_grows(ds.drop_last(), k - 1);
        } else {
            assert(ds.drop_last().take(k) == ds.take(k));
            lemma_digits_value_grows(ds.drop_last(), k);
        }
    }
}

/// Reads an `i64` from characters, by [`i64_text`].
pub(crate) fn parse_i64(s: &Vec<char>) -> (r: Option<i64>)
    ensures
        match i64_text(s@) {
            Some(v) => r == Some(v as i64),
            None => r is None,
        },
{
    let neg = s.len() > 0 && s[0] == '-';
    let start: usize = if s.len() > 0 && (s[0] == '-' || s[0] == '+') {
        1
    } else {
        0
    };
    let ghost ds = if s.len() > 0 && (s@[0] == '-' || s@[0] == '+') {
        s@.skip(1)
    } else {
        s@
    };
    assert(ds == s@.skip(start as int));
    if start == s.len() {
        return None;
    }
    let digits = sub_vec(s, start, s.len());
    assert(digits@ == ds);
    if !all_digits(&digits) {
        return None;
    }
    let bound: u128 = 9223372036854775808u128;
    let mut acc: u128 = 0;
    let mut i: usize = 0;
    while i < digits.len()
        invariant
            i <= digits.len(),
            all_chars(digits@, |c: char| is_digit(c)),
            acc == digits_value(digits@.take(i as int)),
            acc <= bound,
            bound == 9223372036854775808u128,
            digits@ == (if s@.len() > 0 && (s@[0] == '-' || s@[0] == '+') {
                s@.skip(1)
            } else {
                s@
            }),
            digits@.len() > 0,
        decreases digits.len() - i,
    {
        let c = digits[i];
        proof {
            let p = |c: char| is_digit(c);
            assert(p(digits@[i as int]));
            assert(digits@.take(i + 1).drop_last() == digits@.take(i as int));
            assert(digits@.take(i + 1).last() == c);
        }
        let d: u128 = (c as u32 - '0' as u32) as u128;
        let next = acc * 10 + d;
        if next > bound {
            proof {
                lemma_digits_value_grows(digits@, i + 1);
            }
            return None;
        }
        acc = next;
        i = i + 1;
    }
    assert(digits@.take(digits.len() as int) == digits@);
    if neg {
        if acc == bound {
            Some(i64::MIN)
        } else {
            let m: i64 = acc as i64;
            Some(-m)
        }
    } else {
        if acc > 9223372036854775807u128 {
            None
        } else {
            Some(acc as i64)
        }
    }
}

/// Minutes per duration unit on a 5-day, 8-hour working calendar.
pub open spec fn unit_minutes(u: char) -> Option<int> {
    if u == 'w' {
        Some(2400)
    } else if u == 'd' {
        Some(480)
    } else if u == 'h' {
        Some(60)
    } else if u == 'm' {
        Some(1)
    } else {
        None
    }
}

/// A single `2w` / `3d` / `4h` / `30m` token in minutes: a non-negative
/// integer and a unit letter (either case), whose product fits in an `i64`.
pub open spec fn duration_minutes(token: Seq<char>) -> Option<int> {
    if token.len() == 0 {
        None
    } else {
        match i64_text(token.drop_last()) {
            None => None,
            Some(v) => if v < 0 {
                None
            } else {
                match unit_minutes(crate::text::lower(token.last())) {
                    None => None,
                    Some(p) => if v * p > i64::MAX {
                        None
                    } else {
                        Some(v * p)
                    },
                }
            },
        }
    }
}

/// A duration token in minutes, by [`duration_minutes`].
fn duration_token_minutes(token: &Vec<char>) -> (m: Option<i64>)
    ensures
        match duration_minutes(token@) {
            Some(v) => m == Some(v as i64),
            None => m is None,
        },
{
    if token.len() == 0 {
        return None;
    }
    let unit = token[token.len() - 1];
    let body = sub_vec(token, 0, token.len() - 1);
    assert(body@ == token@.drop_last());
    let value = match parse_i64(&body) {
        Some(v) => v,
        None => return None,
    };
    if value < 0 {
        return None;
    }
    let per: i64 = match lower_char(unit) {
        'w' => 2400,
        'd' => 480,
        'h' => 60,
        'm' => 1,
        _ => return None,
    };
    value.checked_mul(per)
}

/// The fold over a `#time` argument's words: from word `i` on, with `acc`
/// minutes so far, add up the leading duration words. The result is the total
/// and how many words it used, or `None` when the total overflows an `i64`.
pub open spec fn time_scan(tokens: Seq<Seq<char>>, i: int, acc: int) -> Option<(int, int)>
    decreases tokens.len() - i,
{
    if i < 0 || i >= tokens.len() {
        Some((acc, i))
    } else {
        match duration_minutes(tokens[i]) {
            None => Some((acc, i)),
            Some(m) => if acc + m > i64::MAX || acc + m < i64::MIN {
                None
            } else {
                time_scan(tokens, i + 1, acc + m)
            },
        }
    }
}

/// `words` joined by single spaces.
pub open spec fn join_words(ws: Seq<Seq<char>>) -> Seq<char>
    decreases ws.len(),
{
    if ws.len() == 0 {
        Seq::empty()
    } else if ws.len() == 1 {
        ws[0]
    } else {
        join_words(ws.drop_last()) + seq![' '] + ws.last()
    }
}

/// A `#time` argument: the leading duration words summed to minutes, then any
/// remaining words, joined by single spaces, as the note. `None` if no
/// positive duration leads the argument, or the sum overflows.
pub open spec fn time_rule(arg: Seq<char>) -> Option<(int, Option<Seq<char>>)> {
    let toks = words(arg);
    match time_scan(toks, 0, 0) {
        None => None,
        Some((minutes, used)) => if minutes <= 0 {
            None
        } else if used < toks.len() {
            Some((minutes, Some(join_words(toks.skip(used)))))
        } else {
            Some((minutes, None))
        },
    }
}

/// `ws[from..]` joined by single spaces.
fn join_from(ws: &Vec<Vec<char>>, from: usize) -> (out: String)
    requires
        from <= ws.len(),
    ensures
        out@ == join_words(vecs_view(ws@).skip(from as int)),
{
    let ghost all = vecs_view(ws@);
    let mut out = String::new();
    let mut i = from;
    while i < ws.len()
        invariant
            from <= i <= ws.len(),
            all == vecs_view(ws@),
            all.len() == ws@.len(),
            out@ == join_words(all.subrange(from as int, i as int)),
        decreases ws.len() - i,
    {
        let w = &ws[i];
        proof {
            assert(all.subrange(from as int, i + 1).drop_last() == all.subrange(from as int, i as int));
            assert(all.subrange(from as int, i + 1).last() == w@);
        }
        if i > from {
            push_char(&mut out, ' ');
        }
        let ghost before = out@;
        let mut j: usize = 0;
        while j < w.len()
            invariant
                j <= w.len(),
                out@ == before + w@.take(j as int),
            decreases w.len() - j,
        {
            push_char(&mut out, w[j]);
            assert(w@.take(j + 1) == w@.take(j as int).push(w@[j as int]));
            j = j + 1;
        }
        assert(w@.take(w.len() as int) == w@);
        proof {
            if i == from {
                assert(all.subrange(from as int, i as int).len() == 0);
            }
        }
        i = i + 1;
    }
    assert(all.subrange(from as int, ws.len() as int) == all.skip(from as int));
    out
}

/// Parses a `#time` argument by [`time_rule`].
pub fn parse_time_arg(arg: &str) -> (r: Option<(i64, Option<String>)>)
    ensures
        match time_rule(arg@) {
            None => r is None,
            Some((m, note)) => r matches Some((mm, nn)) && mm == m && crate::text::opt_string_view(nn) == note,
        },
{
    let v = crate::text::chars_of(arg);
    let tokens = split_words(&v);
    let ghost toks = vecs_view(tokens@);
    assert(v@ == arg@);
    let mut minutes: i64 = 0;
    let mut i: usize = 0;
    while i < tokens.len()
        invariant
            i <= tokens.len(),
            toks == vecs_view(tokens@),
            toks.len() == tokens@.len(),
            toks == words(arg@),
            time_scan(toks, i as int, minutes as int) == time_scan(toks, 0, 0),
        ensures
            time_scan(toks, 0, 0) == Some((minutes as int, i as int)),
        decreases tokens.len() - i,
    {
        assert(toks[i as int] == tokens@[i as int]@);
        match duration_token_minutes(&tokens[i]) {
            Some(m) => {
                match minutes.checked_add(m) {
                    Some(total) => {
                        minutes = total;
                    },
                    None => {
                        return None;
                    },
                }
            },
            None => {
                break;
            },
        }
        i = i + 1;
    }
    if minutes <= 0 {
        return None;
    }
    if i < tokens.len() {
        let note = join_from(&tokens, i);
        Some((minutes, Some(note)))
    } else {
        Some((minutes, None))
    }
}

// ---------------------------------------------------------------------------
// Commands
// ---------------------------------------------------------------------------

/// The state of splitting `s` on `#`: the pieces finished so far, and the one
/// being read.
pub open spec fn hash_state(s: Seq<char>) -> (Seq<Seq<char>>, Seq<char>)
    decreases s.len(),
{
    if s.len() == 0 {
        (Seq::empty(), Seq::empty())
    } else {
        let (done, cur) = hash_state(s.drop_last());
        let c = s.last();
        if c == '#' {
            (done.push(cur), Seq::empty())
        } else {
            (done, cur.push(c))
        }
    }
}

/// `str::split('#')`: the pieces between the `#`s, one more than there are
/// `#`s.
pub open spec fn hash_pieces(s: Seq<char>) -> Seq<Seq<char>> {
    let (done, cur) = hash_state(s);
    done.push(cur)
}

/// The index of the first whitespace character of `s` at or after `i`, or
/// the length of `s`.
pub open spec fn first_ws_from(s: Seq<char>, i: int) -> int
    decreases s.len() - i,
{
    if i < 0 || i >= s.len() {
        s.len() as int
    } else if is_ws(s[i]) {
        i
    } else {
        first_ws_from(s, i + 1)
    }
}

pub proof fn lemma_first_ws_bounds(s: Seq<char>, i: int)
    requires
        0 <= i <= s.len(),
    ensures
        i <= first_ws_from(s, i) <= s.len(),
        first_ws_from(s, i) < s.len() ==> is_ws(s[first_ws_from(s, i)]),
        forall|k: int| i <= k < first_ws_from(s, i) ==> !is_ws(#[trigger] s[k]),
    decreases s.len() - i,
{
    if i < s.len() && !is_ws(s[i]) {
        lemma_first_ws_bounds(s, i + 1);
    }
}

/// The command one `#` piece holds, if any: the piece is trimmed; its first
/// word, lower-cased, is the directive and the rest, trimmed, its argument.
/// `comment` needs an argument, `time` a positive duration; any other word is
/// a transition directive.
pub open spec fn command_of(piece: Seq<char>) -> Option<CommandView> {
    let seg = trim(piece);
    if seg.len() == 0 {
        None
    } else {
        let f = first_ws_from(seg, 0);
        let word = seg.take(f);
        let arg = if f < seg.len() {
            trim(seg.skip(f + 1))
        } else {
            Seq::empty()
        };
        let lw = lower_seq(word);
        if lw == "comment"@ {
            if arg.len() > 0 {
                Some(CommandView::Comment(arg))
            } else {
                None
            }
        } else if lw == "time"@ {
            match time_rule(arg) {
                Some((m, note)) => Some(CommandView::Time(m, note)),
                None => None,
            }
        } else {
            Some(CommandView::Transition(lw))
        }
    }
}

/// The commands of a run of `#` pieces, in order.
pub open spec fn commands_rule(pieces: Seq<Seq<char>>) -> Seq<CommandView>
    decreases pieces.len(),
{
    if pieces.len() == 0 {
        Seq::empty()
    } else {
        let rest = commands_rule(pieces.drop_last());
        match command_of(pieces.last()) {
            Some(c) => rest.push(c),
            None => rest,
        }
    }
}

/// The commands after a line's keys: every piece after the first `#`; text
/// before the first `#` is ignored.
pub open spec fn parse_commands_rule(rest: Seq<char>) -> Seq<CommandView> {
    commands_rule(hash_pieces(rest).skip(1))
}

/// The plain form of a list of commands.
pub open spec fn commands_view(v: Seq<Command>) -> Seq<CommandView> {
    v.map_values(|c: Command| c@)
}

/// The pieces of `v` between its `#`s.
fn split_hash(v: &Vec<char>) -> (out: Vec<Vec<char>>)
    ensures
        vecs_view(out@) == hash_pieces(v@),
{
    let mut done: Vec<Vec<char>> = Vec::new();
    let mut cur: Vec<char> = Vec::new();
    let mut i: usize = 0;
    while i < v.len()
        invariant
            i <= v.len(),
            (vecs_view(done@), cur@) == hash_state(v@.take(i as int)),
        decreases v.len() - i,
    {
        let c = v[i];
        proof {
            assert(v@.take(i + 1).drop_last() == v@.take(i as int));
            assert(v@.take(i + 1).last() == c);
        }
        if c == '#' {
            let w = cur;
            done.push(w);
            assert(vecs_view(done@) == vecs_view(done@.drop_last()).push(w@));
            cur = Vec::new();
        } else {
            cur.push(c);
        }
        i = i + 1;
    }
    assert(v@.take(v.len() as int) == v@);
    let w = cur;
    done.push(w);
    assert(vecs_view(done@) == vecs_view(done@.drop_last()).push(w@));
    done
}

/// Where the first whitespace of `v` at or after `i` is, by [`first_ws_from`].
fn first_ws_index(v: &Vec<char>, i: usize) -> (j: usize)
    requires
        i <= v.len(),
    ensures
        j == first_ws_from(v@, i as int),
{
    let mut j = i;
    while j < v.len() && !is_ws_char(v[j])
        invariant
            i <= j <= v.len(),
            first_ws_from(v@, j as int) == first_ws_from(v@, i as int),
        decreases v.len() - j,
    {
        j = j + 1;
    }
    j
}

/// The ASCII-lower-cased text of `v`.
fn lower_string(v: &Vec<char>) -> (out: String)
    ensures
        out@ == lower_seq(v@),
{
    let mut out = String::new();
    let mut i: usize = 0;
    while i < v.len()
        invariant
            i <= v.len(),
            out@ == lower_seq(v@.take(i as int)),
        decreases v.len() - i,
    {
        push_char(&mut out, lower_char(v[i]));
        assert(lower_seq(v@.take(i + 1)) == lower_seq(v@.take(i as int)).push(crate::text::lower(v@[i as int])));
        i = i + 1;
    }
    assert(v@.take(v.len() as int) == v@);
    out
}

/// The command a `#` piece holds, by [`command_of`].
fn command_from(piece: &Vec<char>) -> (c: Option<Command>)
    ensures
        match command_of(piece@) {
            None => c is None,
            Some(v) => c matches Some(cc) && cc@ == v,
        },
{
    let seg = trim_vec(piece);
    if seg.len() == 0 {
        return None;
    }
    let f = first_ws_index(&seg, 0);
    proof {
        lemma_first_ws_bounds(seg@, 0);
    }
    let word = sub_vec(&seg, 0, f);
    let arg = if f < seg.len() {
        let tail = sub_vec(&seg, f + 1, seg.len());
        trim_vec(&tail)
    } else {
        Vec::new()
    };
    proof {
        assert(word@ == seg@.take(f as int));
        if f < seg.len() {
            assert(seg@.subrange(f + 1, seg@.len() as int) == seg@.skip(f + 1));
        }
    }
    let lw = lower_string(&word);
    if str_eq(lw.as_str(), "comment") {
        if arg.len() > 0 {
            Some(Command::Comment(string_of(&arg)))
        } else {
            None
        }
    } else if str_eq(lw.as_str(), "time") {
        let a = string_of(&arg);
        match parse_time_arg(a.as_str()) {
            Some((minutes, note)) => Some(Command::Time { minutes, note }),
            None => None,
        }
    } else {
        Some(Command::Transition(lw))
    }
}

/// The commands after a line's keys, by [`parse_commands_rule`].
pub fn parse_commands(rest: &Vec<char>) -> (cmds: Vec<Command>)
    ensures
        commands_view(cmds@) == parse_commands_rule(rest@),
{
    let pieces = split_hash(rest);
    let ghost all = vecs_view(pieces@);
    let mut cmds: Vec<Command> = Vec::new();
    let mut i: usize = 1;
    assert(all.len() >= 1);
    while i < pieces.len()
        invariant
            1 <= i <= pieces.len(),
            all == vecs_view(pieces@),
            all.len() == pieces@.len(),
            commands_view(cmds@) == commands_rule(all.subrange(1, i as int)),
        decreases pieces.len() - i,
    {
        proof {
            assert(all.subrange(1, i + 1).drop_last() == all.subrange(1, i as int));
            assert(all.subrange(1, i + 1).last() == pieces@[i as int]@);
        }
        match command_from(&pieces[i]) {
            Some(c) => {
                cmds.push(c);
                assert(commands_view(cmds@) == commands_view(cmds@.drop_last()).push(cmds@.last()@));
            },
            None => {},
        }
        i = i + 1;
    }
    assert(all.subrange(1, pieces.len() as int) == all.skip(1));
    cmds
}

// ---------------------------------------------------------------------------
// Lines
// ---------------------------------------------------------------------------

pub proof fn lemma_key_of_empty()
    ensures
        key_of(Seq::<char>::empty()) is None,
{
    assert(trim_end_non_alnum(Seq::<char>::empty()) == Seq::<char>::empty());
}

/// The keys a line leads with: from `rest` on, each whitespace-delimited
/// token that is a card key is added (once), until the text runs out, a `#`
/// starts the commands, or a token is not a key. The result is the keys and
/// what is left of the line.
pub open spec fn scan_keys(rest: Seq<char>, keys: Seq<Seq<char>>) -> (Seq<Seq<char>>, Seq<char>)
    decreases rest.len(),
{
    if rest.len() == 0 || rest[0] == '#' {
        (keys, rest)
    } else {
        let end = first_ws_from(rest, 0);
        match key_of(rest.take(end)) {
            None => (keys, rest),
            Some(k) => {
                proof {
                    lemma_first_ws_bounds(rest, 0);
                    if end == 0 {
                        assert(rest.take(end) == Seq::<char>::empty());
                        lemma_key_of_empty();
                    }
                    crate::text::lemma_skip_ws_bounds(rest.skip(end), 0);
                }
                let next = trim_start(rest.skip(end));
                let more = if keys.contains(k) {
                    keys
                } else {
                    keys.push(k)
                };
                scan_keys(next, more)
            },
        }
    }
}

/// What one line of a message yields: `None` unless it leads with at least
/// one card key; otherwise the keys and the commands after them.
pub open spec fn line_rule(line: Seq<char>) -> Option<(Seq<Seq<char>>, Seq<CommandView>)> {
    let (keys, rest) = scan_keys(trim_start(line), Seq::empty());
    if keys.len() == 0 {
        None
    } else {
        Some((keys, parse_commands_rule(rest)))
    }
}

/// A line without the `\r` it ends with, if any.
pub open spec fn strip_cr(l: Seq<char>) -> Seq<char> {
    if l.len() > 0 && l.last() == '\r' {
        l.drop_last()
    } else {
        l
    }
}

/// The state of splitting `s` into lines: the lines finished so far, and the
/// one being read.
pub open spec fn lines_state(s: Seq<char>) -> (Seq<Seq<char>>, Seq<char>)
    decreases s.len(),
{
    if s.len() == 0 {
        (Seq::empty(), Seq::empty())
    } else {
        let (done, cur) = lines_state(s.drop_last());
        let c = s.last();
        if c == '\n' {
            (done.push(strip_cr(cur)), Seq::empty())
        } else {
            (done, cur.push(c))
        }
    }
}

/// `str::lines`: split at each `\n`, a `\r` before the `\n` dropped, and no
/// empty last line after a final `\n`.
pub open spec fn lines_of(s: Seq<char>) -> Seq<Seq<char>> {
    let (done, cur) = lines_state(s);
    if cur.len() > 0 {
        done.push(cur)
    } else {
        done
    }
}

/// The smart commits of a run of lines, in order.
pub open spec fn commits_rule(lines: Seq<Seq<char>>) -> Seq<(Seq<Seq<char>>, Seq<CommandView>)>
    decreases lines.len(),
{
    if lines.len() == 0 {
        Seq::empty()
    } else {
        let rest = commits_rule(lines.drop_last());
        match line_rule(lines.last()) {
            Some(c) => rest.push(c),
            None => rest,
        }
    }
}

/// What a whole message yields: one smart commit per line that leads with a
/// card key, in order.
pub open spec fn parse_rule(message: Seq<char>) -> Seq<(Seq<Seq<char>>, Seq<CommandView>)> {
    commits_rule(lines_of(message))
}

/// The plain form of a list of strings.
pub open spec fn strings_view(v: Seq<String>) -> Seq<Seq<char>> {
    v.map_values(|k: String| k@)
}

/// Whether `key` is among `keys`.
fn contains_key(keys: &Vec<String>, key: &String) -> (b: bool)
    ensures
        b == strings_view(keys@).contains(key@),
{
    let mut i: usize = 0;
    while i < keys.len()
        invariant
            i <= keys.len(),
            forall|k: int| 0 <= k < i ==> keys@[k]@ != key@,
        decreases keys.len() - i,
    {
        if str_eq(keys[i].as_str(), key.as_str()) {
            assert(strings_view(keys@)[i as int] == key@);
            return true;
        }
        i = i + 1;
    }
    proof {
        if strings_view(keys@).contains(key@) {
            let j = choose|j: int| 0 <= j < strings_view(keys@).len() && strings_view(keys@)[j] == key@;
            assert(keys@[j]@ == key@);
        }
    }
    false
}

/// Parses one line by [`line_rule`].
fn parse_line(line: &Vec<char>) -> (c: Option<SmartCommit>)
    ensures
        match line_rule(line@) {
            None => c is None,
            Some(v) => c matches Some(cc) && commit_view(cc) == v,
        },
{
    let mut rest = trim_start_vec(line);
    let mut keys: Vec<String> = Vec::new();
    assert(strings_view(keys@) =~= Seq::<Seq<char>>::empty());
    loop
        invariant
            scan_keys(rest@, strings_view(keys@)) == scan_keys(trim_start(line@), Seq::empty()),
        ensures
            scan_keys(trim_start(line@), Seq::empty()) == (strings_view(keys@), rest@),
        decreases rest@.len(),
    {
        if rest.len() == 0 || rest[0] == '#' {
            break;
        }
        let end = first_ws_index(&rest, 0);
        proof {
            lemma_first_ws_bounds(rest@, 0);
        }
        let token = sub_vec(&rest, 0, end);
        assert(token@ == rest@.take(end as int));
        let ghost old_rest = rest@;
        let ghost old_keys = strings_view(keys@);
        match card_key(&token) {
            Some(k) => {
                proof {
                    if end == 0 {
                        assert(rest@.take(0) == Seq::<char>::empty());
                        lemma_key_of_empty();
                    }
                    crate::text::lemma_skip_ws_bounds(rest@.skip(end as int), 0);
                }
                if !contains_key(&keys, &k) {
                    keys.push(k);
                    assert(strings_view(keys@) == strings_view(keys@.drop_last()).push(keys@.last()@));
                }
                let tail = sub_vec(&rest, end, rest.len());
                assert(tail@ == rest@.skip(end as int));
                rest = trim_start_vec(&tail);
                assert(strings_view(keys@) == (if old_keys.contains(k@) {
                    old_keys
                } else {
                    old_keys.push(k@)
                }));
                assert(scan_keys(old_rest, old_keys) == scan_keys(rest@, strings_view(keys@)));
            },
            None => {
                break;
            },
        }
    }
    if keys.len() == 0 {
        return None;
    }
    let commands = parse_commands(&rest);
    Some(SmartCommit { keys, commands })
}

/// The lines of `v`, by [`lines_of`].
fn split_lines(v: &Vec<char>) -> (out: Vec<Vec<char>>)
    ensures
        vecs_view(out@) == lines_of(v@),
{
    let mut done: Vec<Vec<char>> = Vec::new();
    let mut cur: Vec<char> = Vec::new();
    let mut i: usize = 0;
    while i < v.len()
        invariant
            i <= v.len(),
            (vecs_view(done@), cur@) == lines_state(v@.take(i as int)),
        decreases v.len() - i,
    {
        let c = v[i];
        proof {
            assert(v@.take(i + 1).drop_last() == v@.take(i as int));
            assert(v@.take(i + 1).last() == c);
        }
        if c == '\n' {
            let w = if cur.len() > 0 && cur[cur.len() - 1] == '\r' {
                sub_vec(&cur, 0, cur.len() - 1)
            } else {
                cur
            };
            proof {
                if cur@.len() > 0 && cur@.last() == '\r' {
                    assert(cur@.subrange(0, cur@.len() - 1) == cur@.drop_last());
                }
            }
            done.push(w);
            assert(vecs_view(done@) == vecs_view(done@.drop_last()).push(w@));
            cur = Vec::new();
        } else {
            cur.push(c);
        }
        i = i + 1;
    }
    assert(v@.take(v.len() as int) == v@);
    if cur.len() > 0 {
        let w = cur;
        done.push(w);
        assert(vecs_view(done@) == vecs_view(done@.drop_last()).push(w@));
    }
    done
}

/// The plain form of a list of smart commits.
pub open spec fn commits_view(v: Seq<SmartCommit>) -> Seq<(Seq<Seq<char>>, Seq<CommandView>)> {
    v.map_values(|c: SmartCommit| commit_view(c))
}

/// Scans a whole message (a commit message, a PR title or a PR body) for
/// smart-commit lines, by [`parse_rule`].
pub fn parse(message: &str) -> (commits: Vec<SmartCommit>)
    ensures
        commits_view(commits@) == parse_rule(message@),
{
    let v = crate::text::chars_of(message);
    let lines = split_lines(&v);
    let ghost all = vecs_view(lines@);
    let mut commits: Vec<SmartCommit> = Vec::new();
    let mut i: usize = 0;
    while i < lines.len()
        invariant
            i <= lines.len(),
            all == vecs_view(lines@),
            all.len() == lines@.len(),
            commits_view(commits@) == commits_rule(all.take(i as int)),
        decreases lines.len() - i,
    {
        proof {
            assert(all.take(i + 1).drop_last() == all.take(i as int));
            assert(all.take(i + 1).last() == lines@[i as int]@);
        }
        match parse_line(&lines[i]) {
            Some(c) => {
                commits.push(c);
                assert(commits_view(commits@) == commits_view(commits@.drop_last()).push(commit_view(commits@.last())));
            },
            None => {},
        }
        i = i + 1;
    }
    assert(all.take(lines.len() as int) == all);
    commits
}

// ---------------------------------------------------------------------------
// Keys in branch names
// ---------------------------------------------------------------------------

/// The end of the run of ASCII letters and digits in `t` from `i`.
pub open spec fn alnum_end(t: Seq<char>, i: int) -> int
    decreases t.len() - i,
{
    if i < 0 || i >= t.len() {
        t.len() as int
    } else if is_alnum(t[i]) {
        alnum_end(t, i + 1)
    } else {
        i
    }
}

/// The end of the run of ASCII digits in `t` from `i`.
pub open spec fn digit_end(t: Seq<char>, i: int) -> int
    decreases t.len() - i,
{
    if i < 0 || i >= t.len() {
        t.len() as int
    } else if is_digit(t[i]) {
        digit_end(t, i + 1)
    } else {
        i
    }
}

/// Where a key starting at `s` in `t` ends, if one does: `s` is at a word
/// boundary (the start, or after a character that is not an ASCII letter or
/// digit) on a letter; the run of letters and digits from there is followed
/// by `-` and at least one digit.
pub open spec fn key_end_at(t: Seq<char>, s: int) -> Option<int> {
    if !(0 <= s < t.len()) {
        None
    } else if !(s == 0 || !is_alnum(t[s - 1])) || !is_alpha(t[s]) {
        None
    } else {
        let dash = alnum_end(t, s + 1);
        if dash >= t.len() || t[dash] != '-' {
            None
        } else {
            let end = digit_end(t, dash + 1);
            if end > dash + 1 {
                Some(end)
            } else {
                None
            }
        }
    }
}

/// The first key in `t` at or after `s`, upper-cased.
pub open spec fn first_key_from(t: Seq<char>, s: int) -> Option<Seq<char>>
    decreases t.len() - s,
{
    if s < 0 || s >= t.len() {
        None
    } else {
        match key_end_at(t, s) {
            Some(e) => Some(upper_seq(t.subrange(s, e))),
            None => first_key_from(t, s + 1),
        }
    }
}

proof fn lemma_run_ends(t: Seq<char>, i: int)
    requires
        0 <= i <= t.len(),
    ensures
        i <= alnum_end(t, i) <= t.len(),
        i <= digit_end(t, i) <= t.len(),
    decreases t.len() - i,
{
    if i < t.len() {
        lemma_run_ends(t, i + 1);
    }
}

/// The first card key embedded anywhere in free text, by shape, upper-cased:
/// the key a branch like `feature/ATLAS-42-add-login` was cut for. Unlike
/// [`parse`], the key need not lead the text.
pub fn key_in_branch(text: &str) -> (key: Option<String>)
    ensures
        crate::text::opt_string_view(key) == first_key_from(text@, 0),
{
    let t = crate::text::chars_of(text);
    let mut s: usize = 0;
    while s < t.len()
        invariant
            s <= t.len(),
            t@ == text@,
            first_key_from(t@, s as int) == first_key_from(t@, 0),
        decreases t.len() - s,
    {
        let at_boundary = s == 0 || !is_alnum_char(t[s - 1]);
        if at_boundary && is_alpha_char(t[s]) {
            let mut dash = s + 1;
            proof {
                lemma_run_ends(t@, s + 1);
            }
            while dash < t.len() && is_alnum_char(t[dash])
                invariant
                    s + 1 <= dash <= t.len(),
                    alnum_end(t@, dash as int) == alnum_end(t@, s + 1),
                decreases t.len() - dash,
            {
                dash = dash + 1;
            }
            if dash < t.len() && t[dash] == '-' {
                let mut end = dash + 1;
                proof {
                    lemma_run_ends(t@, dash + 1);
                }
                while end < t.len() && is_digit_char(t[end])
                    invariant
                        dash + 1 <= end <= t.len(),
                        digit_end(t@, end as int) == digit_end(t@, dash + 1),
                    decreases t.len() - end,
                {
                    end = end + 1;
                }
                if end > dash + 1 {
                    let k = sub_vec(&t, s, end);
                    return Some(upper_string(&k));
                }
            }
        }
        s = s + 1;
    }
    None
}

// ---------------------------------------------------------------------------
// Laws and application
// ---------------------------------------------------------------------------

proof fn lemma_scan_keys_distinct(rest: Seq<char>, keys: Seq<Seq<char>>)
    requires
        keys.no_duplicates(),
    ensures
        scan_keys(rest, keys).0.no_duplicates(),
    decreases rest.len(),
{
    if !(rest.len() == 0 || rest[0] == '#') {
        let end = first_ws_from(rest, 0);
        match key_of(rest.take(end)) {
            None => {},
            Some(k) => {
                lemma_first_ws_bounds(rest, 0);
                if end == 0 {
                    assert(rest.take(end) == Seq::<char>::empty());
                    lemma_key_of_empty();
                }
                crate::text::lemma_skip_ws_bounds(rest.skip(end), 0);
                let next = trim_start(rest.skip(end));
                if !keys.contains(k) {
                    assert forall|i: int, j: int| 0 <= i < j < keys.push(k).len() implies keys.push(k)[i]
                        != keys.push(k)[j] by {
                        if j == keys.len() {
                            assert(keys.push(k)[j] == k);
                            assert(keys.push(k)[i] == keys[i]);
                        }
                    }
                    lemma_scan_keys_distinct(next, keys.push(k));
                } else {
                    lemma_scan_keys_distinct(next, keys);
                }
            },
        }
    }
}

proof fn lemma_commits_distinct(lines: Seq<Seq<char>>)
    ensures
        forall|i: int| 0 <= i < commits_rule(lines).len() ==> (#[trigger] commits_rule(lines)[i]).0.no_duplicates(),
    decreases lines.len(),
{
    if lines.len() > 0 {
        lemma_commits_distinct(lines.drop_last());
        let l = lines.last();
        lemma_scan_keys_distinct(trim_start(l), Seq::empty());
        let rest = commits_rule(lines.drop_last());
        match line_rule(l) {
            Some(c) => {
                assert(c.0 == scan_keys(trim_start(l), Seq::empty()).0);
                assert forall|i: int| 0 <= i < rest.push(c).len() implies (#[trigger] rest.push(c)[i]).0.no_duplicates() by {
                    if i < rest.len() {
                        assert(rest.push(c)[i] == rest[i]);
                    }
                }
            },
            None => {},
        }
    }
}

/// A smart commit never names a card twice: the keys each line yields are
/// distinct, however often the line repeats them.
pub proof fn lemma_parsed_keys_distinct(message: Seq<char>)
    ensures
        forall|i: int| 0 <= i < parse_rule(message).len() ==> (#[trigger] parse_rule(message)[i]).0.no_duplicates(),
{
    lemma_commits_distinct(lines_of(message));
}

/// The line being read at the end of `s`, when there is one, ends with the
/// last character of `s`.
proof fn lemma_open_line_ends_like(s: Seq<char>)
    ensures
        lines_state(s).1.len() > 0 ==> s.len() > 0 && lines_state(s).1.last() == s.last(),
    decreases s.len(),
{
    if s.len() > 0 {
        lemma_open_line_ends_like(s.drop_last());
    }
}

/// Splitting `p + q`, where `p` leaves no line open, is splitting `p` and then
/// splitting `q`.
proof fn lemma_lines_state_append(p: Seq<char>, q: Seq<char>)
    requires
        lines_state(p).1.len() == 0,
    ensures
        lines_state(p + q) == (lines_state(p).0 + lines_state(q).0, lines_state(q).1),
    decreases q.len(),
{
    if q.len() == 0 {
        assert(p + q == p);
        assert(lines_state(p).0 + Seq::<Seq<char>>::empty() == lines_state(p).0);
    } else {
        assert((p + q).drop_last() == p + q.drop_last());
        assert((p + q).last() == q.last());
        lemma_lines_state_append(p, q.drop_last());
        let (dq, cq) = lines_state(q.drop_last());
        let dp = lines_state(p).0;
        assert((dp + dq).push(strip_cr(cq)) == dp + dq.push(strip_cr(cq)));
    }
}

/// The commits of two runs of lines, one after the other, are the commits of
/// each run in turn.
proof fn lemma_commits_append(x: Seq<Seq<char>>, y: Seq<Seq<char>>)
    ensures
        commits_rule(x + y) == commits_rule(x) + commits_rule(y),
    decreases y.len(),
{
    if y.len() == 0 {
        assert(x + y == x);
        assert(commits_rule(x) + Seq::empty() == commits_rule(x));
    } else {
        assert((x + y).drop_last() == x + y.drop_last());
        assert((x + y).last() == y.last());
        lemma_commits_append(x, y.drop_last());
        let r = commits_rule(y.drop_last());
        match line_rule(y.last()) {
            Some(c) => {
                assert((commits_rule(x) + r).push(c) == commits_rule(x) + r.push(c));
            },
            None => {},
        }
    }
}

/// An empty line yields no smart commit.
proof fn lemma_empty_line_yields_nothing()
    ensures
        line_rule(Seq::<char>::empty()) is None,
        commits_rule(seq![Seq::<char>::empty()]) == Seq::<(Seq<Seq<char>>, Seq<CommandView>)>::empty(),
{
    let e = Seq::<char>::empty();
    assert(crate::text::skip_ws(e, 0) == 0);
    assert(trim_start(e) == e);
    assert(scan_keys(e, Seq::empty()).0.len() == 0);
    assert(line_rule(e) is None);
    assert(seq![e].drop_last() == Seq::<Seq<char>>::empty());
    assert(seq![e].last() == e);
    assert(commits_rule(Seq::<Seq<char>>::empty()) == Seq::<(Seq<Seq<char>>, Seq<CommandView>)>::empty());
}

/// Each line of a message is read on its own: the smart commits of two texts
/// joined by a line break are those of the first, then those of the second.
/// (A first text ending in `\r` is left out: the break would turn that `\r`
/// into part of a `\r\n` line ending.)
pub proof fn lemma_parse_lines_independent(a: Seq<char>, b: Seq<char>)
    requires
        !(a.len() > 0 && a.last() == '\r'),
    ensures
        parse_rule(a + seq!['\n'] + b) == parse_rule(a) + parse_rule(b),
{
    let an = a.push('\n');
    assert(a + seq!['\n'] == an);
    assert(an.drop_last() == a);
    let (da, ca) = lines_state(a);
    lemma_open_line_ends_like(a);
    assert(strip_cr(ca) == ca);
    assert(lines_state(an) == (da.push(ca), Seq::<char>::empty()));
    lemma_lines_state_append(an, b);
    let (db, cb) = lines_state(b);
    lemma_empty_line_yields_nothing();
    let lb = lines_of(b);
    assert(lines_of(an + b) == da.push(ca) + lb) by {
        if cb.len() > 0 {
            assert((da.push(ca) + db).push(cb) == da.push(ca) + db.push(cb));
        }
    }
    if ca.len() > 0 {
        assert(lines_of(a) == da.push(ca));
        lemma_commits_append(da.push(ca), lb);
    } else {
        assert(lines_of(a) == da);
        assert(da.push(ca) == da + seq![ca]);
        assert(ca == Seq::<char>::empty());
        lemma_commits_append(da, seq![ca]);
        lemma_commits_append(da + seq![ca], lb);
        assert(commits_rule(da) + Seq::<(Seq<Seq<char>>, Seq<CommandView>)>::empty() == commits_rule(da));
    }
}

/// What applying a smart commit to one card did.
#[derive(Debug, Clone, PartialEq, Eq)]
pub struct Applied {
    /// A `#comment` landed.
    pub commented: bool,
    /// Minutes logged by `#time` directives.
    pub minutes_logged: i64,
    /// The status name the card was moved to, if a transition fired.
    pub transitioned_to: Option<String>,
}

impl Default for Applied {
    fn default() -> (a: Self)
        ensures
            !a.commented && a.minutes_logged == 0 && a.transitioned_to is None,
    {
        Applied { commented: false, minutes_logged: 0, transitioned_to: None }
    }
}

impl Applied {
    /// Whether nothing happened: the default, so the card does not count as
    /// touched.
    pub fn is_nothing(&self) -> (b: bool)
        ensures
            b == (!self.commented && self.minutes_logged == 0 && self.transitioned_to is None),
    {
        !self.commented && self.minutes_logged == 0 && self.transitioned_to.is_none()
    }
}

/// Whether an error is the workflow declining a move, to be skipped, rather
/// than a fault to raise: a conflict, a refusal, or a failed validation.
pub fn is_rejection(err: &AppError) -> (b: bool)
    ensures
        b == (err is Conflict || err is Forbidden || err is Validation),
{
    match err {
        AppError::Conflict(_) | AppError::Forbidden | AppError::Validation(_) => true,
        _ => false,
    }
}

/// Collapses a transition's result to moved or not moved, swallowing the
/// workflow's own refusals but never a real fault.
pub fn did_move<T>(result: AppResult<T>) -> (moved: AppResult<bool>)
    ensures
        result is Ok ==> moved == Ok::<bool, AppError>(true),
        result matches Err(e) ==> ((e is Conflict || e is Forbidden || e is Validation) ==> moved
            == Ok::<bool, AppError>(false)),
        result matches Err(e) ==> (!(e is Conflict || e is Forbidden || e is Validation) ==> moved
            == Err::<bool, AppError>(e)),
{
    match result {
        Ok(_) => Ok(true),
        Err(err) => {
            if is_rejection(&err) {
                Ok(false)
            } else {
                Err(err)
            }
        },
    }
}

/// Which status moving a card into a category aims at: the category's first
/// status, read by the caller, unless the project has none in that category or
/// the card already stands in it, in which case there is no move to make.
pub fn move_target(first_in_category: Option<Status>, card_status_id: &str) -> (t: Option<Status>)
    ensures
        match first_in_category {
            None => t is None,
            Some(s) => if s.id@ == card_status_id@ {
                t is None
            } else {
                t == Some(s)
            },
        },
{
    match first_in_category {
        None => None,
        Some(s) => {
            if str_eq(s.id.as_str(), card_status_id) {
                None
            } else {
                Some(s)
            }
        },
    }
}

/// What moving a card into a category answers once the move was tried
/// (`moved`, as [`did_move`] reads the attempt): the status name moved to, no
/// name when the workflow declined, or the fault.
pub fn move_outcome(moved: AppResult<bool>, target_name: String) -> (r: AppResult<Option<String>>)
    ensures
        match moved {
            Ok(true) => r == Ok::<Option<String>, AppError>(Some(target_name)),
            Ok(false) => r == Ok::<Option<String>, AppError>(None),
            Err(e) => r == Err::<Option<String>, AppError>(e),
        },
{
    match moved {
        Ok(true) => Ok(Some(target_name)),
        Ok(false) => Ok(None),
        Err(e) => Err(e),
    }
}

/// What a smart commit's command does to a card, once read.
#[derive(Debug, Clone, PartialEq, Eq)]
pub enum CardAction {
    /// Add a comment with this body (already checked and trimmed).
    Comment(String),
    /// Log time worked.
    Worklog {
        /// Minutes worked.
        minutes: i64,
        /// The words after the duration.
        note: Option<String>,
    },
    /// Move the card to the first status of this category.
    MoveTo(StatusCategory),
}

/// The plain form of a [`CardAction`].
pub enum ActionView {
    /// A comment body.
    Comment(Seq<char>),
    /// Minutes and a note.
    Worklog(int, Option<Seq<char>>),
    /// A target category.
    MoveTo(StatusCategory),
}

/// The plain form of an action.
pub open spec fn action_view(a: CardAction) -> ActionView {
    match a {
        CardAction::Comment(b) => ActionView::Comment(b@),
        CardAction::Worklog { minutes, note } => ActionView::Worklog(minutes as int, crate::text::opt_string_view(note)),
        CardAction::MoveTo(c) => ActionView::MoveTo(c),
    }
}

/// What one command does: a comment that is no valid comment body is
/// skipped, and so is a directive that names no status category.
pub open spec fn action_of(c: CommandView) -> Option<ActionView> {
    match c {
        CommandView::Comment(b) => match body_rule(b) {
            Ok(t) => Some(ActionView::Comment(t)),
            Err(_) => None,
        },
        CommandView::Time(m, n) => Some(ActionView::Worklog(m, n)),
        CommandView::Transition(d) => match directive_rule(d) {
            Some(cat) => Some(ActionView::MoveTo(cat)),
            None => None,
        },
    }
}

/// What a run of commands does to a card, in their order.
pub open spec fn actions_rule(cs: Seq<CommandView>) -> Seq<ActionView>
    decreases cs.len(),
{
    if cs.len() == 0 {
        Seq::empty()
    } else {
        let rest = actions_rule(cs.drop_last());
        match action_of(cs.last()) {
            Some(a) => rest.push(a),
            None => rest,
        }
    }
}

/// The actions a smart commit's commands take on one of its cards, in
/// order: each valid comment, each worklog, and each move to a status
/// category. A comment that is empty or too long, and a directive that names
/// no category, do nothing.
pub fn card_actions(commands: &Vec<Command>) -> (actions: Vec<CardAction>)
    ensures
        actions@.map_values(|a: CardAction| action_view(a)) == actions_rule(
            commands@.map_values(|c: Command| c@),
        ),
{
    let ghost cv = commands@.map_values(|c: Command| c@);
    let mut out: Vec<CardAction> = Vec::new();
    let mut i: usize = 0;
    proof {
        assert(out@.map_values(|a: CardAction| action_view(a)) =~= actions_rule(cv.take(0)));
    }
    while i < commands.len()
        invariant
            i <= commands.len(),
            cv == commands@.map_values(|c: Command| c@),
            out@.map_values(|a: CardAction| action_view(a)) == actions_rule(cv.take(i as int)),
        decreases commands.len() - i,
    {
        let ghost before = out@;
        assert(cv.take(i as int + 1).drop_last() =~= cv.take(i as int));
        assert(cv.take(i as int + 1).last() == commands@[i as int]@);
        match &commands[i] {
            Command::Comment(body) => {
                if let Ok(b) = validate_body(body.as_str()) {
                    out.push(CardAction::Comment(b));
                    assert(out@.map_values(|a: CardAction| action_view(a)) =~= before.map_values(
                        |a: CardAction| action_view(a),
                    ).push(action_of(commands@[i as int]@).unwrap()));
                }
            },
            Command::Time { minutes, note } => {
                let n = match note {
                    Some(t) => Some(t.clone()),
                    None => None,
                };
                out.push(CardAction::Worklog { minutes: *minutes, note: n });
                assert(out@.map_values(|a: CardAction| action_view(a)) =~= before.map_values(
                    |a: CardAction| action_view(a),
                ).push(action_of(commands@[i as int]@).unwrap()));
            },
            Command::Transition(directive) => {
                if let Some(cat) = directive_category(directive.as_str()) {
                    out.push(CardAction::MoveTo(cat));
                    assert(out@.map_values(|a: CardAction| action_view(a)) =~= before.map_values(
                        |a: CardAction| action_view(a),
                    ).push(action_of(commands@[i as int]@).unwrap()));
                }
            },
        }
        i = i + 1;
    }
    assert(cv.take(cv.len() as int) =~= cv);
    out
}

/// The `(commit, key)` pairs applying smart commits visits, in order: each
/// key of each commit that carries commands; a link-only commit changes no
/// card.
pub open spec fn visits(cs: Seq<(Seq<Seq<char>>, Seq<CommandView>)>) -> Seq<(int, Seq<char>)>
    decreases cs.len(),
{
    if cs.len() == 0 {
        Seq::empty()
    } else {
        let n = cs.len() - 1;
        let rest = visits(cs.drop_last());
        if cs[n].1.len() == 0 {
            rest
        } else {
            rest + cs[n].0.map_values(|k: Seq<char>| (n, k))
        }
    }
}

/// The card keys applying `commits` visits, each with the index of the
/// commit whose commands it receives: every key of every commit that is not
/// link-only, in order. The caller then touches only the keys that name a
/// card of the repository's project.
pub fn keys_to_apply(commits: &Vec<SmartCommit>) -> (out: Vec<(usize, String)>)
    ensures
        out@.map_values(|p: (usize, String)| (p.0 as int, p.1@)) == visits(commits_view(commits@)),
{
    let ghost cv = commits_view(commits@);
    let mut out: Vec<(usize, String)> = Vec::new();
    let mut i: usize = 0;
    proof {
        assert(out@.map_values(|p: (usize, String)| (p.0 as int, p.1@)) =~= visits(cv.take(0)));
    }
    while i < commits.len()
        invariant
            i <= commits.len(),
            cv == commits_view(commits@),
            out@.map_values(|p: (usize, String)| (p.0 as int, p.1@)) == visits(cv.take(i as int)),
        decreases commits.len() - i,
    {
        let ghost before = out@.map_values(|p: (usize, String)| (p.0 as int, p.1@));
        let c = &commits[i];
        assert(cv.take(i as int + 1).drop_last() =~= cv.take(i as int));
        assert(cv.take(i as int + 1)[i as int] == commit_view(*c));
        if !c.is_link_only() {
            let mut j: usize = 0;
            while j < c.keys.len()
                invariant
                    j <= c.keys.len(),
                    c == &commits@[i as int],
                    i < commits.len(),
                    out@.map_values(|p: (usize, String)| (p.0 as int, p.1@)) == before + c.keys@.take(
                        j as int,
                    ).map_values(|k: String| (i as int, k@)),
                decreases c.keys.len() - j,
            {
                let ghost mid = out@;
                out.push((i, c.keys[j].clone()));
                assert(c.keys@.take(j as int + 1).map_values(|k: String| (i as int, k@)) =~= c.keys@.take(
                    j as int,
                ).map_values(|k: String| (i as int, k@)).push((i as int, c.keys@[j as int]@)));
                assert(out@.map_values(|p: (usize, String)| (p.0 as int, p.1@)) =~= mid.map_values(
                    |p: (usize, String)| (p.0 as int, p.1@),
                ).push((i as int, c.keys@[j as int]@)));
                j = j + 1;
            }
            assert(c.keys@.take(c.keys@.len() as int) =~= c.keys@);
            assert(commit_view(*c).0.map_values(|k: Seq<char>| (i as int, k)) =~= c.keys@.map_values(
                |k: String| (i as int, k@),
            ));
        }
        i = i + 1;
    }
    assert(cv.take(cv.len() as int) =~= cv);
    out
}

} // verus!
