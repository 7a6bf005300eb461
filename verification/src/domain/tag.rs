//! Tags: a closed palette, a name rule with no whitespace in it, and the preset
//! lists each template seeds.
//!
//! The no-whitespace rule exists for the query language: `tag = needs review`
//! is ambiguous, `tag = needs-review` is not. So a name with any whitespace in
//! it is refused, and the refusal shows the hyphenated name to type instead.

use vstd::prelude::*;

use crate::domain::template::Template;
use crate::error::{AppError, AppResult};
use crate::text::{
    any_char, copy_str, debug_quote, debug_quoted, has_ctrl, has_ws, is_ctrl, is_ws,
    is_ws_char, lower_seq, opt_string_view, skip_ws, back_ws, push_char, str_eq, string_of, trim, trimmed_chars,
};

verus! {

/// Longest accepted tag name, in characters.
pub const MAX_NAME: usize = 50;

/// Why a tag colour could not be read: the text that was offered.
#[derive(Debug)]
pub struct TagColourError(pub String);

impl TagColourError {
    /// The error as text: `unknown tag colour` and the offered text, quoted.
    pub fn to_string(&self) -> (text: String)
        ensures
            text@ == "unknown tag colour "@ + debug_quoted(self.0@),
    {
        let mut s = "unknown tag colour ".to_owned();
        let q = debug_quote(self.0.as_str());
        s.append(q.as_str());
        s
    }
}

/// The palette a tag chip may be painted from: each name is an accent ramp
/// the frontend resolves to a contrast-checked pair in both themes.
#[derive(Debug, Clone, Copy, PartialEq, Eq, Hash, Structural)]
pub enum TagColour {
    /// The default neutral chip.
    Standard,
    /// Neutral: "no strong signal".
    Grey,
    /// Blue.
    Blue,
    /// Teal.
    Teal,
    /// Green: conventionally the good ending.
    Green,
    /// Lime.
    Lime,
    /// Yellow: conventionally "waiting on something".
    Yellow,
    /// Orange.
    Orange,
    /// Red: conventionally trouble.
    Red,
    /// Magenta.
    Magenta,
    /// Purple.
    Purple,
}

impl Default for TagColour {
    fn default() -> (c: Self)
        ensures
            c == TagColour::Standard,
    {
        TagColour::Standard
    }
}

/// The database, JSON and CSS spelling of each colour.
pub open spec fn colour_name(c: TagColour) -> Seq<char> {
    match c {
        TagColour::Standard => "standard"@,
        TagColour::Grey => "grey"@,
        TagColour::Blue => "blue"@,
        TagColour::Teal => "teal"@,
        TagColour::Green => "green"@,
        TagColour::Lime => "lime"@,
        TagColour::Yellow => "yellow"@,
        TagColour::Orange => "orange"@,
        TagColour::Red => "red"@,
        TagColour::Magenta => "magenta"@,
        TagColour::Purple => "purple"@,
    }
}

/// The colour a spelling names, if any.
pub open spec fn colour_named(s: Seq<char>) -> Option<TagColour> {
    if s == "standard"@ {
        Some(TagColour::Standard)
    } else if s == "grey"@ {
        Some(TagColour::Grey)
    } else if s == "blue"@ {
        Some(TagColour::Blue)
    } else if s == "teal"@ {
        Some(TagColour::Teal)
    } else if s == "green"@ {
        Some(TagColour::Green)
    } else if s == "lime"@ {
        Some(TagColour::Lime)
    } else if s == "yellow"@ {
        Some(TagColour::Yellow)
    } else if s == "orange"@ {
        Some(TagColour::Orange)
    } else if s == "red"@ {
        Some(TagColour::Red)
    } else if s == "magenta"@ {
        Some(TagColour::Magenta)
    } else if s == "purple"@ {
        Some(TagColour::Purple)
    } else {
        None
    }
}

impl TagColour {
    /// The colour's database, JSON and CSS spelling.
    pub fn as_str(self) -> (s: &'static str)
        ensures
            s@ == colour_name(self),
    {
        match self {
            TagColour::Standard => "standard",
            TagColour::Grey => "grey",
            TagColour::Blue => "blue",
            TagColour::Teal => "teal",
            TagColour::Green => "green",
            TagColour::Lime => "lime",
            TagColour::Yellow => "yellow",
            TagColour::Orange => "orange",
            TagColour::Red => "red",
            TagColour::Magenta => "magenta",
            TagColour::Purple => "purple",
        }
    }

    /// Every colour, for the picker.
    pub fn all() -> (all: [Self; 11])
        ensures
            all@ == seq![
                TagColour::Standard,
                TagColour::Grey,
                TagColour::Blue,
                TagColour::Teal,
                TagColour::Green,
                TagColour::Lime,
                TagColour::Yellow,
                TagColour::Orange,
                TagColour::Red,
                TagColour::Magenta,
                TagColour::Purple,
            ],
    {
        [
            TagColour::Standard,
            TagColour::Grey,
            TagColour::Blue,
            TagColour::Teal,
            TagColour::Green,
            TagColour::Lime,
            TagColour::Yellow,
            TagColour::Orange,
            TagColour::Red,
            TagColour::Magenta,
            TagColour::Purple,
        ]
    }

    /// Reads a colour from its spelling: lowercase names only, never a hex,
    /// because a colour with no CSS variable behind it renders an invisible
    /// chip.
    pub fn parse(s: &str) -> (res: Result<Self, TagColourError>)
        ensures
            match colour_named(s@) {
                Some(c) => res == Ok::<Self, TagColourError>(c),
                None => res matches Err(TagColourError(t)) && t@ == s@,
            },
    {
        if str_eq(s, "standard") {
            Ok(TagColour::Standard)
        } else if str_eq(s, "grey") {
            Ok(TagColour::Grey)
        } else if str_eq(s, "blue") {
            Ok(TagColour::Blue)
        } else if str_eq(s, "teal") {
            Ok(TagColour::Teal)
        } else if str_eq(s, "green") {
            Ok(TagColour::Green)
        } else if str_eq(s, "lime") {
            Ok(TagColour::Lime)
        } else if str_eq(s, "yellow") {
            Ok(TagColour::Yellow)
        } else if str_eq(s, "orange") {
            Ok(TagColour::Orange)
        } else if str_eq(s, "red") {
            Ok(TagColour::Red)
        } else if str_eq(s, "magenta") {
            Ok(TagColour::Magenta)
        } else if str_eq(s, "purple") {
            Ok(TagColour::Purple)
        } else {
            Err(TagColourError(copy_str(s)))
        }
    }
}

impl std::str::FromStr for TagColour {
    type Err = TagColourError;

    fn from_str(s: &str) -> (res: Result<Self, Self::Err>)
        ensures
            match colour_named(s@) {
                Some(c) => res == Ok::<Self, TagColourError>(c),
                None => res matches Err(TagColourError(t)) && t@ == s@,
            },
    {
        Self::parse(s)
    }
}

/// Every colour reads back from its own spelling.
pub proof fn lemma_colour_round_trip(c: TagColour)
    ensures
        colour_named(colour_name(c)) == Some(c),
{
    reveal_strlit("standard");
    reveal_strlit("grey");
    reveal_strlit("blue");
    reveal_strlit("teal");
    reveal_strlit("green");
    reveal_strlit("lime");
    reveal_strlit("yellow");
    reveal_strlit("orange");
    reveal_strlit("red");
    reveal_strlit("magenta");
    reveal_strlit("purple");
    assert("standard"@.len() == 8 && "grey"@.len() == 4 && "blue"@.len() == 4 && "teal"@.len() == 4);
    assert("green"@.len() == 5 && "lime"@.len() == 4 && "yellow"@.len() == 6 && "orange"@.len() == 6);
    assert("red"@.len() == 3 && "magenta"@.len() == 7 && "purple"@.len() == 6);
    assert("grey"@[0] == 'g' && "blue"@[0] == 'b' && "teal"@[0] == 't' && "lime"@[0] == 'l');
    assert("yellow"@[0] == 'y' && "orange"@[0] == 'o' && "purple"@[0] == 'p');
}

/// A tag row.
#[derive(Debug, Clone, PartialEq, Eq)]
pub struct Tag {
    /// UUID v7, as text.
    pub id: String,
    /// The owning project, or `None` for a global tag usable from anywhere.
    pub project_id: Option<String>,
    /// The label. Never contains whitespace: see [`validate_name`].
    pub name: String,
    /// An accent name, or `None` for the neutral chip.
    pub colour: Option<TagColour>,
    /// When it was created, as RFC 3339 text.
    pub created_at: String,
}

/// A tag, with how many live cards of the listed project carry it.
#[derive(Debug, Clone, PartialEq, Eq)]
pub struct TagUsage {
    /// The tag itself.
    pub tag: Tag,
    /// How many live cards of the listed project carry it.
    pub usage_count: i64,
}

/// The state of turning a name into its hyphenated suggestion, after the
/// characters of `s`: the words seen so far joined by `-`, and whether a run of
/// whitespace has been seen since the last word began.
pub open spec fn hyphen_state(s: Seq<char>) -> (Seq<char>, bool)
    decreases s.len(),
{
    if s.len() == 0 {
        (Seq::empty(), false)
    } else {
        let (out, gap) = hyphen_state(s.drop_last());
        let c = s.last();
        if is_ws(c) {
            (out, out.len() > 0)
        } else if gap {
            (out.push('-').push(c), false)
        } else {
            (out.push(c), false)
        }
    }
}

/// The whitespace-separated words of `s` joined by `-`: `needs review`
/// becomes `needs-review`.
pub open spec fn hyphenated(s: Seq<char>) -> Seq<char> {
    hyphen_state(s).0
}

/// The verdict on a tag name: trimmed, then refused when empty, when it holds
/// whitespace (with the hyphenated spelling to type instead), when it holds a
/// control character, or when it is longer than [`MAX_NAME`] characters. The
/// whitespace check comes before the control check, so a tab reads as a space.
pub open spec fn tag_name_rule(s: Seq<char>) -> Result<Seq<char>, Seq<char>> {
    let t = trim(s);
    if t.len() == 0 {
        Err("A tag name must not be empty."@)
    } else if any_char(t, |c: char| is_ws(c)) {
        Err("A tag name must not contain spaces. Try "@ + debug_quoted(hyphenated(t)) + "."@)
    } else if any_char(t, |c: char| is_ctrl(c)) {
        Err("A tag name must not contain control characters."@)
    } else if t.len() > MAX_NAME {
        Err("A tag name must be at most 50 characters long."@)
    } else {
        Ok(t)
    }
}

/// The hyphenated suggestion for `name`.
fn hyphenate(name: &Vec<char>) -> (out: String)
    ensures
        out@ == hyphenated(name@),
{
    let mut out = String::new();
    let mut gap = false;
    let mut started = false;
    let mut i: usize = 0;
    while i < name.len()
        invariant
            i <= name.len(),
            (out@, gap) == hyphen_state(name@.take(i as int)),
            started == (out@.len() > 0),
        decreases name.len() - i,
    {
        let c = name[i];
        proof {
            assert(name@.take(i + 1).drop_last() == name@.take(i as int));
            assert(name@.take(i + 1).last() == c);
        }
        if is_ws_char(c) {
            gap = started;
        } else {
            if gap {
                push_char(&mut out, '-');
            }
            push_char(&mut out, c);
            gap = false;
            started = true;
        }
        i = i + 1;
    }
    proof {
        assert(name@.take(name.len() as int) == name@);
    }
    out
}

/// Checks a tag name by [`tag_name_rule`], returning it trimmed.
pub fn validate_name(name: &str) -> (res: AppResult<String>)
    ensures
        crate::error::validated(res, tag_name_rule(name@)),
{
    let t = trimmed_chars(name);
    if t.len() == 0 {
        return Err(AppError::Validation("A tag name must not be empty.".to_owned()));
    }
    if has_ws(&t) {
        let mut m = "A tag name must not contain spaces. Try ".to_owned();
        let h = hyphenate(&t);
        let q = debug_quote(h.as_str());
        m.append(q.as_str());
        m.append(".");
        return Err(AppError::Validation(m));
    }
    if has_ctrl(&t) {
        return Err(AppError::Validation("A tag name must not contain control characters.".to_owned()));
    }
    if t.len() > MAX_NAME {
        return Err(AppError::Validation("A tag name must be at most 50 characters long.".to_owned()));
    }
    Ok(string_of(&t))
}

/// The hyphenated suggestion never holds whitespace, so it is itself a name
/// the whitespace rule accepts.
pub proof fn lemma_suggestion_has_no_whitespace(s: Seq<char>)
    ensures
        !any_char(hyphenated(s), |c: char| is_ws(c)),
    decreases s.len(),
{
    lemma_hyphen_state_clean(s);
}

proof fn lemma_hyphen_state_clean(s: Seq<char>)
    ensures
        forall|k: int| 0 <= k < hyphen_state(s).0.len() ==> !is_ws(#[trigger] hyphen_state(s).0[k]),
    decreases s.len(),
{
    if s.len() > 0 {
        lemma_hyphen_state_clean(s.drop_last());
        let (out, gap) = hyphen_state(s.drop_last());
        let c = s.last();
        if !is_ws(c) {
            if gap {
                assert forall|k: int| 0 <= k < out.push('-').push(c).len() implies !is_ws(#[trigger] out.push('-').push(c)[k]) by {
                    if k < out.len() {
                        assert(out.push('-').push(c)[k] == out[k]);
                    }
                }
            } else {
                assert forall|k: int| 0 <= k < out.push(c).len() implies !is_ws(#[trigger] out.push(c)[k]) by {
                    if k < out.len() {
                        assert(out.push(c)[k] == out[k]);
                    }
                }
            }
        }
    }
}

/// What an update changes. `None` leaves a field alone.
#[derive(Debug, Clone)]
pub struct TagPatch {
    /// The new name.
    pub name: Option<String>,
    /// The new colour. `Some(None)` clears it back to the neutral chip.
    pub colour: Option<Option<TagColour>>,
}

impl Default for TagPatch {
    fn default() -> (p: Self)
        ensures
            p.name is None && p.colour is None,
    {
        TagPatch { name: None, colour: None }
    }
}

impl TagPatch {
    /// Whether this patch would change nothing. Clearing the colour is a
    /// change, not an absence.
    pub fn is_empty(&self) -> (b: bool)
        ensures
            b == (self.name is None && self.colour is None),
    {
        self.name.is_none() && self.colour.is_none()
    }
}

/// Whether a tag may be used from a project: it is the project's own, or it
/// is global.
pub open spec fn usable_rule(owner: Option<Seq<char>>, project_id: Seq<char>) -> bool {
    match owner {
        None => true,
        Some(o) => o == project_id,
    }
}

/// Whether `tag` is usable from `project_id`: global tags everywhere, a
/// project's tag only in that project.
pub fn usable_from(tag: &Tag, project_id: &str) -> (b: bool)
    ensures
        b == usable_rule(opt_string_view(tag.project_id), project_id@),
{
    match &tag.project_id {
        None => true,
        Some(owner) => str_eq(owner.as_str(), project_id),
    }
}

/// The first guard of a merge: a tag cannot be merged into itself.
pub fn check_merge_ids(source_id: &str, into_id: &str) -> (res: AppResult<()>)
    ensures
        source_id@ == into_id@ ==> (res matches Err(AppError::Validation(m))
            && m@ == "A tag cannot be merged into itself."@),
        source_id@ != into_id@ ==> res is Ok,
{
    if str_eq(source_id, into_id) {
        return Err(AppError::Validation("A tag cannot be merged into itself.".to_owned()));
    }
    Ok(())
}

/// The second guard of a merge, once both tags are found: both must belong to
/// the same project, or both be global, since a merge across scopes would
/// retag cards the caller cannot see.
pub fn check_merge_scopes(source: &Tag, into: &Tag) -> (res: AppResult<()>)
    ensures
        opt_string_view(source.project_id) != opt_string_view(into.project_id) ==> (res matches Err(
            AppError::Validation(m),
        ) && m@ == "Both tags must belong to the same project, or both must be global. Merging across projects would retag cards the caller cannot see."@),
        opt_string_view(source.project_id) == opt_string_view(into.project_id) ==> res is Ok,
{
    let same = match (&source.project_id, &into.project_id) {
        (None, None) => true,
        (Some(a), Some(b)) => str_eq(a.as_str(), b.as_str()),
        _ => false,
    };
    if !same {
        return Err(AppError::Validation(
            "Both tags must belong to the same project, or both must be global. Merging across projects would retag cards the caller cannot see.".to_owned(),
        ));
    }
    Ok(())
}

/// The tags each template seeds, `(name, colour)`: one list per template,
/// because the lists are alternatives and `blocked` appears in two of them.
pub open spec fn tag_presets(t: Template) -> Seq<(&'static str, TagColour)> {
    match t {
        Template::Programming => seq![
            ("bug", TagColour::Red),
            ("feature", TagColour::Green),
            ("refactor", TagColour::Blue),
            ("tech-debt", TagColour::Orange),
            ("docs", TagColour::Teal),
            ("testing", TagColour::Purple),
            ("ci", TagColour::Grey),
            ("dependencies", TagColour::Grey),
            ("security", TagColour::Red),
            ("breaking-change", TagColour::Red),
            ("hotfix", TagColour::Orange),
            ("performance", TagColour::Yellow),
            ("blocked", TagColour::Red),
            ("needs-review", TagColour::Yellow),
            ("good-first-issue", TagColour::Lime),
        ],
        Template::ThreeDModeling => seq![
            ("modeling", TagColour::Blue),
            ("sculpting", TagColour::Blue),
            ("retopo", TagColour::Blue),
            ("uv-unwrap", TagColour::Teal),
            ("texturing", TagColour::Teal),
            ("rigging", TagColour::Purple),
            ("animation", TagColour::Purple),
            ("lighting", TagColour::Yellow),
            ("rendering", TagColour::Orange),
            ("post-process", TagColour::Orange),
            ("reference", TagColour::Grey),
            ("wip", TagColour::Yellow),
            ("client-review", TagColour::Magenta),
            ("approved", TagColour::Green),
            ("revision", TagColour::Red),
        ],
        Template::JobSearch => seq![
            ("applied", TagColour::Grey),
            ("phone-screen", TagColour::Blue),
            ("technical-interview", TagColour::Blue),
            ("onsite", TagColour::Blue),
            ("take-home", TagColour::Blue),
            ("offer", TagColour::Green),
            ("rejected", TagColour::Red),
            ("ghosted", TagColour::Grey),
            ("follow-up", TagColour::Yellow),
            ("referral", TagColour::Purple),
            ("remote", TagColour::Teal),
            ("hybrid", TagColour::Teal),
            ("onsite-only", TagColour::Teal),
            ("contract", TagColour::Magenta),
            ("permanent", TagColour::Magenta),
        ],
        Template::Blank => seq![
            ("urgent", TagColour::Red),
            ("blocked", TagColour::Red),
            ("waiting", TagColour::Yellow),
            ("research", TagColour::Purple),
            ("idea", TagColour::Lime),
            ("question", TagColour::Blue),
            ("admin", TagColour::Grey),
        ],
    }
}

/// The tags a template seeds.
pub fn presets(template: Template) -> (v: Vec<(&'static str, TagColour)>)
    ensures
        v@ == tag_presets(template),
{
    match template {
        Template::Programming => vec![
            ("bug", TagColour::Red),
            ("feature", TagColour::Green),
            ("refactor", TagColour::Blue),
            ("tech-debt", TagColour::Orange),
            ("docs", TagColour::Teal),
            ("testing", TagColour::Purple),
            ("ci", TagColour::Grey),
            ("dependencies", TagColour::Grey),
            ("security", TagColour::Red),
            ("breaking-change", TagColour::Red),
            ("hotfix", TagColour::Orange),
            ("performance", TagColour::Yellow),
            ("blocked", TagColour::Red),
            ("needs-review", TagColour::Yellow),
            ("good-first-issue", TagColour::Lime),
        ],
        Template::ThreeDModeling => vec![
            ("modeling", TagColour::Blue),
            ("sculpting", TagColour::Blue),
            ("retopo", TagColour::Blue),
            ("uv-unwrap", TagColour::Teal),
            ("texturing", TagColour::Teal),
            ("rigging", TagColour::Purple),
            ("animation", TagColour::Purple),
            ("lighting", TagColour::Yellow),
            ("rendering", TagColour::Orange),
            ("post-process", TagColour::Orange),
            ("reference", TagColour::Grey),
            ("wip", TagColour::Yellow),
            ("client-review", TagColour::Magenta),
            ("approved", TagColour::Green),
            ("revision", TagColour::Red),
        ],
        Template::JobSearch => vec![
            ("applied", TagColour::Grey),
            ("phone-screen", TagColour::Blue),
            ("technical-interview", TagColour::Blue),
            ("onsite", TagColour::Blue),
            ("take-home", TagColour::Blue),
            ("offer", TagColour::Green),
            ("rejected", TagColour::Red),
            ("ghosted", TagColour::Grey),
            ("follow-up", TagColour::Yellow),
            ("referral", TagColour::Purple),
            ("remote", TagColour::Teal),
            ("hybrid", TagColour::Teal),
            ("onsite-only", TagColour::Teal),
            ("contract", TagColour::Magenta),
            ("permanent", TagColour::Magenta),
        ],
        Template::Blank => vec![
            ("urgent", TagColour::Red),
            ("blocked", TagColour::Red),
            ("waiting", TagColour::Yellow),
            ("research", TagColour::Purple),
            ("idea", TagColour::Lime),
            ("question", TagColour::Blue),
            ("admin", TagColour::Grey),
        ],
    }
}

/// A lowercase ASCII letter, an ASCII digit or `-`: what every preset name is
/// spelled with.
pub open spec fn is_slug_char(c: char) -> bool {
    ('a' <= c && c <= 'z') || ('0' <= c && c <= '9') || c == '-'
}

/// A name spelled only with [`is_slug_char`] characters, neither empty nor
/// longer than [`MAX_NAME`].
pub open spec fn is_slug(s: Seq<char>) -> bool {
    &&& 0 < s.len() <= MAX_NAME
    &&& forall|k: int| 0 <= k < s.len() ==> is_slug_char(#[trigger] s[k])
}

/// A slug passes the tag name rule unchanged and is its own lowercase form.
proof fn lemma_slug_is_valid_name(s: Seq<char>)
    requires
        is_slug(s),
    ensures
        tag_name_rule(s) == Ok::<Seq<char>, Seq<char>>(s),
        lower_seq(s) == s,
{
    assert(!is_ws(s[0]));
    assert(skip_ws(s, 0) == 0);
    assert(s.subrange(0, s.len() as int) =~= s);
    assert(!is_ws(s[s.len() - 1]));
    assert(back_ws(s, 0, s.len() as int) == s.len());
    assert(trim(s) =~= s);
    assert(!any_char(s, |c: char| is_ws(c))) by {
        assert forall|k: int| 0 <= k < s.len() implies !is_ws(s[k]) by {
            assert(is_slug_char(s[k]));
        }
    }
    assert(!any_char(s, |c: char| is_ctrl(c))) by {
        assert forall|k: int| 0 <= k < s.len() implies !is_ctrl(s[k]) by {
            assert(is_slug_char(s[k]));
        }
    }
    assert(lower_seq(s) =~= s) by {
        assert forall|k: int| 0 <= k < s.len() implies lower_seq(s)[k] == s[k] by {
            assert(is_slug_char(s[k]));
        }
    }
}

/// The seed list of one template is sound: every name is a slug, and no two
/// names are the same.
pub open spec fn presets_sound(p: Seq<(&'static str, TagColour)>) -> bool {
    &&& forall|i: int| 0 <= i < p.len() ==> is_slug(#[trigger] p[i].0@)
    &&& forall|i: int, j: int| 0 <= i < j < p.len() ==> #[trigger] p[i].0@ != #[trigger] p[j].0@
}

proof fn lemma_programming_presets_sound()
    ensures
        presets_sound(tag_presets(Template::Programming)),
{
        reveal_strlit("bug");
        reveal_strlit("feature");
        reveal_strlit("refactor");
        reveal_strlit("tech-debt");
        reveal_strlit("docs");
        reveal_strlit("testing");
        reveal_strlit("ci");
        reveal_strlit("dependencies");
        reveal_strlit("security");
        reveal_strlit("breaking-change");
        reveal_strlit("hotfix");
        reveal_strlit("performance");
        reveal_strlit("blocked");
        reveal_strlit("needs-review");
        reveal_strlit("good-first-issue");
    let p = tag_presets(Template::Programming);
    assert forall|i: int| 0 <= i < p.len() implies is_slug(#[trigger] p[i].0@) by {}
    assert forall|i: int, j: int| 0 <= i < j < p.len() implies #[trigger] p[i].0@ != #[trigger] p[j].0@ by {
        let (a, b) = (p[i].0@, p[j].0@);
        assert(a.len() != b.len() || a[0] != b[0] || a[a.len() - 1] != b[b.len() - 1]);
    }
}

proof fn lemma_modeling_presets_sound()
    ensures
        presets_sound(tag_presets(Template::ThreeDModeling)),
{
        reveal_strlit("modeling");
        reveal_strlit("sculpting");
        reveal_strlit("retopo");
        reveal_strlit("uv-unwrap");
        reveal_strlit("texturing");
        reveal_strlit("rigging");
        reveal_strlit("animation");
        reveal_strlit("lighting");
        reveal_strlit("rendering");
        reveal_strlit("post-process");
        reveal_strlit("reference");
        reveal_strlit("wip");
        reveal_strlit("client-review");
        reveal_strlit("approved");
        reveal_strlit("revision");
    let p = tag_presets(Template::ThreeDModeling);
    assert forall|i: int| 0 <= i < p.len() implies is_slug(#[trigger] p[i].0@) by {}
    assert forall|i: int, j: int| 0 <= i < j < p.len() implies #[trigger] p[i].0@ != #[trigger] p[j].0@ by {
        let (a, b) = (p[i].0@, p[j].0@);
        assert(a.len() != b.len() || a[0] != b[0] || a[a.len() - 1] != b[b.len() - 1]);
    }
}

proof fn lemma_job_search_presets_sound()
    ensures
        presets_sound(tag_presets(Template::JobSearch)),
{
        reveal_strlit("applied");
        reveal_strlit("phone-screen");
        reveal_strlit("technical-interview");
        reveal_strlit("onsite");
        reveal_strlit("take-home");
        reveal_strlit("offer");
        reveal_strlit("rejected");
        reveal_strlit("ghosted");
        reveal_strlit("follow-up");
        reveal_strlit("referral");
        reveal_strlit("remote");
        reveal_strlit("hybrid");
        reveal_strlit("onsite-only");
        reveal_strlit("contract");
        reveal_strlit("permanent");
    let p = tag_presets(Template::JobSearch);
    assert forall|i: int| 0 <= i < p.len() implies is_slug(#[trigger] p[i].0@) by {}
    assert forall|i: int, j: int| 0 <= i < j < p.len() implies #[trigger] p[i].0@ != #[trigger] p[j].0@ by {
        let (a, b) = (p[i].0@, p[j].0@);
        assert(a.len() != b.len() || a[0] != b[0] || a[a.len() - 1] != b[b.len() - 1]);
    }
}

proof fn lemma_blank_presets_sound()
    ensures
        presets_sound(tag_presets(Template::Blank)),
{
        reveal_strlit("urgent");
        reveal_strlit("blocked");
        reveal_strlit("waiting");
        reveal_strlit("research");
        reveal_strlit("idea");
        reveal_strlit("question");
        reveal_strlit("admin");
    let p = tag_presets(Template::Blank);
    assert forall|i: int| 0 <= i < p.len() implies is_slug(#[trigger] p[i].0@) by {}
    assert forall|i: int, j: int| 0 <= i < j < p.len() implies #[trigger] p[i].0@ != #[trigger] p[j].0@ by {
        let (a, b) = (p[i].0@, p[j].0@);
        assert(a.len() != b.len() || a[0] != b[0] || a[a.len() - 1] != b[b.len() - 1]);
    }
}

/// Every tag a template seeds is a name [`validate_name`] accepts as it is, and
/// no two tags one template seeds collide, not even once lowercased.
pub proof fn lemma_presets_are_valid_and_distinct(t: Template)
    ensures
        forall|i: int| 0 <= i < tag_presets(t).len()
            ==> tag_name_rule(#[trigger] tag_presets(t)[i].0@) == Ok::<Seq<char>, Seq<char>>(tag_presets(t)[i].0@),
        forall|i: int, j: int| 0 <= i < j < tag_presets(t).len()
            ==> lower_seq(#[trigger] tag_presets(t)[i].0@) != lower_seq(#[trigger] tag_presets(t)[j].0@),
{
    match t {
        Template::Programming => lemma_programming_presets_sound(),
        Template::ThreeDModeling => lemma_modeling_presets_sound(),
        Template::JobSearch => lemma_job_search_presets_sound(),
        Template::Blank => lemma_blank_presets_sound(),
    }
    let p = tag_presets(t);
    assert forall|i: int| 0 <= i < p.len() implies tag_name_rule(#[trigger] p[i].0@) == Ok::<Seq<char>, Seq<char>>(p[i].0@) by {
        lemma_slug_is_valid_name(p[i].0@);
    }
    assert forall|i: int, j: int| 0 <= i < j < p.len() implies lower_seq(#[trigger] p[i].0@) != lower_seq(#[trigger] p[j].0@) by {
        lemma_slug_is_valid_name(p[i].0@);
        lemma_slug_is_valid_name(p[j].0@);
    }
}

} // verus!
