//! Project rules that need no database: the shape of a key, name and
//! description, and what a patch names.

use vstd::prelude::*;

use crate::domain::EstimationUnit;
use crate::error::{AppError, AppResult};
use crate::text::{
    all_chars, check_length, check_name, i64_to_decimal, is_alnum, is_alnum_char, is_alpha, is_alpha_char,
    length_rule, lemma_signed_decimal_injective, name_rule, signed_decimal, string_of, trim, trimmed_chars,
    upper_char, upper_seq,
};

verus! {

/// Longest accepted project key, in characters.
pub const MAX_KEY: usize = 10;

/// Longest accepted project name, in characters.
pub const MAX_NAME: usize = 128;

/// Longest accepted project description, in characters.
pub const MAX_DESCRIPTION: usize = 16384;

/// The key rule: trimmed and upper-cased, then non-empty, at most [`MAX_KEY`]
/// characters, starting with a letter, and letters and digits only. A card key
/// is parsed by splitting on its last `-`, so a key may hold none.
pub open spec fn key_rule(s: Seq<char>) -> Result<Seq<char>, Seq<char>> {
    let k = upper_seq(trim(s));
    if k.len() == 0 {
        Err("Project key must not be empty."@)
    } else if k.len() > MAX_KEY {
        Err("Project key must be at most 10 characters long."@)
    } else if !is_alpha(k[0]) {
        Err("Project key must start with a letter."@)
    } else if !all_chars(k, |c: char| is_alnum(c)) {
        Err("Project key must contain only letters and digits — no spaces, hyphens or punctuation. It becomes the prefix of every card key."@)
    } else {
        Ok(k)
    }
}

/// The project name rule.
pub open spec fn project_name_rule(s: Seq<char>) -> Result<Seq<char>, Seq<char>> {
    name_rule(
        s,
        MAX_NAME as nat,
        true,
        "Project name must not be empty."@,
        "Project name must be at most 128 characters long."@,
        "Project name must not contain control characters."@,
    )
}

/// The project description rule: markdown, so only the length is bounded.
pub open spec fn project_description_rule(s: Seq<char>) -> Result<Seq<char>, Seq<char>> {
    length_rule(s, MAX_DESCRIPTION as nat, "Description must be at most 16384 characters long."@)
}

/// Normalises and checks a project key: trimmed, upper-cased, then refused
/// unless it is a letter followed by letters and digits, at most ten of them.
pub fn validate_key(key: &str) -> (res: AppResult<String>)
    ensures
        crate::error::validated(res, key_rule(key@)),
{
    let t = trimmed_chars(key);
    let mut k: Vec<char> = Vec::new();
    let mut i: usize = 0;
    while i < t.len()
        invariant
            i <= t.len(),
            t@ == trim(key@),
            k@ == upper_seq(t@).take(i as int),
        decreases t.len() - i,
    {
        k.push(upper_char(t[i]));
        assert(upper_seq(t@).take(i + 1) == upper_seq(t@).take(i as int).push(upper_seq(t@)[i as int]));
        i = i + 1;
    }
    assert(upper_seq(t@).take(t@.len() as int) == upper_seq(t@));
    if k.len() == 0 {
        return Err(AppError::Validation("Project key must not be empty.".to_owned()));
    }
    if k.len() > MAX_KEY {
        return Err(AppError::Validation("Project key must be at most 10 characters long.".to_owned()));
    }
    if !is_alpha_char(k[0]) {
        return Err(AppError::Validation("Project key must start with a letter.".to_owned()));
    }
    let mut j: usize = 0;
    while j < k.len()
        invariant
            j <= k.len(),
            k@ == upper_seq(trim(key@)),
            0 < k.len() <= MAX_KEY,
            is_alpha(k@[0]),
            forall|m: int| 0 <= m < j ==> is_alnum(#[trigger] k@[m]),
        decreases k.len() - j,
    {
        if !is_alnum_char(k[j]) {
            assert(!all_chars(k@, |c: char| is_alnum(c))) by {
                assert(!(|c: char| is_alnum(c))(k@[j as int]));
            }
            return Err(AppError::Validation(
                "Project key must contain only letters and digits — no spaces, hyphens or punctuation. It becomes the prefix of every card key.".to_owned(),
            ));
        }
        j = j + 1;
    }
    Ok(string_of(&k))
}

/// Checks a project name, returning it trimmed.
pub fn validate_name(name: &str) -> (res: AppResult<String>)
    ensures
        crate::error::validated(res, project_name_rule(name@)),
{
    check_name(
        name,
        MAX_NAME,
        true,
        "Project name must not be empty.",
        "Project name must be at most 128 characters long.",
        "Project name must not contain control characters.",
    )
}

/// Checks a project description. Markdown, so only the length is bounded.
pub fn validate_description(description: &str) -> (res: AppResult<String>)
    ensures
        crate::error::validated(res, project_description_rule(description@)),
{
    check_length(description, MAX_DESCRIPTION, "Description must be at most 16384 characters long.")
}

/// A new project, ready to insert.
#[derive(Debug)]
pub struct NewProject {
    /// The card-key prefix, already through [`validate_key`].
    pub key: String,
    /// The human name.
    pub name: String,
    /// Optional markdown description.
    pub description: Option<String>,
    /// The project lead's user id.
    pub lead_id: Option<String>,
    /// Which template is seeding this project.
    pub template: String,
    /// Whether cycles are on.
    pub cycles_enabled: bool,
    /// How the `estimate` field is interpreted.
    pub estimation_unit: EstimationUnit,
}

/// The fields a project patch may change. `Option<Option<T>>` keeps "leave it"
/// and "clear it" apart on the nullable fields.
#[derive(Debug, Default)]
pub struct ProjectPatch {
    /// The name, if it is changing.
    pub name: Option<String>,
    /// `None` leaves it; `Some(None)` clears it; `Some(Some(v))` sets it.
    pub description: Option<Option<String>>,
    /// `None` leaves it; `Some(None)` clears it; `Some(Some(v))` sets it.
    pub lead_id: Option<Option<String>>,
    /// `None` leaves it; `Some(None)` clears it; `Some(Some(v))` sets it.
    pub avatar_url: Option<Option<String>>,
    /// `None` leaves it; `Some(None)` clears it; `Some(Some(v))` sets it.
    pub cover_image_url: Option<Option<String>>,
    /// Whether cycles are on, if it is changing.
    pub cycles_enabled: Option<bool>,
    /// The estimation unit, if it is changing.
    pub estimation_unit: Option<EstimationUnit>,
}

impl ProjectPatch {
    /// Whether this patch would change anything: true exactly when it names at
    /// least one field.
    pub fn is_empty(&self) -> (b: bool)
        ensures
            b == (self.name is Some || self.description is Some || self.lead_id is Some
                || self.avatar_url is Some || self.cover_image_url is Some
                || self.cycles_enabled is Some || self.estimation_unit is Some),
    {
        self.name.is_some() || self.description.is_some() || self.lead_id.is_some()
            || self.avatar_url.is_some() || self.cover_image_url.is_some()
            || self.cycles_enabled.is_some() || self.estimation_unit.is_some()
    }
}

/// A project. Timestamps are the text they are stored as.
#[derive(Debug, Clone)]
pub struct Project {
    /// The project's id.
    pub id: String,
    /// The card-key prefix: `ATLAS` in `ATLAS-123`.
    pub key: String,
    /// The human name.
    pub name: String,
    /// Optional markdown description.
    pub description: Option<String>,
    /// The project lead's user id.
    pub lead_id: Option<String>,
    /// Optional avatar URL.
    pub avatar_url: Option<String>,
    /// Optional cover image URL.
    pub cover_image_url: Option<String>,
    /// Which template seeded this project.
    pub template: String,
    /// The highest card number allocated so far; it never rewinds.
    pub card_counter: i64,
    /// Whether cycles are on for this project.
    pub cycles_enabled: bool,
    /// How this project's estimates are read.
    pub estimation_unit: EstimationUnit,
    /// When the project was archived; `None` for a live one.
    pub archived_at: Option<String>,
    /// When the project was created.
    pub created_at: String,
    /// When the project last changed.
    pub updated_at: String,
}

impl Project {
    /// Whether the project is archived.
    pub fn is_archived(&self) -> (b: bool)
        ensures
            b == self.archived_at is Some,
    {
        self.archived_at.is_some()
    }
}

/// The key of the card numbered `counter` in the project keyed `project_key`.
pub open spec fn card_key_text(project_key: Seq<char>, counter: int) -> Seq<char> {
    project_key + "-"@ + signed_decimal(counter)
}

/// The key a project's counter mints: the project key, a hyphen, and the
/// counter in decimal.
pub fn card_key(project_key: &str, counter: i64) -> (key: String)
    ensures
        key@ == card_key_text(project_key@, counter as int),
{
    let mut k = crate::text::copy_str(project_key);
    k.append("-");
    let n = i64_to_decimal(counter);
    k.append(n.as_str());
    k
}

/// Keys are never reused: within a project, distinct counter values mint
/// distinct card keys.
pub proof fn lemma_card_keys_distinct(project_key: Seq<char>, a: int, b: int)
    requires
        a != b,
    ensures
        card_key_text(project_key, a) != card_key_text(project_key, b),
{
    reveal_strlit("-");
    let ka = card_key_text(project_key, a);
    let kb = card_key_text(project_key, b);
    if ka == kb {
        let n: int = project_key.len() as int + 1;
        assert(ka.skip(n) =~= signed_decimal(a));
        assert(kb.skip(n) =~= signed_decimal(b));
        lemma_signed_decimal_injective(a, b);
    }
}

} // verus!
