//! The rule for a comment body.

use vstd::prelude::*;

use crate::error::AppResult;
use crate::text::{check_name, name_rule};

verus! {

/// Longest accepted comment body, in characters.
pub const MAX_BODY: usize = 65536;

/// The body rule: markdown, so trimmed and bounded but not otherwise policed.
pub open spec fn body_rule(s: Seq<char>) -> Result<Seq<char>, Seq<char>> {
    name_rule(
        s,
        MAX_BODY as nat,
        false,
        "A comment must not be empty."@,
        "A comment must be at most 65536 characters long."@,
        Seq::empty(),
    )
}

/// Checks a comment body, returning it trimmed.
pub fn validate_body(body: &str) -> (res: AppResult<String>)
    ensures
        crate::error::validated(res, body_rule(body@)),
{
    check_name(
        body,
        MAX_BODY,
        false,
        "A comment must not be empty.",
        "A comment must be at most 65536 characters long.",
        "",
    )
}

/// A comment on a card. Timestamps are the text they are stored as.
#[derive(Debug, Clone)]
pub struct Comment {
    /// The comment's id.
    pub id: String,
    /// The card it is on.
    pub card_id: String,
    /// Who wrote it.
    pub author_id: String,
    /// Markdown source.
    pub body: String,
    /// When it was written.
    pub created_at: String,
    /// When it last changed.
    pub updated_at: String,
    /// When its body was last edited; `None` for a comment never edited.
    pub edited_at: Option<String>,
}

/// The comment an edit to `body` leaves: `None` when the body is what it
/// already was (nothing is written, and the comment does not show as
/// edited); otherwise the new body, updated and marked edited `now`.
pub fn edited(comment: &Comment, body: &str, now: &str) -> (next: Option<Comment>)
    ensures
        comment.body@ == body@ <==> next is None,
        next matches Some(c) ==> {
            &&& c.id@ == comment.id@
            &&& c.card_id@ == comment.card_id@
            &&& c.author_id@ == comment.author_id@
            &&& c.body@ == body@
            &&& c.created_at@ == comment.created_at@
            &&& c.updated_at@ == now@
            &&& crate::text::opt_string_view(c.edited_at) == Some(now@)
        },
{
    if crate::text::str_eq(comment.body.as_str(), body) {
        return None;
    }
    Some(Comment {
        id: comment.id.clone(),
        card_id: comment.card_id.clone(),
        author_id: comment.author_id.clone(),
        body: crate::text::copy_str(body),
        created_at: comment.created_at.clone(),
        updated_at: crate::text::copy_str(now),
        edited_at: Some(crate::text::copy_str(now)),
    })
}

} // verus!
