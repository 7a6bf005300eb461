//! The poll fallback's decisions: for a repo without a webhook, every open
//! pull-request link is re-read now and then, and a pull request that has
//! left the open state is recorded, and a merge moves its card to done.
//! The reads and writes are made outside this library.

use vstd::prelude::*;

use super::client::{PrState, PrSummary};
use super::smart_commit::{i64_text, parse_i64};
use super::store::CardGitLink;
use crate::text::{chars_of, i64_to_decimal, signed_decimal};

verus! {

/// The pull-request number a link records, if its ref reads as one; a link
/// whose ref does not is skipped.
pub fn pr_number(link: &CardGitLink) -> (n: Option<i64>)
    ensures
        match i64_text(link.git_ref@) {
            Some(v) => n == Some(v as i64),
            None => n is None,
        },
{
    let chars = chars_of(link.git_ref.as_str());
    parse_i64(&chars)
}

/// What a pull request that left the open state writes: its link on the
/// card, refreshed in place, and whether the card moves to done.
#[derive(Debug, Clone, PartialEq, Eq)]
pub struct TerminalUpdate {
    /// The card the link belongs to.
    pub card_id: String,
    /// The pull request number, as the link's ref.
    pub git_ref: String,
    /// The pull request's browser URL.
    pub url: String,
    /// `merged` or `closed`.
    pub state: String,
    /// The pull request's title, kept as the link's metadata.
    pub meta: String,
    /// Whether the card moves to its project's done status: only a merge
    /// does that.
    pub moves_to_done: bool,
}

/// The update a polled pull request calls for: nothing while it is open;
/// once merged or closed, its link with that state, and for a merge the
/// move of the card to done.
pub fn terminal_update(card_id: &str, pr: &PrSummary) -> (u: Option<TerminalUpdate>)
    ensures
        pr.state == PrState::Open <==> u is None,
        u matches Some(t) ==> {
            &&& t.card_id@ == card_id@
            &&& t.git_ref@ == signed_decimal(pr.number as int)
            &&& t.url@ == pr.html_url@
            &&& t.state@ == (if pr.state == PrState::Merged {
                "merged"@
            } else {
                "closed"@
            })
            &&& t.meta@ == pr.title@
            &&& t.moves_to_done == (pr.state == PrState::Merged)
        },
{
    let state = match pr.state {
        PrState::Merged => "merged",
        PrState::Closed => "closed",
        PrState::Open => {
            return None;
        },
    };
    Some(TerminalUpdate {
        card_id: crate::text::copy_str(card_id),
        git_ref: i64_to_decimal(pr.number),
        url: pr.html_url.clone(),
        state: crate::text::copy_str(state),
        meta: pr.title.clone(),
        moves_to_done: pr.state == PrState::Merged,
    })
}

} // verus!
