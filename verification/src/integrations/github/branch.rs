//! Turning a card into a git branch name, safely.
//!
//! The scheme is `{type}/{key}-{slug}`, such as `feature/ATLAS-42-add-login`.
//! The key is kept verbatim, because webhooks and smart commits match on it;
//! the slug is derived from the summary and reduced to lowercase ASCII letters
//! and digits in groups joined by single dashes, which contains none of the
//! sequences `git check-ref-format` rejects.

use vstd::prelude::*;

use crate::text::{is_alnum, is_alnum_char, lower, lower_char, push_char};

verus! {

/// The longest a slug may grow, in characters.
pub const MAX_SLUG_LEN: usize = 50;

/// The default branch-type prefix, used when the caller supplies none.
pub const DEFAULT_BRANCH_TYPE: &'static str = "feature";

/// The state of slugifying, after the characters of `s`: the slug so far,
/// whether a separator is waiting to be written before the next character,
/// and whether the length budget has run out (after which nothing is added).
pub open spec fn slug_state(s: Seq<char>) -> (Seq<char>, bool, bool)
    decreases s.len(),
{
    if s.len() == 0 {
        (Seq::empty(), false, false)
    } else {
        let (out, pending, stopped) = slug_state(s.drop_last());
        let c = s.last();
        if stopped {
            (out, pending, true)
        } else if is_alnum(c) {
            let dash = pending && out.len() > 0;
            let need: int = if dash { 2 } else { 1 };
            if out.len() + need > MAX_SLUG_LEN {
                (out, pending, true)
            } else if dash {
                (out.push('-').push(lower(c)), false, false)
            } else {
                (out.push(lower(c)), false, false)
            }
        } else {
            (out, true, false)
        }
    }
}

/// The slug of `s`: lowercased, every run of characters other than ASCII
/// letters and digits collapsed to one `-`, no dash at either end, and cut off
/// before the character that would take it past [`MAX_SLUG_LEN`].
pub open spec fn slug(s: Seq<char>) -> Seq<char> {
    slug_state(s).0
}

/// A slug character: a lowercase ASCII letter or a digit.
pub open spec fn slug_char(c: char) -> bool {
    ('a' <= c && c <= 'z') || ('0' <= c && c <= '9')
}

/// The shape every slug has: only slug characters and dashes, no dash first
/// or last, no two dashes together, and no longer than [`MAX_SLUG_LEN`].
pub open spec fn slug_shaped(s: Seq<char>) -> bool {
    &&& s.len() <= MAX_SLUG_LEN
    &&& forall|i: int| 0 <= i < s.len() ==> slug_char(#[trigger] s[i]) || s[i] == '-'
    &&& s.len() > 0 ==> s[0] != '-' && s[s.len() - 1] != '-'
    &&& forall|i: int| 0 <= i < s.len() - 1 ==> !(#[trigger] s[i] == '-' && s[i + 1] == '-')
}

proof fn lemma_slug_state_shaped(s: Seq<char>)
    ensures
        slug_shaped(slug_state(s).0),
    decreases s.len(),
{
    if s.len() > 0 {
        lemma_slug_state_shaped(s.drop_last());
        let (out, pending, stopped) = slug_state(s.drop_last());
        let c = s.last();
        if !stopped && is_alnum(c) {
            let l = lower(c);
            assert(slug_char(l));
            let dash = pending && out.len() > 0;
            let need: int = if dash { 2 } else { 1 };
            if out.len() + need <= MAX_SLUG_LEN {
                if dash {
                    let o = out.push('-').push(l);
                    assert forall|i: int| 0 <= i < o.len() implies slug_char(#[trigger] o[i]) || o[i] == '-' by {
                        if i < out.len() {
                            assert(o[i] == out[i]);
                        }
                    }
                    assert forall|i: int| 0 <= i < o.len() - 1 implies !(#[trigger] o[i] == '-' && o[i + 1] == '-') by {
                        if i < out.len() - 1 {
                            assert(o[i] == out[i] && o[i + 1] == out[i + 1]);
                        } else if i == out.len() - 1 {
                            assert(o[i] == out[out.len() - 1]);
                        }
                    }
                } else {
                    let o = out.push(l);
                    assert forall|i: int| 0 <= i < o.len() implies slug_char(#[trigger] o[i]) || o[i] == '-' by {
                        if i < out.len() {
                            assert(o[i] == out[i]);
                        }
                    }
                    assert forall|i: int| 0 <= i < o.len() - 1 implies !(#[trigger] o[i] == '-' && o[i + 1] == '-') by {
                        if i < out.len() - 1 {
                            assert(o[i] == out[i] && o[i + 1] == out[i + 1]);
                        }
                    }
                }
            }
        }
    }
}

/// Every slug has [`slug_shaped`]'s shape: a valid ref component by
/// construction.
pub proof fn lemma_slug_is_shaped(s: Seq<char>)
    ensures
        slug_shaped(slug(s)),
{
    lemma_slug_state_shaped(s);
}

/// On a slug-shaped text, slugifying each prefix gives the prefix back, less a
/// dash it ends with, which is then the pending separator.
proof fn lemma_slug_state_of_shaped(w: Seq<char>, i: int)
    requires
        slug_shaped(w),
        0 <= i <= w.len(),
    ensures
        !slug_state(w.take(i)).2,
        i > 0 && w[i - 1] == '-' ==> slug_state(w.take(i)).0 == w.take(i - 1) && slug_state(w.take(i)).1,
        (i == 0 || w[i - 1] != '-') ==> slug_state(w.take(i)).0 == w.take(i) && !slug_state(w.take(i)).1,
    decreases i,
{
    if i > 0 {
        lemma_slug_state_of_shaped(w, i - 1);
        assert(w.take(i).drop_last() == w.take(i - 1));
        assert(w.take(i).last() == w[i - 1]);
        let c = w[i - 1];
        assert(slug_char(c) || c == '-');
        if c != '-' {
            assert(is_alnum(c) && lower(c) == c);
            if i >= 2 && w[i - 2] == '-' {
                assert(i - 2 > 0) by {
                    if i - 2 == 0 {
                        assert(w[0] != '-');
                    }
                }
                assert(w.take(i - 2).push('-').push(c) == w.take(i));
            } else {
                assert(w.take(i - 1).push(c) == w.take(i));
            }
        } else {
            assert(i - 1 > 0);
            assert(w[i - 2] != '-');
        }
    }
}

/// Slugifying is idempotent: a slug is its own slug.
pub proof fn lemma_slug_idempotent(s: Seq<char>)
    ensures
        slug(slug(s)) == slug(s),
{
    let w = slug(s);
    lemma_slug_is_shaped(s);
    lemma_slug_state_of_shaped(w, w.len() as int);
    assert(w.take(w.len() as int) == w);
    if w.len() > 0 {
        assert(w[w.len() - 1] != '-');
    }
}

/// Slugifies `input` by [`slug`].
pub fn slugify(input: &str) -> (out: String)
    ensures
        out@ == slug(input@),
        slug_shaped(out@),
{
    let v = crate::text::chars_of(input);
    let mut out = String::new();
    let mut len: usize = 0;
    let mut pending = false;
    let mut i: usize = 0;
    loop
        invariant
            i <= v.len(),
            v@ == input@,
            (out@, pending, false) == slug_state(v@.take(i as int)),
            len == out@.len(),
            len <= MAX_SLUG_LEN,
        ensures
            out@ == slug(input@),
        decreases v.len() - i,
    {
        if i >= v.len() {
            proof {
                assert(v@.take(v.len() as int) == v@);
            }
            break;
        }
        let ch = v[i];
        proof {
            assert(v@.take(i + 1).drop_last() == v@.take(i as int));
            assert(v@.take(i + 1).last() == ch);
        }
        if is_alnum_char(ch) {
            let dash = pending && len > 0;
            let need: usize = if dash { 2 } else { 1 };
            if len + need > MAX_SLUG_LEN {
                proof {
                    lemma_stopped_stays(v@, i as int + 1);
                }
                break;
            }
            if dash {
                push_char(&mut out, '-');
            }
            push_char(&mut out, lower_char(ch));
            len = len + need;
            pending = false;
        } else {
            pending = true;
        }
        i = i + 1;
    }
    proof {
        lemma_slug_is_shaped(input@);
    }
    out
}

/// Once the budget has run out, nothing more is added.
proof fn lemma_stopped_stays(s: Seq<char>, i: int)
    requires
        0 < i <= s.len(),
        slug_state(s.take(i)).2,
    ensures
        slug_state(s).0 == slug_state(s.take(i)).0,
        slug_state(s).2,
    decreases s.len() - i,
{
    if i < s.len() {
        assert(s.take(i + 1).drop_last() == s.take(i));
        lemma_stopped_stays(s, i + 1);
    } else {
        assert(s.take(i) == s);
    }
}

/// The branch-type prefix: the slug of what was asked for, or
/// [`DEFAULT_BRANCH_TYPE`] when that is empty.
pub open spec fn branch_type_rule(branch_type: Seq<char>) -> Seq<char> {
    if slug(branch_type).len() == 0 {
        DEFAULT_BRANCH_TYPE@
    } else {
        slug(branch_type)
    }
}

/// The branch name for a card: `{type}/{key}-{slug}`, or `{type}/{key}` when
/// the summary slugifies to nothing.
pub open spec fn branch_name_rule(branch_type: Seq<char>, key: Seq<char>, summary: Seq<char>) -> Seq<char> {
    if slug(summary).len() == 0 {
        branch_type_rule(branch_type) + "/"@ + key
    } else {
        branch_type_rule(branch_type) + "/"@ + key + "-"@ + slug(summary)
    }
}

/// The slug is truncated but the key never is: a branch name starts with
/// the type, a slash and the whole key, and only the slug after it is
/// bounded.
pub proof fn lemma_branch_name_keeps_key(branch_type: Seq<char>, key: Seq<char>, summary: Seq<char>)
    ensures
        ({
            let head = branch_type_rule(branch_type) + "/"@ + key;
            let name = branch_name_rule(branch_type, key, summary);
            &&& name.len() >= head.len()
            &&& name.take(head.len() as int) == head
            &&& name.len() <= head.len() + 1 + MAX_SLUG_LEN
        }),
{
    let head = branch_type_rule(branch_type) + "/"@ + key;
    let name = branch_name_rule(branch_type, key, summary);
    lemma_slug_is_shaped(summary);
    reveal_strlit("-");
    if slug(summary).len() == 0 {
        assert(name.take(head.len() as int) =~= head);
    } else {
        assert(name =~= head + ("-"@ + slug(summary)));
        assert(name.take(head.len() as int) =~= head);
    }
}

/// Builds a branch name for a card by [`branch_name_rule`]: the type is
/// sanitised like the slug, the key is used as it is.
pub fn branch_name(branch_type: &str, key: &str, summary: &str) -> (name: String)
    ensures
        name@ == branch_name_rule(branch_type@, key@, summary@),
{
    let t = slugify(branch_type);
    let mut name = if crate::text::chars_of(t.as_str()).len() == 0 {
        DEFAULT_BRANCH_TYPE.to_owned()
    } else {
        t
    };
    name.append("/");
    name.append(key);
    let s = slugify(summary);
    if crate::text::chars_of(s.as_str()).len() != 0 {
        name.append("-");
        name.append(s.as_str());
    }
    name
}

} // verus!
