//! Lexicographic card ranking, over `fractional_index`.
//!
//! A reorder computes a key strictly between the two neighbours a card was
//! dropped between, so moving a card is one write to one row, never a
//! renumbering of every row after it.
//!
//! A [`Rank`] holds the hex stringification of a `FractionalIndex`: two
//! lowercase hex digits per byte, ending in the terminator byte `0x80`. That
//! encoding is fixed-width and `0-9a-f` ascends in ASCII, so the text order of
//! two ranks is the byte order of their indices, and a plain text column sorts
//! them correctly.

use fractional_index::FractionalIndex;
use vstd::prelude::*;

use crate::text::{chars_of, lex_lt, lex_lt_from, opt_str_view, opt_string_view, str_lt, string_of_range};

verus! {

/// The value of a lowercase hex digit.
pub open spec fn hex_val(c: char) -> int {
    if '0' <= c && c <= '9' {
        c as int - '0' as int
    } else {
        c as int - 'a' as int + 10
    }
}

/// Whether `c` is a lowercase hex digit.
pub open spec fn is_lower_hex(c: char) -> bool {
    ('0' <= c && c <= '9') || ('a' <= c && c <= 'f')
}

/// The bytes a run of lowercase hex pairs encodes; a trailing odd digit is
/// not part of any pair.
pub open spec fn hex_bytes(s: Seq<char>) -> Seq<u8> {
    Seq::new(s.len() / 2, |i: int| (hex_val(s[2 * i]) * 16 + hex_val(s[2 * i + 1])) as u8)
}

/// Whether `s` is the text of a fractional index: whole lowercase hex pairs,
/// at least one, the last of them the terminator byte `80`.
pub open spec fn is_rank_text(s: Seq<char>) -> bool {
    &&& s.len() >= 2
    &&& s.len() % 2 == 0
    &&& forall|i: int| 0 <= i < s.len() ==> is_lower_hex(#[trigger] s[i])
    &&& s[s.len() - 2] == '8'
    &&& s[s.len() - 1] == '0'
}

/// Strict lexicographic order of byte strings, compared from index `i` on.
pub open spec fn bytes_lt_from(a: Seq<u8>, b: Seq<u8>, i: int) -> bool
    decreases a.len() - i,
{
    if i < 0 || i >= a.len() {
        0 <= i < b.len()
    } else if i >= b.len() {
        false
    } else if a[i] < b[i] {
        true
    } else if a[i] > b[i] {
        false
    } else {
        bytes_lt_from(a, b, i + 1)
    }
}

/// Strict lexicographic order of byte strings, the order of fractional
/// indices.
pub open spec fn bytes_lt(a: Seq<u8>, b: Seq<u8>) -> bool {
    bytes_lt_from(a, b, 0)
}

proof fn lemma_hex_order(c: char, d: char)
    requires
        is_lower_hex(c),
        is_lower_hex(d),
    ensures
        0 <= hex_val(c) < 16,
        (c < d) == (hex_val(c) < hex_val(d)),
        (c == d) == (hex_val(c) == hex_val(d)),
{
}

proof fn lemma_pair_order(a: Seq<char>, b: Seq<char>, k: int)
    requires
        a.len() % 2 == 0,
        b.len() % 2 == 0,
        forall|i: int| 0 <= i < a.len() ==> is_lower_hex(#[trigger] a[i]),
        forall|i: int| 0 <= i < b.len() ==> is_lower_hex(#[trigger] b[i]),
        0 <= k,
    ensures
        lex_lt_from(a, b, 2 * k) == bytes_lt_from(hex_bytes(a), hex_bytes(b), k),
    decreases a.len() - 2 * k,
{
    let ba = hex_bytes(a);
    let bb = hex_bytes(b);
    if 2 * k >= a.len() {
        assert(k >= ba.len());
    } else if 2 * k >= b.len() {
        assert(k >= bb.len());
        assert(k < ba.len());
    } else {
        assert(k < ba.len() && k < bb.len());
        let (x0, x1, y0, y1) = (a[2 * k], a[2 * k + 1], b[2 * k], b[2 * k + 1]);
        lemma_hex_order(x0, y0);
        lemma_hex_order(x1, y1);
        let (hx0, hx1, hy0, hy1) = (hex_val(x0), hex_val(x1), hex_val(y0), hex_val(y1));
        assert(ba[k] == (hx0 * 16 + hx1) as u8);
        assert(bb[k] == (hy0 * 16 + hy1) as u8);
        assert(0 <= hx0 * 16 + hx1 < 256);
        assert(0 <= hy0 * 16 + hy1 < 256);
        assert(ba[k] as int == hx0 * 16 + hx1);
        assert(bb[k] as int == hy0 * 16 + hy1);
        if x0 != y0 {
            assert(lex_lt_from(a, b, 2 * k) == (x0 < y0));
            assert((ba[k] < bb[k]) == (hx0 < hy0));
            assert(ba[k] != bb[k]);
        } else if x1 != y1 {
            assert(lex_lt_from(a, b, 2 * k) == lex_lt_from(a, b, 2 * k + 1));
            assert(lex_lt_from(a, b, 2 * k + 1) == (x1 < y1));
            assert(ba[k] as int - bb[k] as int == hx1 - hy1);
        } else {
            assert(lex_lt_from(a, b, 2 * k) == lex_lt_from(a, b, 2 * k + 1));
            assert(lex_lt_from(a, b, 2 * k + 1) == lex_lt_from(a, b, 2 * k + 2));
            assert(ba[k] == bb[k]);
            lemma_pair_order(a, b, k + 1);
            assert(2 * k + 2 == 2 * (k + 1));
        }
    }
}

/// The text order of two ranks is the byte order of their indices: the
/// encoding is whole lowercase hex pairs and `0-9a-f` ascends, so a text
/// column sorts ranks exactly as the indices compare.
pub proof fn lemma_text_order_is_index_order(a: Seq<char>, b: Seq<char>)
    requires
        is_rank_text(a),
        is_rank_text(b),
    ensures
        lex_lt(a, b) == bytes_lt(hex_bytes(a), hex_bytes(b)),
{
    lemma_pair_order(a, b, 0);
}

/// Where `FractionalIndex::new_between` would overflow: a zero byte of the
/// upper bound inside the common prefix its loop walks.
pub open spec fn between_overflows(lower: Seq<char>, upper: Seq<char>) -> bool {
    let l = hex_bytes(lower);
    let u = hex_bytes(upper);
    exists|i: int|
        0 <= i < l.len() - 1 && i < u.len() - 1 && #[trigger] u[i] == 0 && l.take(i) == u.take(i)
}

/// The lowercase hex digit of a value below 16.
pub open spec fn hex_digit(d: int) -> char {
    if d < 10 {
        ('0' as int + d) as char
    } else {
        ('a' as int + d - 10) as char
    }
}

/// Bytes as text: two lowercase hex digits per byte, high nibble first.
pub open spec fn hex_text(b: Seq<u8>) -> Seq<char> {
    Seq::new(
        2 * b.len(),
        |i: int| if i % 2 == 0 {
            hex_digit(b[i / 2] as int / 16)
        } else {
            hex_digit(b[i / 2] as int % 16)
        },
    )
}

/// The unterminated bytes of an index after `b`: up to the first byte below
/// the terminator `0x80`, or else the first byte below `0xff` stepped up by
/// one, everything before it kept.
pub open spec fn after_bytes(b: Seq<u8>) -> Seq<u8>
    decreases b.len(),
{
    if b.len() == 0 {
        Seq::empty()
    } else if b[0] < 0x80 {
        Seq::empty()
    } else if b[0] < 0xff {
        seq![(b[0] + 1) as u8]
    } else {
        seq![b[0]] + after_bytes(b.drop_first())
    }
}

/// The unterminated bytes of an index before `b`: up to the first byte above
/// the terminator `0x80`, or else the first byte above zero stepped down by
/// one, everything before it kept.
pub open spec fn before_bytes(b: Seq<u8>) -> Seq<u8>
    decreases b.len(),
{
    if b.len() == 0 {
        Seq::empty()
    } else if b[0] > 0x80 {
        Seq::empty()
    } else if b[0] > 0 {
        seq![(b[0] - 1) as u8]
    } else {
        seq![b[0]] + before_bytes(b.drop_first())
    }
}

/// The index `FractionalIndex::new_after` builds after `text`: the bytes of
/// [`after_bytes`], terminated, rendered as hex.
pub open spec fn index_after(text: Seq<char>) -> Seq<char> {
    hex_text(after_bytes(hex_bytes(text)).push(0x80))
}

/// The index `FractionalIndex::new_before` builds before `text`: the bytes of
/// [`before_bytes`], terminated, rendered as hex.
pub open spec fn index_before(text: Seq<char>) -> Seq<char> {
    hex_text(before_bytes(hex_bytes(text)).push(0x80))
}

/// The index `FractionalIndex::new_between` builds between two bounds.
pub uninterp spec fn index_between(lower: Seq<char>, upper: Seq<char>) -> Seq<char>;

/// What `FractionalIndex::new` builds from two optional bounds: the default
/// index, an index after the lower, before the upper, or between both.
pub open spec fn fractional_new(lower: Option<Seq<char>>, upper: Option<Seq<char>>) -> Option<Seq<char>> {
    match (lower, upper) {
        (None, None) => Some("80"@),
        (Some(l), None) => Some(index_after(l)),
        (None, Some(u)) => Some(index_before(u)),
        (Some(l), Some(u)) => if lex_lt(l, u) {
            Some(index_between(l, u))
        } else {
            None
        },
    }
}

/// How many whole byte pairs two rank texts share from pair `k` on, stopping
/// before the last pair of either.
pub open spec fn shared_pairs_from(l: Seq<char>, u: Seq<char>, k: int) -> int
    decreases l.len() - 2 * k,
{
    if 0 <= k && 2 * k + 2 < l.len() && 2 * k + 2 < u.len() && l[2 * k] == u[2 * k] && l[2 * k + 1] == u[2 * k
        + 1] {
        shared_pairs_from(l, u, k + 1)
    } else {
        k
    }
}

/// The index between two ordered ranks: the byte pairs they share, then the
/// index `FractionalIndex::new_between` builds between what follows. Past the
/// shared pairs the two bounds differ in their first byte (or one of them is
/// only its terminator), so that call never steps a byte below zero.
pub open spec fn between_text(l: Seq<char>, u: Seq<char>) -> Seq<char> {
    let n = 2 * shared_pairs_from(l, u, 0);
    l.take(n) + index_between(l.skip(n), u.skip(n))
}

/// The rank the module builds from two optional bounds: the default index,
/// an index after the lower, before the upper, or (when they are in order)
/// between both.
pub open spec fn index_new(lower: Option<Seq<char>>, upper: Option<Seq<char>>) -> Option<Seq<char>> {
    match (lower, upper) {
        (Some(l), Some(u)) => if lex_lt(l, u) {
            Some(between_text(l, u))
        } else {
            None
        },
        _ => fractional_new(lower, upper),
    }
}

/// Comparing two texts from a position past a shared prefix is comparing
/// what follows the prefix.
proof fn lemma_lex_after_prefix(p: Seq<char>, a: Seq<char>, b: Seq<char>, j: int)
    requires
        0 <= j,
    ensures
        lex_lt_from(p + a, p + b, p.len() + j) == lex_lt_from(a, b, j),
    decreases a.len() - j,
{
    let (x, y) = (p + a, p + b);
    let i = p.len() + j;
    if j < a.len() && j < b.len() {
        assert(x[i] == a[j]);
        assert(y[i] == b[j]);
        if a[j] == b[j] {
            lemma_lex_after_prefix(p, a, b, j + 1);
        }
    }
}

/// A shared prefix does not change which of two texts sorts first.
proof fn lemma_lex_shared_prefix(p: Seq<char>, a: Seq<char>, b: Seq<char>)
    ensures
        lex_lt(p + a, p + b) == lex_lt(a, b),
{
    lemma_lex_after_prefix(p, a, b, 0);
    lemma_lex_within_prefix(p, a, b, 0);
}

proof fn lemma_lex_within_prefix(p: Seq<char>, a: Seq<char>, b: Seq<char>, i: int)
    requires
        0 <= i <= p.len(),
    ensures
        lex_lt_from(p + a, p + b, i) == lex_lt_from(p + a, p + b, p.len() as int),
    decreases p.len() - i,
{
    if i < p.len() {
        assert((p + a)[i] == p[i]);
        assert((p + b)[i] == p[i]);
        lemma_lex_within_prefix(p, a, b, i + 1);
    }
}

/// The number of characters two rank texts share in whole byte pairs, by
/// [`shared_pairs_from`].
fn shared_prefix_len(a: &Vec<char>, c: &Vec<char>) -> (n: usize)
    requires
        a.len() >= 2,
        c.len() >= 2,
        a.len() % 2 == 0,
        c.len() % 2 == 0,
    ensures
        n == 2 * shared_pairs_from(a@, c@, 0),
        n % 2 == 0,
        n + 2 <= a.len(),
        n + 2 <= c.len(),
        forall|j: int| 0 <= j < n ==> a@[j] == c@[j],
        n + 2 < a.len() && n + 2 < c.len() ==> (a@[n as int] != c@[n as int] || a@[n + 1] != c@[n + 1]),
{
    let mut k: usize = 0;
    while 2 * k + 2 < a.len() && 2 * k + 2 < c.len() && a[2 * k] == c[2 * k] && a[2 * k + 1] == c[2 * k + 1]
        invariant
            a.len() % 2 == 0,
            c.len() % 2 == 0,
            2 * k + 2 <= a.len(),
            2 * k + 2 <= c.len(),
            shared_pairs_from(a@, c@, k as int) == shared_pairs_from(a@, c@, 0),
            forall|j: int| 0 <= j < 2 * k ==> a@[j] == c@[j],
        decreases a.len() - 2 * k,
    {
        k = k + 1;
    }
    2 * k
}

/// What follows an even number of characters of a rank text, leaving at
/// least its last pair, is a rank text.
proof fn lemma_suffix_is_rank_text(s: Seq<char>, n: int)
    requires
        is_rank_text(s),
        0 <= n,
        n % 2 == 0,
        n + 2 <= s.len(),
    ensures
        is_rank_text(s.skip(n)),
        s.skip(n) == s.subrange(n, s.len() as int),
{
    let t = s.skip(n);
    assert(t.len() == s.len() - n);
    assert forall|i: int| 0 <= i < t.len() implies is_lower_hex(#[trigger] t[i]) by {
        assert(t[i] == s[n + i]);
    }
    assert(t[t.len() - 2] == s[s.len() - 2]);
    assert(t[t.len() - 1] == s[s.len() - 1]);
    assert(s.skip(n) =~= s.subrange(n, s.len() as int));
}

/// An even run of lowercase hex digits in front of a rank text leaves a rank
/// text.
proof fn lemma_prefix_keeps_rank_text(p: Seq<char>, t: Seq<char>)
    requires
        p.len() % 2 == 0,
        forall|i: int| 0 <= i < p.len() ==> is_lower_hex(#[trigger] p[i]),
        is_rank_text(t),
    ensures
        is_rank_text(p + t),
{
    let r = p + t;
    assert forall|i: int| 0 <= i < r.len() implies is_lower_hex(#[trigger] r[i]) by {
        if i < p.len() {
            assert(r[i] == p[i]);
        } else {
            assert(r[i] == t[i - p.len()]);
        }
    }
    assert(r[r.len() - 2] == t[t.len() - 2]);
    assert(r[r.len() - 1] == t[t.len() - 1]);
}

/// Two ordered rank texts whose first byte pairs differ (or one of which is
/// only its terminator) are not a pair `FractionalIndex::new_between` steps
/// below zero on: the upper one's first byte is above the lower one's.
proof fn lemma_suffixes_do_not_overflow(l: Seq<char>, u: Seq<char>)
    requires
        is_rank_text(l),
        is_rank_text(u),
        lex_lt(l, u),
        l.len() > 2 && u.len() > 2 ==> (l[0] != u[0] || l[1] != u[1]),
    ensures
        !between_overflows(l, u),
{
    let lb = hex_bytes(l);
    let ub = hex_bytes(u);
    if lb.len() >= 2 && ub.len() >= 2 {
        let (x0, x1, y0, y1) = (l[0], l[1], u[0], u[1]);
        lemma_hex_order(x0, y0);
        lemma_hex_order(x1, y1);
        lemma_hex_order(y0, '0');
        lemma_hex_order(y1, '0');
        let (hx0, hx1, hy0, hy1) = (hex_val(x0), hex_val(x1), hex_val(y0), hex_val(y1));
        assert(lb[0] as int == hx0 * 16 + hx1);
        assert(ub[0] as int == hy0 * 16 + hy1);
        assert(lb[0] != ub[0]);
        assert(ub[0] != 0) by {
            if ub[0] == 0 {
                assert(y0 == '0' && y1 == '0');
                assert(is_lower_hex(x0) && is_lower_hex(x1));
                if x0 == '0' {
                    assert(lex_lt_from(l, u, 0) == lex_lt_from(l, u, 1));
                    assert(x1 != '0');
                    assert(!lex_lt_from(l, u, 1));
                } else {
                    assert(!lex_lt_from(l, u, 0));
                }
            }
        }
        assert forall|i: int|
            0 <= i < lb.len() - 1 && i < ub.len() - 1 && #[trigger] ub[i] == 0 implies lb.take(i) != ub.take(i) by {
            assert(i > 0);
            assert(lb.take(i)[0] != ub.take(i)[0]);
        }
    }
}

/// The error text `FractionalIndex::from_string` reports for `text`, if any.
pub open spec fn decode_failure(text: Seq<char>) -> Option<Seq<char>> {
    let pairs = text.take(2 * (text.len() / 2) as int);
    if text.len() == 0 {
        Some("Attempted to decode an empty string as a fractional index."@)
    } else if !(forall|i: int| 0 <= i < pairs.len() ==> is_lower_hex(#[trigger] pairs[i])) {
        Some("Attempted to decode a corrupt fractional index (invalid characters)."@)
    } else if pairs.len() == 0 || pairs[pairs.len() - 2] != '8' || pairs[pairs.len() - 1] != '0' {
        Some("Attempted to decode a corrupt fractional index (missing terminator)."@)
    } else {
        None
    }
}

/// The view of an optional rank.
pub open spec fn opt_rank_view(r: Option<&Rank>) -> Option<Seq<char>> {
    match r {
        Some(r) => Some(r@),
        None => None,
    }
}

/// The text `FractionalIndex::default` renders as.
#[verifier::external_body]
fn index_default() -> (text: String)
    ensures
        text@ == "80"@,
{
    FractionalIndex::default().to_string()
}

/// `FractionalIndex::new` over the text of its bounds. The crate documents the
/// result as sorting strictly after the lower bound and strictly before the
/// upper one, and as `None` exactly when both are given and are not in order;
/// its source renders every index as whole lowercase hex pairs ending `80`.
#[verifier::external_body]
fn index_new_text(lower: Option<&str>, upper: Option<&str>) -> (out: Option<String>)
    requires
        lower matches Some(l) ==> is_rank_text(l@),
        upper matches Some(u) ==> is_rank_text(u@),
        lower matches Some(l) ==> (upper matches Some(u) ==> !between_overflows(l@, u@)),
    ensures
        opt_string_view(out) == fractional_new(opt_str_view(lower), opt_str_view(upper)),
        out matches Some(o) ==> is_rank_text(o@),
        lower matches Some(l) ==> (upper matches Some(u) ==> (out matches Some(o) ==> o@
            == index_between(l@, u@))),
        out matches Some(o) ==> (lower matches Some(l) ==> lex_lt(l@, o@)),
        out matches Some(o) ==> (upper matches Some(u) ==> lex_lt(o@, u@)),
{
    let lower = lower.map(|l| FractionalIndex::from_string(l).unwrap());
    let upper = upper.map(|u| FractionalIndex::from_string(u).unwrap());
    FractionalIndex::new(lower.as_ref(), upper.as_ref()).map(|i| i.to_string())
}

/// `FractionalIndex::new_after` over text: the crate's source builds the bytes
/// of [`index_after`] and renders them as lowercase hex pairs; the result sorts
/// strictly after the input.
#[verifier::external_body]
fn index_after_text(text: &str) -> (out: String)
    requires
        is_rank_text(text@),
    ensures
        out@ == index_after(text@),
        is_rank_text(out@),
        lex_lt(text@, out@),
{
    FractionalIndex::new_after(&FractionalIndex::from_string(text).unwrap()).to_string()
}

/// `FractionalIndex::new_before` over text: the crate's source builds the bytes
/// of [`index_before`] and renders them as lowercase hex pairs; the result
/// sorts strictly before the input.
#[verifier::external_body]
fn index_before_text(text: &str) -> (out: String)
    requires
        is_rank_text(text@),
    ensures
        out@ == index_before(text@),
        is_rank_text(out@),
        lex_lt(out@, text@),
{
    FractionalIndex::new_before(&FractionalIndex::from_string(text).unwrap()).to_string()
}

/// `FractionalIndex::from_string` then `to_string`: the re-rendered index, or
/// the decode error's text. The decoder reads whole hex pairs and ignores a
/// trailing odd character; its source slices the text by bytes, which is why
/// the text must be ASCII.
#[verifier::external_body]
fn index_parse_text(text: &str) -> (out: Result<String, String>)
    requires
        crate::text::all_chars(text@, |c: char| (c as u32) < 128),
    ensures
        match decode_failure(text@) {
            Some(m) => out matches Err(e) && e@ == m,
            None => out matches Ok(t) && t@ == text@.take(2 * (text@.len() / 2) as int),
        },
{
    match FractionalIndex::from_string(text) {
        Ok(index) => Ok(index.to_string()),
        Err(err) => Err(err.to_string()),
    }
}

/// Why a rank could not be produced or read.
#[derive(Debug)]
pub enum RankError {
    /// The stored text is not a valid fractional index.
    Decode(String),
    /// `between` was given bounds that are equal, or in the wrong order.
    OutOfOrder {
        /// The lower bound the caller supplied.
        before: String,
        /// The upper bound the caller supplied.
        after: String,
    },
}

/// The message an out-of-order request carries.
pub open spec fn out_of_order_message(before: Seq<char>, after: Seq<char>) -> Seq<char> {
    "cannot generate a rank between "@ + before + " and "@ + after
        + ": the neighbours are equal or out of order (refetch and retry)"@
}

impl RankError {
    /// The error as text.
    pub fn to_string(&self) -> (text: String)
        ensures
            match *self {
                RankError::OutOfOrder { before, after } => text@ == out_of_order_message(before@, after@),
                RankError::Decode(d) => text@ == "invalid rank encoding: "@ + d@,
            },
    {
        match self {
            RankError::OutOfOrder { before, after } => {
                let mut s = "cannot generate a rank between ".to_owned();
                s.append(before.as_str());
                s.append(" and ");
                s.append(after.as_str());
                s.append(": the neighbours are equal or out of order (refetch and retry)");
                s
            },
            RankError::Decode(d) => {
                let mut s = "invalid rank encoding: ".to_owned();
                s.append(d.as_str());
                s
            },
        }
    }
}

/// A card's sort key: an order-preserving, hex-encoded fractional index.
///
/// Ordering is the derived lexicographic ordering of the inner text, which is
/// exactly the ordering a binary-collated text column applies.
#[derive(Debug, PartialEq, Eq, PartialOrd, Ord, Hash)]
pub struct Rank(String);

impl Clone for Rank {
    fn clone(&self) -> (r: Self)
        ensures
            r@ == self@,
    {
        proof {
            use_type_invariant(self);
        }
        Rank(self.0.clone())
    }
}

impl View for Rank {
    type V = Seq<char>;

    closed spec fn view(&self) -> Seq<char> {
        self.0@
    }
}

impl Rank {
    #[verifier::type_invariant]
    spec fn valid(self) -> bool {
        is_rank_text(self.0@)
    }

    /// The rank for the first card in an empty list.
    pub fn first() -> (r: Self)
        ensures
            r@ == "80"@,
            is_rank_text(r@),
    {
        let text = index_default();
        proof {
            reveal_strlit("80");
        }
        Rank(text)
    }

    /// A rank that sorts strictly after `other`.
    pub fn after(other: &Self) -> (r: Self)
        ensures
            r@ == index_after(other@),
            is_rank_text(r@),
            lex_lt(other@, r@),
    {
        proof {
            use_type_invariant(other);
        }
        Rank(index_after_text(other.0.as_str()))
    }

    /// A rank that sorts strictly before `other`.
    pub fn before(other: &Self) -> (r: Self)
        ensures
            r@ == index_before(other@),
            is_rank_text(r@),
            lex_lt(r@, other@),
    {
        proof {
            use_type_invariant(other);
        }
        Rank(index_before_text(other.0.as_str()))
    }

    /// A rank that sorts strictly between `before` and `after`; `None` is the
    /// edge of the list on that side.
    ///
    /// # Errors
    ///
    /// [`RankError::OutOfOrder`] exactly when both bounds are given and
    /// `before` does not sort strictly before `after`: a stale client view.
    pub fn between(before: Option<&Self>, after: Option<&Self>) -> (res: Result<Self, RankError>)
        ensures
            match index_new(opt_rank_view(before), opt_rank_view(after)) {
                Some(t) => res matches Ok(r) && r@ == t,
                None => res matches Err(RankError::OutOfOrder { before: b, after: a })
                    && b@ == before.unwrap()@ && a@ == after.unwrap()@,
            },
            res matches Ok(r) ==> is_rank_text(r@),
            res matches Ok(r) ==> (before matches Some(b) ==> lex_lt(b@, r@)),
            res matches Ok(r) ==> (after matches Some(a) ==> lex_lt(r@, a@)),
    {
        if let (Some(lo), Some(hi)) = (before, after) {
            return Self::strictly_between(lo, hi);
        }
        let lower: Option<&str> = match before {
            Some(b) => {
                proof {
                    use_type_invariant(b);
                }
                Some(b.0.as_str())
            },
            None => None,
        };
        let upper: Option<&str> = match after {
            Some(a) => {
                proof {
                    use_type_invariant(a);
                }
                Some(a.0.as_str())
            },
            None => None,
        };
        match index_new_text(lower, upper) {
            Some(text) => Ok(Rank(text)),
            None => {
                proof {
                    assert(false);
                }
                Err(RankError::OutOfOrder { before: "<start>".to_owned(), after: "<end>".to_owned() })
            },
        }
    }

    /// [`Rank::between`] with both bounds given: the pairs the bounds share are
    /// kept, and `fractional_index` places a rank between what follows them.
    fn strictly_between(lo: &Self, hi: &Self) -> (res: Result<Self, RankError>)
        ensures
            match index_new(Some(lo@), Some(hi@)) {
                Some(t) => res matches Ok(r) && r@ == t,
                None => res matches Err(RankError::OutOfOrder { before: b, after: a }) && b@ == lo@ && a@ == hi@,
            },
            res matches Ok(r) ==> is_rank_text(r@) && lex_lt(lo@, r@) && lex_lt(r@, hi@),
    {
        proof {
            use_type_invariant(lo);
            use_type_invariant(hi);
        }
        if !str_lt(lo.0.as_str(), hi.0.as_str()) {
            return Err(RankError::OutOfOrder { before: lo.0.clone(), after: hi.0.clone() });
        }
        let x = chars_of(lo.0.as_str());
        let y = chars_of(hi.0.as_str());
        let n = shared_prefix_len(&x, &y);
        let ls = string_of_range(&x, n, x.len());
        let us = string_of_range(&y, n, y.len());
        let ghost p = x@.take(n as int);
        proof {
            assert(x@ =~= p + ls@);
            assert(y@ =~= p + us@);
            lemma_lex_shared_prefix(p, ls@, us@);
            lemma_suffix_is_rank_text(x@, n as int);
            lemma_suffix_is_rank_text(y@, n as int);
            lemma_suffixes_do_not_overflow(ls@, us@);
        }
        match index_new_text(Some(ls.as_str()), Some(us.as_str())) {
            Some(t) => {
                let mut r = string_of_range(&x, 0, n);
                r.append(t.as_str());
                proof {
                    assert(r@ =~= p + t@);
                    assert(ls@ =~= lo@.skip(n as int));
                    assert(us@ =~= hi@.skip(n as int));
                    lemma_lex_shared_prefix(p, ls@, t@);
                    lemma_lex_shared_prefix(p, t@, us@);
                    lemma_prefix_keeps_rank_text(p, t@);
                }
                Ok(Rank(r))
            },
            None => {
                proof {
                    assert(false);
                }
                Err(RankError::OutOfOrder { before: lo.0.clone(), after: hi.0.clone() })
            },
        }
    }

    /// Parses a rank previously produced by this module.
    ///
    /// The text is decoded as whole lowercase hex pairs; a trailing odd
    /// character is not part of any pair and is dropped from the rank.
    ///
    /// # Errors
    ///
    /// [`RankError::Decode`] when the text is empty, holds a character that is
    /// not a lowercase hex digit, or does not end in the terminator byte.
    pub fn parse(text: &str) -> (res: Result<Self, RankError>)
        ensures
            !crate::text::all_chars(text@, |c: char| (c as u32) < 128) ==> (res matches Err(RankError::Decode(e))
                && e@ == "Attempted to decode a corrupt fractional index (invalid characters)."@),
            crate::text::all_chars(text@, |c: char| (c as u32) < 128) ==> match decode_failure(text@) {
                Some(m) => res matches Err(RankError::Decode(e)) && e@ == m,
                None => res matches Ok(r) && r@ == text@.take(2 * (text@.len() / 2) as int),
            },
            res matches Ok(r) ==> is_rank_text(r@),
    {
        let chars = chars_of(text);
        let mut i: usize = 0;
        while i < chars.len()
            invariant
                i <= chars.len(),
                chars@ == text@,
                forall|k: int| 0 <= k < i ==> (chars@[k] as u32) < 128,
            decreases chars.len() - i,
        {
            if chars[i] as u32 >= 128 {
                return Err(RankError::Decode(
                    "Attempted to decode a corrupt fractional index (invalid characters).".to_owned(),
                ));
            }
            i = i + 1;
        }
        match index_parse_text(text) {
            Ok(t) => {
                proof {
                    let s = text@;
                    let p = s.take(2 * (s.len() / 2) as int);
                    assert(p.len() == 2 * (s.len() / 2));
                }
                Ok(Rank(t))
            },
            Err(e) => Err(RankError::Decode(e)),
        }
    }

    /// The rank as it is stored.
    pub fn as_str(&self) -> (s: &str)
        ensures
            s@ == self@,
    {
        self.0.as_str()
    }

    /// The rank as text.
    pub fn to_string(&self) -> (s: String)
        ensures
            s@ == self@,
    {
        self.0.clone()
    }
}

impl From<Rank> for String {
    fn from(rank: Rank) -> (s: String)
        ensures
            s@ == rank@,
    {
        rank.0
    }
}

impl vstd::std_specs::convert::FromSpecImpl<Rank> for String {
    open spec fn obeys_from_spec() -> bool {
        false
    }

    open spec fn from_spec(v: Rank) -> String {
        arbitrary()
    }
}

impl TryFrom<String> for Rank {
    type Error = RankError;

    fn try_from(text: String) -> (res: Result<Self, Self::Error>)
        ensures
            !crate::text::all_chars(text@, |c: char| (c as u32) < 128) ==> (res matches Err(RankError::Decode(e))
                && e@ == "Attempted to decode a corrupt fractional index (invalid characters)."@),
            crate::text::all_chars(text@, |c: char| (c as u32) < 128) ==> match decode_failure(text@) {
                Some(m) => res matches Err(RankError::Decode(e)) && e@ == m,
                None => res matches Ok(r) && r@ == text@.take(2 * (text@.len() / 2) as int),
            },
            res matches Ok(r) ==> is_rank_text(r@),
    {
        Self::parse(text.as_str())
    }
}

impl vstd::std_specs::convert::TryFromSpecImpl<String> for Rank {
    open spec fn obeys_try_from_spec() -> bool {
        false
    }

    open spec fn try_from_spec(v: String) -> Result<Self, RankError> {
        arbitrary()
    }
}

impl std::str::FromStr for Rank {
    type Err = RankError;

    fn from_str(s: &str) -> (res: Result<Self, Self::Err>)
        ensures
            !crate::text::all_chars(s@, |c: char| (c as u32) < 128) ==> (res matches Err(RankError::Decode(e))
                && e@ == "Attempted to decode a corrupt fractional index (invalid characters)."@),
            crate::text::all_chars(s@, |c: char| (c as u32) < 128) ==> match decode_failure(s@) {
                Some(m) => res matches Err(RankError::Decode(e)) && e@ == m,
                None => res matches Ok(r) && r@ == s@.take(2 * (s@.len() / 2) as int),
            },
            res matches Ok(r) ==> is_rank_text(r@),
    {
        Self::parse(s)
    }
}

} // verus!
