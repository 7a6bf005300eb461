//! Character-level helpers shared by every validator and parser.
//!
//! Strings are reasoned about through their view, a `Seq<char>`. The spec
//! functions here say what Rust's `char` predicates and `str::trim` family mean
//! on that view, and the executable helpers compute them over `Vec<char>`.

use vstd::prelude::*;

use crate::error::{AppError, AppResult};

verus! {

/// `char::is_whitespace`: the Unicode `White_Space` property.
pub open spec fn is_ws(c: char) -> bool {
    ||| ('\u{9}' <= c && c <= '\u{d}')
    ||| c == ' '
    ||| c == '\u{85}'
    ||| c == '\u{a0}'
    ||| c == '\u{1680}'
    ||| ('\u{2000}' <= c && c <= '\u{200a}')
    ||| c == '\u{2028}'
    ||| c == '\u{2029}'
    ||| c == '\u{202f}'
    ||| c == '\u{205f}'
    ||| c == '\u{3000}'
}

/// `char::is_control`: the Unicode general category `Cc`.
pub open spec fn is_ctrl(c: char) -> bool {
    c <= '\u{1f}' || ('\u{7f}' <= c && c <= '\u{9f}')
}

/// `char::is_ascii_digit`.
pub open spec fn is_digit(c: char) -> bool {
    '0' <= c && c <= '9'
}

/// `char::is_ascii_alphabetic`.
pub open spec fn is_alpha(c: char) -> bool {
    ('a' <= c && c <= 'z') || ('A' <= c && c <= 'Z')
}

/// `char::is_ascii_alphanumeric`.
pub open spec fn is_alnum(c: char) -> bool {
    is_alpha(c) || is_digit(c)
}

/// `char::to_ascii_uppercase`.
pub open spec fn upper(c: char) -> char {
    if 'a' <= c && c <= 'z' {
        ((c as u32) - 32) as char
    } else {
        c
    }
}

/// `char::to_ascii_lowercase`.
pub open spec fn lower(c: char) -> char {
    if 'A' <= c && c <= 'Z' {
        ((c as u32) + 32) as char
    } else {
        c
    }
}

/// `str::to_ascii_uppercase`, on the view.
pub open spec fn upper_seq(s: Seq<char>) -> Seq<char> {
    s.map_values(|c: char| upper(c))
}

/// `str::to_ascii_lowercase`, on the view.
pub open spec fn lower_seq(s: Seq<char>) -> Seq<char> {
    s.map_values(|c: char| lower(c))
}

/// Whether some character of `s` satisfies `p`.
pub open spec fn any_char(s: Seq<char>, p: spec_fn(char) -> bool) -> bool {
    exists|i: int| 0 <= i < s.len() && p(s[i])
}

/// Whether every character of `s` satisfies `p`.
pub open spec fn all_chars(s: Seq<char>, p: spec_fn(char) -> bool) -> bool {
    forall|i: int| 0 <= i < s.len() ==> p(s[i])
}

/// The view of an optional string slice.
pub open spec fn opt_str_view(s: Option<&str>) -> Option<Seq<char>> {
    match s {
        Some(s) => Some(s@),
        None => None,
    }
}

/// The view of an optional string.
pub open spec fn opt_string_view(s: Option<String>) -> Option<Seq<char>> {
    match s {
        Some(s) => Some(s@),
        None => None,
    }
}

/// Strict lexicographic order of `a` and `b`, compared from index `i` on.
pub open spec fn lex_lt_from(a: Seq<char>, b: Seq<char>, i: int) -> bool
    decreases a.len() - i,
{
    if i < 0 || i >= a.len() {
        0 <= i < b.len()
    } else if i >= b.len() {
        false
    } else if a[i] < b[i] {
        true
    } else if a[i] > b[i] {
        false
    } else {
        lex_lt_from(a, b, i + 1)
    }
}

/// Strict lexicographic order on strings, as `String`'s `Ord` compares them.
pub open spec fn lex_lt(a: Seq<char>, b: Seq<char>) -> bool {
    lex_lt_from(a, b, 0)
}

/// The index of the first non-whitespace character of `s` at or after `i`, or
/// `s.len()`.
pub open spec fn skip_ws(s: Seq<char>, i: int) -> int
    decreases s.len() - i,
{
    if 0 <= i < s.len() && is_ws(s[i]) {
        skip_ws(s, i + 1)
    } else {
        i
    }
}

/// The end of `s[lo..j]` once its trailing whitespace is removed.
pub open spec fn back_ws(s: Seq<char>, lo: int, j: int) -> int
    decreases j - lo,
{
    if lo < j && j <= s.len() && is_ws(s[j - 1]) {
        back_ws(s, lo, j - 1)
    } else {
        j
    }
}

/// `str::trim_start`.
pub open spec fn trim_start(s: Seq<char>) -> Seq<char> {
    s.subrange(skip_ws(s, 0), s.len() as int)
}

/// `str::trim_end`.
pub open spec fn trim_end(s: Seq<char>) -> Seq<char> {
    s.subrange(0, back_ws(s, 0, s.len() as int))
}

/// `str::trim`.
pub open spec fn trim(s: Seq<char>) -> Seq<char> {
    trim_end(trim_start(s))
}

pub proof fn lemma_skip_ws_bounds(s: Seq<char>, i: int)
    requires
        0 <= i <= s.len(),
    ensures
        i <= skip_ws(s, i) <= s.len(),
        forall|k: int| i <= k < skip_ws(s, i) ==> is_ws(#[trigger] s[k]),
        skip_ws(s, i) < s.len() ==> !is_ws(s[skip_ws(s, i)]),
    decreases s.len() - i,
{
    if i < s.len() && is_ws(s[i]) {
        lemma_skip_ws_bounds(s, i + 1);
    }
}

pub proof fn lemma_back_ws_bounds(s: Seq<char>, lo: int, j: int)
    requires
        0 <= lo <= j <= s.len(),
    ensures
        lo <= back_ws(s, lo, j) <= j,
        forall|k: int| back_ws(s, lo, j) <= k < j ==> is_ws(#[trigger] s[k]),
        lo < back_ws(s, lo, j) ==> !is_ws(s[back_ws(s, lo, j) - 1]),
    decreases j - lo,
{
    if lo < j && is_ws(s[j - 1]) {
        lemma_back_ws_bounds(s, lo, j - 1);
    }
}

proof fn lemma_back_ws_shift(s: Seq<char>, a: int, j: int)
    requires
        0 <= a <= j <= s.len(),
    ensures
        back_ws(s.subrange(a, s.len() as int), 0, j - a) + a == back_ws(s, a, j),
    decreases j - a,
{
    let t = s.subrange(a, s.len() as int);
    if a < j && is_ws(s[j - 1]) {
        assert(t[j - a - 1] == s[j - 1]);
        lemma_back_ws_shift(s, a, j - 1);
    } else if a < j {
        assert(t[j - a - 1] == s[j - 1]);
    }
}

/// `trim` as the window `[start, end)` of `s`.
pub proof fn lemma_trim_window(s: Seq<char>)
    ensures
        ({
            let a = skip_ws(s, 0);
            let b = back_ws(s, a, s.len() as int);
            &&& 0 <= a <= b <= s.len()
            &&& trim(s) == s.subrange(a, b)
        }),
{
    let a = skip_ws(s, 0);
    lemma_skip_ws_bounds(s, 0);
    lemma_back_ws_bounds(s, a, s.len() as int);
    lemma_back_ws_shift(s, a, s.len() as int);
    let t = s.subrange(a, s.len() as int);
    let b = back_ws(s, a, s.len() as int);
    assert(trim(s) == t.subrange(0, b - a));
    assert(t.subrange(0, b - a) =~= s.subrange(a, b));
}

/// The characters of `s`, in order.
pub fn chars_of(s: &str) -> (out: Vec<char>)
    ensures
        out@ == s@,
{
    let mut out: Vec<char> = Vec::new();
    for c in it: s.chars()
        invariant
            out@ == it.seq().take(it.index() as int),
    {
        out.push(c);
    }
    out
}

/// Appends one character to a string.
#[verifier::external_body]
pub(crate) fn push_char(s: &mut String, c: char)
    ensures
        final(s)@ == old(s)@.push(c),
{
    s.push(c);
}

/// The string made of `v[lo..hi]`.
pub fn string_of_range(v: &Vec<char>, lo: usize, hi: usize) -> (out: String)
    requires
        lo <= hi <= v.len(),
    ensures
        out@ == v@.subrange(lo as int, hi as int),
{
    let mut out = String::new();
    let mut i = lo;
    while i < hi
        invariant
            lo <= i <= hi <= v.len(),
            out@ == v@.subrange(lo as int, i as int),
        decreases hi - i,
    {
        push_char(&mut out, v[i]);
        assert(v@.subrange(lo as int, i + 1) == v@.subrange(lo as int, i as int).push(v@[i as int]));
        i = i + 1;
    }
    out
}

/// The string made of `v`.
pub fn string_of(v: &Vec<char>) -> (out: String)
    ensures
        out@ == v@,
{
    let out = string_of_range(v, 0, v.len());
    assert(v@.subrange(0, v.len() as int) == v@);
    out
}

/// A copy of `s`.
pub fn copy_str(s: &str) -> (out: String)
    ensures
        out@ == s@,
{
    let v = chars_of(s);
    string_of(&v)
}

/// `char::is_whitespace`.
pub fn is_ws_char(c: char) -> (b: bool)
    ensures
        b == is_ws(c),
{
    ('\u{9}' <= c && c <= '\u{d}') || c == ' ' || c == '\u{85}' || c == '\u{a0}' || c
        == '\u{1680}' || ('\u{2000}' <= c && c <= '\u{200a}') || c == '\u{2028}' || c
        == '\u{2029}' || c == '\u{202f}' || c == '\u{205f}' || c == '\u{3000}'
}

/// `char::is_control`.
pub fn is_ctrl_char(c: char) -> (b: bool)
    ensures
        b == is_ctrl(c),
{
    c <= '\u{1f}' || ('\u{7f}' <= c && c <= '\u{9f}')
}

/// `char::is_ascii_alphanumeric`.
pub fn is_alnum_char(c: char) -> (b: bool)
    ensures
        b == is_alnum(c),
{
    ('a' <= c && c <= 'z') || ('A' <= c && c <= 'Z') || ('0' <= c && c <= '9')
}

/// `char::is_ascii_alphabetic`.
pub fn is_alpha_char(c: char) -> (b: bool)
    ensures
        b == is_alpha(c),
{
    ('a' <= c && c <= 'z') || ('A' <= c && c <= 'Z')
}

/// `char::is_ascii_digit`.
pub fn is_digit_char(c: char) -> (b: bool)
    ensures
        b == is_digit(c),
{
    '0' <= c && c <= '9'
}

/// `char::to_ascii_uppercase`.
pub fn upper_char(c: char) -> (u: char)
    ensures
        u == upper(c),
{
    if 'a' <= c && c <= 'z' {
        let n: u32 = c as u32 - 32;
        char_of_ascii(n)
    } else {
        c
    }
}

/// `char::to_ascii_lowercase`.
pub fn lower_char(c: char) -> (u: char)
    ensures
        u == lower(c),
{
    if 'A' <= c && c <= 'Z' {
        let n: u32 = c as u32 + 32;
        char_of_ascii(n)
    } else {
        c
    }
}

fn char_of_ascii(n: u32) -> (c: char)
    requires
        n < 128,
    ensures
        c == n as char,
{
    let b: u8 = n as u8;
    b as char
}

/// Where `trim` starts and ends in `v`.
pub fn trim_window(v: &Vec<char>) -> (w: (usize, usize))
    ensures
        w.0 <= w.1 <= v.len(),
        v@.subrange(w.0 as int, w.1 as int) == trim(v@),
{
    let ghost s = v@;
    let mut a: usize = 0;
    while a < v.len() && is_ws_char(v[a])
        invariant
            a <= v.len(),
            skip_ws(s, a as int) == skip_ws(s, 0),
            s == v@,
        decreases v.len() - a,
    {
        a = a + 1;
    }
    let mut b: usize = v.len();
    while b > a && is_ws_char(v[b - 1])
        invariant
            a <= b <= v.len(),
            back_ws(s, a as int, b as int) == back_ws(s, a as int, v.len() as int),
            s == v@,
            a == skip_ws(s, 0),
        decreases b,
    {
        b = b - 1;
    }
    proof {
        lemma_trim_window(s);
    }
    (a, b)
}

/// `str::trim`, as characters.
pub fn trimmed_chars(s: &str) -> (out: Vec<char>)
    ensures
        out@ == trim(s@),
{
    let v = chars_of(s);
    trim_vec(&v)
}

/// The characters `v[lo..hi]`.
pub fn sub_vec(v: &Vec<char>, lo: usize, hi: usize) -> (out: Vec<char>)
    requires
        lo <= hi <= v.len(),
    ensures
        out@ == v@.subrange(lo as int, hi as int),
{
    let mut out: Vec<char> = Vec::new();
    let mut i = lo;
    while i < hi
        invariant
            lo <= i <= hi <= v.len(),
            out@ == v@.subrange(lo as int, i as int),
        decreases hi - i,
    {
        out.push(v[i]);
        assert(v@.subrange(lo as int, i + 1) == v@.subrange(lo as int, i as int).push(v@[i as int]));
        i = i + 1;
    }
    out
}

/// `str::trim` on characters.
pub fn trim_vec(v: &Vec<char>) -> (out: Vec<char>)
    ensures
        out@ == trim(v@),
{
    let (a, b) = trim_window(v);
    sub_vec(v, a, b)
}

/// Where the leading whitespace of `v[i..]` ends.
pub fn skip_ws_from(v: &Vec<char>, i: usize) -> (j: usize)
    requires
        i <= v.len(),
    ensures
        j == skip_ws(v@, i as int),
        i <= j <= v.len(),
{
    let mut j = i;
    while j < v.len() && is_ws_char(v[j])
        invariant
            i <= j <= v.len(),
            skip_ws(v@, j as int) == skip_ws(v@, i as int),
        decreases v.len() - j,
    {
        j = j + 1;
    }
    j
}

/// `str::trim_start` on characters.
pub fn trim_start_vec(v: &Vec<char>) -> (out: Vec<char>)
    ensures
        out@ == trim_start(v@),
{
    let a = skip_ws_from(v, 0);
    sub_vec(v, a, v.len())
}

/// Whether any character of `v` is whitespace.
pub fn has_ws(v: &Vec<char>) -> (b: bool)
    ensures
        b == any_char(v@, |c: char| is_ws(c)),
{
    let mut i: usize = 0;
    while i < v.len()
        invariant
            i <= v.len(),
            forall|k: int| 0 <= k < i ==> !is_ws(#[trigger] v@[k]),
        decreases v.len() - i,
    {
        if is_ws_char(v[i]) {
            return true;
        }
        i = i + 1;
    }
    false
}

/// Whether any character of `v` is a control character.
pub fn has_ctrl(v: &Vec<char>) -> (b: bool)
    ensures
        b == any_char(v@, |c: char| is_ctrl(c)),
{
    let mut i: usize = 0;
    while i < v.len()
        invariant
            i <= v.len(),
            forall|k: int| 0 <= k < i ==> !is_ctrl(#[trigger] v@[k]),
        decreases v.len() - i,
    {
        if is_ctrl_char(v[i]) {
            return true;
        }
        i = i + 1;
    }
    false
}

/// Whether two strings have the same characters.
pub fn str_eq(a: &str, b: &str) -> (eq: bool)
    ensures
        eq == (a@ == b@),
{
    let x = chars_of(a);
    let y = chars_of(b);
    seq_eq(&x, &y)
}

/// Whether `a` sorts strictly before `b`.
pub fn str_lt(a: &str, b: &str) -> (lt: bool)
    ensures
        lt == lex_lt(a@, b@),
{
    let x = chars_of(a);
    let y = chars_of(b);
    let mut i: usize = 0;
    while i < x.len() && i < y.len() && x[i] == y[i]
        invariant
            i <= x.len(),
            i <= y.len(),
            x@ == a@,
            y@ == b@,
            lex_lt_from(a@, b@, i as int) == lex_lt(a@, b@),
        decreases x.len() - i,
    {
        i = i + 1;
    }
    if i >= x.len() {
        i < y.len()
    } else if i >= y.len() {
        false
    } else {
        x[i] < y[i]
    }
}

/// Whether two character vectors are equal.
pub fn seq_eq(x: &Vec<char>, y: &Vec<char>) -> (eq: bool)
    ensures
        eq == (x@ == y@),
{
    if x.len() != y.len() {
        return false;
    }
    let mut i: usize = 0;
    while i < x.len()
        invariant
            i <= x.len() == y.len(),
            forall|k: int| 0 <= k < i ==> x@[k] == y@[k],
        decreases x.len() - i,
    {
        if x[i] != y[i] {
            return false;
        }
        i = i + 1;
    }
    assert(x@ =~= y@);
    true
}

/// The text `{:?}` renders a string as: quoted, with escapes.
pub uninterp spec fn debug_quoted(s: Seq<char>) -> Seq<char>;

/// `<str as Debug>::fmt`: the string quoted and escaped, as `{:?}` writes it.
#[verifier::external_body]
pub(crate) fn debug_quote(s: &str) -> (out: String)
    ensures
        out@ == debug_quoted(s@),
{
    format!("{s:?}")
}

/// The decimal digits of a non-negative number.
pub open spec fn decimal(n: int) -> Seq<char>
    decreases n,
{
    if n < 10 {
        seq![digit_char(n)]
    } else {
        decimal(n / 10).push(digit_char(n % 10))
    }
}

/// The digit character for `0 <= d < 10`.
pub open spec fn digit_char(d: int) -> char {
    (d + '0' as int) as char
}

/// The decimal digits of `n`, as `usize`'s `Display` writes them.
pub fn usize_to_decimal(n: usize) -> (s: String)
    ensures
        s@ == decimal(n as int),
    decreases n,
{
    if n < 10 {
        let mut s = String::new();
        push_char(&mut s, char_of_ascii(n as u32 + 48));
        s
    } else {
        let mut s = usize_to_decimal(n / 10);
        push_char(&mut s, char_of_ascii((n % 10) as u32 + 48));
        s
    }
}

/// A digit character names its digit: distinct digits are distinct
/// characters, and each lies between `0` and `9`.
pub proof fn lemma_digit_char(d: int, e: int)
    requires
        0 <= d < 10,
        0 <= e < 10,
    ensures
        '0' <= digit_char(d) <= '9',
        digit_char(d) == digit_char(e) ==> d == e,
{
    assert((digit_char(d) as int) == d + 48);
    assert((digit_char(e) as int) == e + 48);
}

/// The decimal text of a non-negative number is non-empty and starts with a
/// digit.
pub proof fn lemma_decimal_leads_with_digit(n: int)
    requires
        n >= 0,
    ensures
        decimal(n).len() >= 1,
        '0' <= decimal(n)[0] <= '9',
    decreases n,
{
    if n < 10 {
        lemma_digit_char(n, n);
    } else {
        lemma_decimal_leads_with_digit(n / 10);
    }
}

/// Distinct non-negative numbers have distinct decimal texts.
pub proof fn lemma_decimal_injective(a: int, b: int)
    requires
        a >= 0,
        b >= 0,
        decimal(a) == decimal(b),
    ensures
        a == b,
    decreases a,
{
    if a < 10 && b < 10 {
        assert(decimal(a) == seq![digit_char(a)]);
        assert(decimal(b) == seq![digit_char(b)]);
        assert(decimal(a)[0] == digit_char(a));
        assert(decimal(b)[0] == digit_char(b));
        lemma_digit_char(a, b);
    } else if a < 10 {
        lemma_decimal_leads_with_digit(b / 10);
        assert(decimal(b).len() >= 2);
        assert(decimal(a).len() == 1);
    } else if b < 10 {
        lemma_decimal_leads_with_digit(a / 10);
        assert(decimal(a).len() >= 2);
        assert(decimal(b).len() == 1);
    } else {
        let da = decimal(a / 10);
        let db = decimal(b / 10);
        assert(decimal(a).last() == digit_char(a % 10));
        assert(decimal(b).last() == digit_char(b % 10));
        lemma_digit_char(a % 10, b % 10);
        assert(decimal(a).drop_last() =~= da);
        assert(decimal(b).drop_last() =~= db);
        lemma_decimal_injective(a / 10, b / 10);
        assert(a == 10 * (a / 10) + a % 10);
        assert(b == 10 * (b / 10) + b % 10);
    }
}

/// Distinct numbers have distinct signed decimal texts.
pub proof fn lemma_signed_decimal_injective(a: int, b: int)
    requires
        signed_decimal(a) == signed_decimal(b),
    ensures
        a == b,
{
    if a < 0 && b < 0 {
        assert(signed_decimal(a).drop_first() =~= decimal(-a));
        assert(signed_decimal(b).drop_first() =~= decimal(-b));
        lemma_decimal_injective(-a, -b);
    } else if a < 0 {
        lemma_decimal_leads_with_digit(b);
        assert(signed_decimal(a)[0] == '-');
    } else if b < 0 {
        lemma_decimal_leads_with_digit(a);
        assert(signed_decimal(b)[0] == '-');
    } else {
        lemma_decimal_injective(a, b);
    }
}

/// The decimal text of a signed number, with a leading `-` when negative.
pub open spec fn signed_decimal(n: int) -> Seq<char> {
    if n < 0 {
        seq!['-'] + decimal(-n)
    } else {
        decimal(n)
    }
}

/// The decimal text of `n`, as `i64`'s `Display` writes it.
pub fn i64_to_decimal(n: i64) -> (s: String)
    ensures
        s@ == signed_decimal(n as int),
{
    if n < 0 {
        let m: u64 = if n == i64::MIN {
            9223372036854775808u64
        } else {
            (-n) as u64
        };
        let mut s = "-".to_owned();
        let digits = u64_to_decimal(m);
        proof {
            reveal_strlit("-");
        }
        s.append(digits.as_str());
        s
    } else {
        u64_to_decimal(n as u64)
    }
}

/// The decimal digits of `n`, as `u64`'s `Display` writes them.
pub fn u64_to_decimal(n: u64) -> (s: String)
    ensures
        s@ == decimal(n as int),
    decreases n,
{
    if n < 10 {
        let mut s = String::new();
        push_char(&mut s, char_of_ascii(n as u32 + 48));
        s
    } else {
        let mut s = u64_to_decimal(n / 10);
        push_char(&mut s, char_of_ascii((n % 10) as u32 + 48));
        s
    }
}

/// The shared shape of a name rule: trimmed, then refused when empty, when
/// longer than `max` characters, or (when `no_ctrl`) when it holds a control
/// character, with a message for each refusal.
pub open spec fn name_rule(
    s: Seq<char>,
    max: nat,
    no_ctrl: bool,
    empty: Seq<char>,
    long: Seq<char>,
    ctrl: Seq<char>,
) -> Result<Seq<char>, Seq<char>> {
    let t = trim(s);
    if t.len() == 0 {
        Err(empty)
    } else if t.len() > max {
        Err(long)
    } else if no_ctrl && any_char(t, |c: char| is_ctrl(c)) {
        Err(ctrl)
    } else {
        Ok(t)
    }
}

/// The shared shape of a length rule: at most `max` characters, untrimmed.
pub open spec fn length_rule(s: Seq<char>, max: nat, long: Seq<char>) -> Result<Seq<char>, Seq<char>> {
    if s.len() > max {
        Err(long)
    } else {
        Ok(s)
    }
}

/// Checks a name by [`name_rule`].
pub fn check_name(s: &str, max: usize, no_ctrl: bool, empty: &str, long: &str, ctrl: &str) -> (res:
    AppResult<String>)
    ensures
        crate::error::validated(res, name_rule(s@, max as nat, no_ctrl, empty@, long@, ctrl@)),
{
    let t = trimmed_chars(s);
    if t.len() == 0 {
        return Err(AppError::Validation(empty.to_owned()));
    }
    if t.len() > max {
        return Err(AppError::Validation(long.to_owned()));
    }
    if no_ctrl && has_ctrl(&t) {
        return Err(AppError::Validation(ctrl.to_owned()));
    }
    Ok(string_of(&t))
}

/// Checks a text by [`length_rule`].
pub fn check_length(s: &str, max: usize, long: &str) -> (res: AppResult<String>)
    ensures
        crate::error::validated(res, length_rule(s@, max as nat, long@)),
{
    let v = chars_of(s);
    if v.len() > max {
        return Err(AppError::Validation(long.to_owned()));
    }
    Ok(string_of(&v))
}

} // verus!
