//! Daily cycle snapshots: once a day, each in-scope card of an active cycle
//! gets a row, keyed by the day, so a second pass the same day refreshes the
//! row rather than adding one.

use vstd::prelude::*;

verus! {

/// Seconds in a day.
pub const DAY_SECONDS: i64 = 86400;

/// The start of the UTC calendar day holding the instant `t` (seconds since
/// the epoch): the bucket a snapshot is keyed by.
pub open spec fn day_start(t: int) -> int {
    t - t % (DAY_SECONDS as int)
}

proof fn lemma_mod_by_bounds(t: int, m: int)
    requires
        0 <= m < 86400,
        (t - m) % 86400 == 0,
    ensures
        m == t % 86400,
{
    let q = (t - m) / 86400;
    assert(t - m == 86400 * q);
    assert(t == 86400 * q + m);
    vstd::arithmetic::div_mod::lemma_fundamental_div_mod_converse(t, 86400, q, m);
}

/// Truncates an instant (seconds since the epoch, UTC) to the start of its
/// calendar day; an instant before the epoch goes back to the midnight
/// before it. Every instant a date-time can hold is far inside the range
/// required.
pub fn start_of_day(t: i64) -> (d: i64)
    requires
        t >= i64::MIN + DAY_SECONDS,
    ensures
        d == day_start(t as int),
        d <= t < d + DAY_SECONDS,
        d % DAY_SECONDS == 0,
{
    let m: i64 = if t >= 0 {
        ((t as u64) % 86400u64) as i64
    } else {
        let u: u64 = (-(t + 1)) as u64;
        let q: u64 = u % 86400u64;
        proof {
            let k = (u as int) / 86400;
            assert(u as int == 86400 * k + q as int);
            assert((t as int) - (86399 - q as int) == 86400 * (-k - 1));
            vstd::arithmetic::div_mod::lemma_mod_multiples_basic(-k - 1, 86400);
        }
        86399 - (q as i64)
    };
    proof {
        if t >= 0 {
            assert(m as int == (t as int) % 86400);
        } else {
            lemma_mod_by_bounds(t as int, m as int);
        }
    }
    t - m
}

} // verus!
