use vstd::prelude::*;

verus! {

/// Seconds in one day.
pub const SECONDS_PER_DAY: i64 = 86400;

/// The calendar day of a timestamp: seconds divided by a day, truncated toward zero.
pub open spec fn day_of(now: i64) -> int {
    if now >= 0 {
        now as int / SECONDS_PER_DAY as int
    } else {
        -((-(now as int)) / SECONDS_PER_DAY as int)
    }
}

/// Whole days from `start` to `now`, truncated toward zero, counted as zero when
/// `now` is less than a day after `start`.
pub open spec fn elapsed_days(start: i64, now: i64) -> int {
    if now - start >= SECONDS_PER_DAY {
        (now as int - start as int) / SECONDS_PER_DAY as int
    } else {
        0
    }
}

/// The calendar day of `now`.
pub fn current_day(now: i64) -> (r: i64)
    ensures
        r == day_of(now),
{
    if now >= 0 {
        now / SECONDS_PER_DAY
    } else {
        let m: i128 = -(now as i128);
        let d: i128 = m / (SECONDS_PER_DAY as i128);
        assert(d * 86400 <= m) by (nonlinear_arith)
            requires
                0 <= m,
                d == m / 86400,
        ;
        -(d as i64)
    }
}

/// Whole days from `start` to `now`, as `elapsed_days` counts them.
pub fn days_between(start: i64, now: i64) -> (r: u64)
    ensures
        r == elapsed_days(start, now),
{
    let diff: i128 = now as i128 - start as i128;
    if diff >= SECONDS_PER_DAY as i128 {
        let d: i128 = diff / (SECONDS_PER_DAY as i128);
        assert(d * 86400 <= diff) by (nonlinear_arith)
            requires
                0 <= diff,
                d == diff / 86400,
        ;
        d as u64
    } else {
        0
    }
}

} // verus!
