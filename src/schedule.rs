use vstd::prelude::*;

verus! {

/// Milliseconds between ticks at zero points.
pub const BASE_INTERVAL_MS: u64 = 100;

/// Whether an interval of `m` whole milliseconds is no longer than
/// `100 - 8 * sqrt(points)`, i.e. `8 * sqrt(points) <= 100 - m`.
pub open spec fn interval_fits(points: int, m: int) -> bool {
    64 * points <= (100 - m) * (100 - m)
}

/// The largest interval in `[0, m]` that fits, or zero.
pub open spec fn longest_fitting(points: int, m: int) -> int
    decreases m,
{
    if m <= 0 {
        0
    } else if interval_fits(points, m) {
        m
    } else {
        longest_fitting(points, m - 1)
    }
}

/// The time between ticks at a given score: `100 - 8 * sqrt(points)`
/// milliseconds, rounded down to whole milliseconds and never below zero.
pub open spec fn tick_interval(points: int) -> int {
    longest_fitting(points, 100)
}

/// Time elapsed from `last` to `now`; a clock that went backwards counts as
/// no time at all.
pub open spec fn elapsed(now: int, last: int) -> int {
    if now >= last {
        now - last
    } else {
        0
    }
}

/// Whether `m` (at most 100) is an interval that fits `points`.
fn fits(points: u64, m: u64) -> (r: bool)
    requires
        points < 32768,
        m <= 100,
    ensures
        r == interval_fits(points as int, m as int),
{
    let gap: u64 = 100 - m;
    assert(gap * gap <= 100 * 100) by (nonlinear_arith)
        requires gap <= 100;
    64 * points <= gap * gap
}

/// The tick interval for a score, in whole milliseconds.
pub fn tick_interval_ms(points: i16) -> (r: u64)
    requires
        points >= 0,
    ensures
        r == tick_interval(points as int),
        r <= BASE_INTERVAL_MS,
        r == 0 || interval_fits(points as int, r as int),
        r == BASE_INTERVAL_MS || !interval_fits(points as int, r + 1),
{
    let p: u64 = points as u64;
    let mut m: u64 = BASE_INTERVAL_MS;
    while m > 0 && !fits(p, m)
        invariant
            p == points,
            0 <= p < 32768,
            m <= 100,
            longest_fitting(p as int, m as int) == tick_interval(p as int),
            forall|k: int| m < k <= 100 ==> !interval_fits(p as int, k),
        decreases m,
    {
        m = m - 1;
    }
    m
}

/// Whether the next tick is due at `now`, the last one having run at
/// `last_tick`, with the given score.
pub fn should_tick(now: u64, last_tick: u64, points: i16) -> (r: bool)
    requires
        points >= 0,
    ensures
        r == (elapsed(now as int, last_tick as int) >= tick_interval(points as int)),
{
    let interval: u64 = tick_interval_ms(points);
    let passed: u64 = if now >= last_tick { now - last_tick } else { 0 };
    passed >= interval
}

} // verus!
