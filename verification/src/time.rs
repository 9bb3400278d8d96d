//! Wall-clock access and whole-second and whole-millisecond ages, with
//! timestamps held as nanoseconds since the Unix epoch (the resolution of
//! `chrono`'s `DateTime`).

use vstd::prelude::*;

verus! {

/// Nanoseconds in one second.
pub open spec fn nanos_per_second() -> int {
    1_000_000_000
}

/// Nanoseconds in one millisecond.
pub open spec fn nanos_per_milli() -> int {
    1_000_000
}

/// The span `now - then` in whole units of `unit` nanoseconds, truncated
/// toward zero (as `TimeDelta::num_seconds` and `num_milliseconds` count).
pub open spec fn whole_units(now: i128, then: i128, unit: int) -> int {
    let d = now - then;
    if d >= 0 {
        d / unit
    } else {
        -((-d) / unit)
    }
}

/// Whole seconds in the span `now - then`, truncated toward zero.
pub open spec fn whole_seconds(now: i128, then: i128) -> int {
    whole_units(now, then, nanos_per_second())
}

/// Whole milliseconds in the span `now - then`, truncated toward zero.
pub open spec fn whole_millis(now: i128, then: i128) -> int {
    whole_units(now, then, nanos_per_milli())
}

/// The current UTC time as whole seconds since the epoch and the
/// nanoseconds past that second.
///
/// Trusted: calls `chrono::Utc::now()` once and reads `DateTime::timestamp`
/// and `DateTime::timestamp_subsec_nanos` of the result. The result depends
/// on the clock, so nothing is promised of it.
#[verifier::external_body]
fn clock_parts() -> (r: (i64, u32)) {
    let t = chrono::Utc::now();
    (t.timestamp(), t.timestamp_subsec_nanos())
}

/// The current UTC time in nanoseconds since the epoch.
pub fn now_nanos() -> (t: i128) {
    let (secs, nanos) = clock_parts();
    secs as i128 * 1_000_000_000 + nanos as i128
}

/// Whether the span `now - then` counts more than `limit` whole seconds.
pub fn seconds_over(now: i128, then: i128, limit: i64) -> (r: bool)
    ensures
        r == (whole_seconds(now, then) > limit),
{
    if then > 0 && now <= i128::MIN + then {
        // The span is at most -2^127 nanoseconds: far below any `i64` count.
        return false;
    }
    if then < 0 && now > i128::MAX + then {
        // The span is above 2^127 - 1 nanoseconds: far above any `i64` count.
        return true;
    }
    let d: i128 = now - then;
    if d == i128::MIN {
        return false;
    }
    let w: i128 = if d >= 0 {
        d / 1_000_000_000
    } else {
        -((-d) / 1_000_000_000)
    };
    w > limit as i128
}

/// Whether the span `now - then` counts at least `limit` whole milliseconds.
pub fn millis_at_least(now: i128, then: i128, limit: i64) -> (r: bool)
    ensures
        r == (whole_millis(now, then) >= limit),
{
    if then > 0 && now <= i128::MIN + then {
        // The span is at most -2^127 nanoseconds: far below any `i64` count.
        return false;
    }
    if then < 0 && now > i128::MAX + then {
        // The span is above 2^127 - 1 nanoseconds: far above any `i64` count.
        return true;
    }
    let d: i128 = now - then;
    if d == i128::MIN {
        return false;
    }
    let w: i128 = if d >= 0 {
        d / 1_000_000
    } else {
        -((-d) / 1_000_000)
    };
    w >= limit as i128
}

} // verus!
