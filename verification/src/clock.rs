//! Verified sanitizers over the host clock: whatever the clock returns,
//! the values handed to the store are ordered and clamped into the range
//! the data model admits.

use vstd::prelude::*;

use crate::models::MAX_TS_MS;

verus! {

/// `t` clamped into `[0, MAX_TS_MS]`.
pub open spec fn clamp_ts_spec(t: int) -> int {
    if t < 0 {
        0
    } else if t > MAX_TS_MS {
        MAX_TS_MS as int
    } else {
        t
    }
}

/// Clamps a raw clock reading into the stored timestamp range.
pub fn clamp_ts(t: i64) -> (r: i64)
    ensures
        r as int == clamp_ts_spec(t as int),
        0 <= r <= MAX_TS_MS,
{
    if t < 0 {
        0
    } else if t > MAX_TS_MS {
        MAX_TS_MS
    } else {
        t
    }
}

/// Reads the clock, clamped into the stored range.
pub fn clock_now_ms() -> (r: i64)
    ensures
        0 <= r <= MAX_TS_MS,
{
    clamp_ts(crate::externals::now_millis())
}

/// Reads the clock in whole seconds, clamped into the stored range.
pub fn clock_now_secs() -> (r: u64)
    ensures
        r <= (MAX_TS_MS / 1000) as u64,
{
    (clock_now_ms() / 1000) as u64
}

/// Reads the clock and the start of the current local day, ordered and
/// clamped: `0 <= day_start <= now <= MAX_TS_MS`. A midnight the local
/// time zone skipped falls back to the current instant.
pub fn clock_today_bounds() -> (r: (i64, i64))
    ensures
        0 <= r.1 <= r.0 <= MAX_TS_MS,
{
    let now = clamp_ts(crate::externals::now_millis());
    let ds = match crate::externals::local_day_start_millis() {
        Some(d) => clamp_ts(d),
        None => now,
    };
    let day_start = if ds <= now {
        ds
    } else {
        now
    };
    (now, day_start)
}

} // verus!
