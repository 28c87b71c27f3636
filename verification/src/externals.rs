//! Trusted wrappers around the host: the clock, fresh identifiers and
//! randomized delays. Verus believes the contracts stated here; every
//! caller sanitizes what the wrappers return before storing it.

use vstd::prelude::*;

verus! {

/// Relies on chrono's `Local::now()` and `timestamp_millis()`: the current
/// instant as milliseconds since the Unix epoch. Nothing is promised of
/// the value; callers clamp it into the stored range regardless.
#[verifier::external_body]
pub(crate) fn now_millis() -> i64 {
    chrono::Local::now().timestamp_millis()
}

/// Relies on chrono's `date_naive`, `and_hms_opt` and `and_local_timezone`:
/// the local midnight that began the current calendar day, as milliseconds
/// since the Unix epoch, or `None` when the local time zone skipped that
/// midnight. Nothing is promised of the value.
#[verifier::external_body]
pub(crate) fn local_day_start_millis() -> Option<i64> {
    let now = chrono::Local::now();
    match chrono::DateTime::date_naive(&now).and_hms_opt(0, 0, 0) {
        Some(naive) => match naive.and_local_timezone(chrono::Local) {
            chrono::LocalResult::Single(t) => Some(t.timestamp_millis()),
            chrono::LocalResult::Ambiguous(t, _) => Some(t.timestamp_millis()),
            chrono::LocalResult::None => None,
        },
        None => None,
    }
}

/// Relies on `uuid::Uuid::new_v4()` and its `Display` implementation: a
/// fresh random version-4 identifier in the hyphenated format, which is
/// exactly 36 characters. Randomness promises nothing more.
#[verifier::external_body]
pub(crate) fn new_session_uuid() -> (r: String)
    ensures
        r@.len() == 36,
{
    uuid::Uuid::new_v4().to_string()
}

/// Relies on rand's `Rng::gen_range`: a value sampled uniformly from
/// `lo..hi`. The source panics on an empty range, so that is excluded;
/// of the sample itself only membership in the range is promised.
#[verifier::external_body]
pub(crate) fn random_in_range(lo: u64, hi: u64) -> (r: u64)
    requires
        lo < hi,
    ensures
        lo <= r < hi,
{
    rand::Rng::gen_range(&mut rand::thread_rng(), lo..hi)
}

} // verus!
