use vstd::prelude::*;

use chrono::DurationRound;

verus! {

pub const MINUTE_MS: i64 = 60_000;

/// How far an observation may lie from its minute boundary and still count
/// as that minute's sample.
pub const TOLERANCE_MS: i64 = 20_000;

/// The minute boundary nearest to `t` (milliseconds since the Unix epoch);
/// a time exactly half-way between two boundaries goes to the later one.
pub open spec fn nearest_minute(t: int) -> int {
    ((t + 30_000) / 60_000) * 60_000
}

/// Distance from `t` to its nearest minute boundary.
pub open spec fn offset_from_minute(t: int) -> int {
    let d = t - nearest_minute(t);
    if d < 0 {
        -d
    } else {
        d
    }
}

/// The times that chrono can round at nanosecond precision: those whose
/// count of nanoseconds since the epoch fits an `i64`.
pub open spec fn roundable(t: int) -> bool {
    -9_223_372_036_854 <= t <= 9_223_372_036_854
}

/// Relies on chrono's `DurationRound::duration_round` on a `DateTime<Utc>`
/// with a span of one minute: it rounds to the nearest multiple of the span,
/// half-way cases up, and fails only where the time in nanoseconds
/// overflows an `i64`.
#[verifier::external_body]
pub(crate) fn round_to_minute(t: i64) -> (r: Option<i64>)
    ensures
        r matches Some(b) ==> b == nearest_minute(t as int),
        roundable(t as int) ==> r is Some,
{
    let time = match chrono::DateTime::from_timestamp_millis(t) {
        Some(time) => time,
        None => return None,
    };
    match time.duration_round(chrono::TimeDelta::minutes(1)) {
        Ok(rounded) => Some(rounded.timestamp_millis()),
        Err(_) => None,
    }
}

} // verus!
