//! Wall-clock timestamps for observed events, in centiseconds.
//!
//! Events are stamped at the moment the raw occurrence is observed. The time
//! itself comes from the system clock through chrono; everything after the
//! reading is verified arithmetic.

use vstd::prelude::*;

verus! {

/// Centiseconds for a millisecond clock reading; a reading before the epoch
/// clamps to zero.
pub open spec fn centis_of_millis(ms: int) -> int {
    if ms <= 0 {
        0
    } else {
        ms / 10
    }
}

/// Relies on chrono's `Utc::now` and `DateTime::timestamp_millis`: the
/// current wall-clock time as non-leap milliseconds since the Unix epoch.
/// Nothing can be promised of a clock reading; `Utc::now` aborts only on a
/// system clock set before the epoch.
#[verifier::external_body]
fn epoch_millis() -> (r: i64) {
    chrono::Utc::now().timestamp_millis()
}

/// Converts a millisecond clock reading to centiseconds.
pub fn centis_from_millis(ms: i64) -> (r: u64)
    ensures
        r == centis_of_millis(ms as int),
{
    if ms <= 0 {
        0
    } else {
        let pos: u64 = ms as u64;
        proof {
            assert(pos == ms as int);
        }
        pos / 10
    }
}

/// The current wall-clock timestamp in centiseconds: the observation stamp
/// for a raw event. Its value depends on the moment of the call, so no more
/// can be said of it than of the clock itself.
pub fn now_timestamp_cs() -> u64 {
    let ms = epoch_millis();
    centis_from_millis(ms)
}

} // verus!
