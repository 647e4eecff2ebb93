//! The transcription scheduling policy: level-triggered batching.
//!
//! A non-final check drains the accumulator only once three seconds of audio
//! at the declared capture rate have accumulated; below that it leaves every
//! sample in place. Finalization drains whatever remains, however little,
//! and skips the recognizer only when nothing at all is buffered.

use crate::audio::{after_drain, drain_result, AudioBuffer};
use vstd::prelude::*;

verus! {

/// Seconds of audio that must accumulate before a non-final transcription.
pub const BATCH_SECONDS: u64 = 3;

/// The batch threshold in samples: three seconds at the declared rate.
pub open spec fn batch_threshold(sample_rate: u64) -> int {
    3 * sample_rate
}

/// Non-final scheduler check. At or above the threshold it drains the whole
/// accumulator and hands the batch out; below it, it touches nothing and
/// hands out no batch.
pub fn take_batch(buf: &mut AudioBuffer, sample_rate: u64) -> (r: Option<Vec<u32>>)
    requires
        sample_rate <= u64::MAX / 3,
    ensures
        old(buf)@.len() >= batch_threshold(sample_rate) ==> (r matches Some(batch)
            && batch@ == drain_result(old(buf)@) && final(buf)@ == after_drain(old(buf)@)),
        old(buf)@.len() < batch_threshold(sample_rate) ==> (r is None && final(buf)@ == old(
            buf,
        )@),
{
    let threshold: u64 = BATCH_SECONDS * sample_rate;
    if buf.len() as u64 >= threshold {
        Some(buf.get_data())
    } else {
        None
    }
}

/// Final, unconditional drain at shutdown: whatever remains comes out as one
/// last batch, even below the threshold; only an empty accumulator yields no
/// batch. Either way the accumulator is left empty.
pub fn take_final_batch(buf: &mut AudioBuffer) -> (r: Option<Vec<u32>>)
    ensures
        old(buf)@.len() > 0 ==> (r matches Some(batch) && batch@ == drain_result(old(buf)@)),
        old(buf)@.len() == 0 ==> r is None,
        final(buf)@ == after_drain(old(buf)@),
{
    if buf.len() > 0 {
        Some(buf.get_data())
    } else {
        proof {
            assert(buf@ =~= after_drain(old(buf)@));
        }
        None
    }
}

} // verus!
