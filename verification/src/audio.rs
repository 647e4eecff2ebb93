//! The audio accumulator: a growing buffer of mono samples fed by the capture
//! side and drained in one atomic step by the transcription scheduler.
//!
//! Samples are opaque 32-bit words (the capture adapter chooses the encoding);
//! the accumulator never reads their contents, it only preserves their exact
//! sequence: no loss, no duplication, no reordering.

use vstd::prelude::*;

verus! {

/// The accumulator contents after appending `block` to contents `buf`.
pub open spec fn after_append(buf: Seq<u32>, block: Seq<u32>) -> Seq<u32> {
    buf + block
}

/// What a drain of contents `buf` hands back.
pub open spec fn drain_result(buf: Seq<u32>) -> Seq<u32> {
    buf
}

/// The accumulator contents left behind by a drain.
pub open spec fn after_drain(buf: Seq<u32>) -> Seq<u32> {
    Seq::<u32>::empty()
}

/// A growing buffer of mono audio samples.
///
/// Created empty, appended to by the capture side, and drained by the
/// scheduler. A drain swaps an empty buffer in, so every appended sample is
/// returned by exactly one drain.
pub struct AudioBuffer {
    samples: Vec<u32>,
}

impl View for AudioBuffer {
    type V = Seq<u32>;

    closed spec fn view(&self) -> Seq<u32> {
        self.samples@
    }
}

impl AudioBuffer {
    /// Creates an empty accumulator.
    pub fn new() -> (r: Self)
        ensures
            r@ == Seq::<u32>::empty(),
    {
        AudioBuffer { samples: Vec::new() }
    }

    /// Number of samples currently accumulated.
    pub fn len(&self) -> (r: usize)
        ensures
            r == self@.len(),
    {
        self.samples.len()
    }

    /// Appends a block of samples, preserving order; nothing already buffered
    /// is disturbed.
    pub fn append(&mut self, block: &[u32])
        requires
            old(self)@.len() + block@.len() <= usize::MAX,
        ensures
            final(self)@ == after_append(old(self)@, block@),
    {
        let mut i: usize = 0;
        while i < block.len()
            invariant
                i <= block@.len(),
                self@.len() + block@.len() <= usize::MAX + i,
                self@ == old(self)@ + block@.subrange(0, i as int),
            decreases block@.len() - i,
        {
            self.samples.push(block[i]);
            i = i + 1;
            proof {
                assert(self@ =~= old(self)@ + block@.subrange(0, i as int));
            }
        }
        proof {
            assert(self@ =~= after_append(old(self)@, block@));
        }
    }

    /// Drains the accumulator: returns every sample accumulated since the
    /// last drain, in order, and leaves the buffer empty.
    pub fn get_data(&mut self) -> (r: Vec<u32>)
        ensures
            r@ == drain_result(old(self)@),
            final(self)@ == after_drain(old(self)@),
    {
        let mut taken: Vec<u32> = Vec::new();
        core::mem::swap(&mut self.samples, &mut taken);
        taken
    }
}

/// Draining twice in a row with no intervening append hands back the empty
/// sequence the second time: the first drain leaves nothing behind.
pub proof fn lemma_second_drain_empty(buf: Seq<u32>)
    ensures
        drain_result(after_drain(buf)) == Seq::<u32>::empty(),
{
}

/// Appending a block and then draining hands back the old contents followed
/// by exactly that block: no sample is lost or duplicated. Starting from an
/// empty buffer, the drain hands back the block alone.
pub proof fn lemma_append_then_drain(buf: Seq<u32>, block: Seq<u32>)
    ensures
        drain_result(after_append(buf, block)) == buf + block,
        drain_result(after_append(Seq::<u32>::empty(), block)) == block,
{
    assert(Seq::<u32>::empty() + block =~= block);
}

} // verus!
