//! Elastic sample buffer shared between a producer (the decode worker) and a
//! consumer (the playback callback).
//!
//! The buffer is append-only at the tail and drains from the head, so samples
//! leave in the order they arrived. The consumer never removes fewer samples
//! than it asked for: on underrun it takes nothing and plays silence instead.

use vstd::pervasive::VecAdditionalExecFns;
use vstd::prelude::*;

verus! {

/// The silent sample: the all-zero 32-bit pattern.
pub const SILENCE: u32 = 0;

/// An ordered, elastic buffer of PCM samples.
///
/// Its view is the sequence of buffered samples, head first.
pub struct FrameBuffer {
    samples: Vec<u32>,
}

impl View for FrameBuffer {
    type V = Seq<u32>;

    closed spec fn view(&self) -> Seq<u32> {
        self.samples@
    }
}

impl FrameBuffer {
    /// A fresh, empty buffer.
    pub fn new() -> (r: FrameBuffer)
        ensures
            r@ == Seq::<u32>::empty(),
    {
        FrameBuffer { samples: Vec::new() }
    }

    /// How many samples are currently buffered.
    pub fn len(&self) -> (n: usize)
        ensures
            n == self@.len(),
    {
        self.samples.len()
    }

    /// Append a decoded segment at the tail; everything already buffered
    /// stays in place ahead of it.
    pub fn append(&mut self, segment: &[u32])
        requires
            old(self)@.len() + segment@.len() <= usize::MAX,
        ensures
            final(self)@ == old(self)@ + segment@,
    {
        let mut i: usize = 0;
        while i < segment.len()
            invariant
                i <= segment@.len(),
                self@ == old(self)@ + segment@.subrange(0, i as int),
            decreases segment@.len() - i,
        {
            self.samples.push(segment[i]);
            i = i + 1;
        }
    }

    /// Serve one playback period of `frames.len()` samples.
    ///
    /// If the buffer holds at least that many samples, the head samples are
    /// copied into `frames` in arrival order and removed. Otherwise `frames`
    /// is filled with silence and the buffer is left untouched: underrun
    /// yields a whole period of silence, never a partial drain.
    pub fn fill_frames(&mut self, frames: &mut Vec<u32>)
        ensures
            final(frames)@.len() == old(frames)@.len(),
            old(frames)@.len() <= old(self)@.len() ==> {
                &&& final(frames)@ == old(self)@.subrange(0, old(frames)@.len() as int)
                &&& final(self)@ == old(self)@.subrange(
                    old(frames)@.len() as int,
                    old(self)@.len() as int,
                )
            },
            old(frames)@.len() > old(self)@.len() ==> {
                &&& final(frames)@ == Seq::new(old(frames)@.len() as nat, |i: int| SILENCE)
                &&& final(self)@ == old(self)@
            },
    {
        let n = frames.len();
        if n <= self.samples.len() {
            let mut i: usize = 0;
            while i < n
                invariant
                    n == frames@.len(),
                    i <= n,
                    n <= self@.len(),
                    self@ == old(self)@,
                    forall|j: int| 0 <= j < i ==> frames@[j] == self@[j],
                decreases n - i,
            {
                let s = self.samples[i];
                frames.set(i, s);
                i = i + 1;
            }
            let tail = self.samples.split_off(n);
            self.samples = tail;
            proof {
                assert(final(frames)@ =~= old(self)@.subrange(0, n as int));
            }
        } else {
            let mut i: usize = 0;
            while i < n
                invariant
                    n == frames@.len(),
                    i <= n,
                    self@ == old(self)@,
                    forall|j: int| 0 <= j < i ==> frames@[j] == SILENCE,
                decreases n - i,
            {
                frames.set(i, SILENCE);
                i = i + 1;
            }
            proof {
                assert(final(frames)@ =~= Seq::new(n as nat, |i: int| SILENCE));
            }
        }
    }
}

} // verus!
