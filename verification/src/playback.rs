//! Playback side of the pipeline: the adapter between the shared frame
//! buffer and the hardware output callback.
//!
//! Each callback must be served within a hard deadline, so the adapter does
//! nothing beyond one copy-and-drain under the buffer's guard: a whole
//! period of buffered samples if available, a whole period of silence
//! otherwise. It never asks the hardware to stop; playback ends only when
//! the stream itself is closed.

use vstd::prelude::*;

verus! {

use crate::CallbackDecision;
use crate::frame_buffer::FrameBuffer;
use crate::frame_buffer::SILENCE;

/// Adapter between the shared frame buffer and the hardware output
/// callback. The hardware asks for exactly one period of samples per
/// invocation.
pub struct PlaybackBridge {
    period: usize,
}

impl PlaybackBridge {
    /// The callback period negotiated at stream-open time, in samples.
    pub closed spec fn period(&self) -> usize {
        self.period
    }

    /// A bridge for a stream whose callbacks ask for `period` samples each.
    pub fn new(period: usize) -> (b: PlaybackBridge)
        ensures
            b.period() == period,
    {
        PlaybackBridge { period }
    }

    /// One hardware output callback: fill `frames` from the head of the
    /// buffer if it holds a whole period, else with silence, and keep the
    /// stream running either way.
    pub fn on_audio_ready(&self, buffer: &mut FrameBuffer, frames: &mut Vec<u32>) -> (r:
        CallbackDecision)
        requires
            old(frames)@.len() == self.period(),
        ensures
            r == CallbackDecision::Continue,
            final(frames)@.len() == old(frames)@.len(),
            old(frames)@.len() <= old(buffer)@.len() ==> {
                &&& final(frames)@ == old(buffer)@.subrange(0, old(frames)@.len() as int)
                &&& final(buffer)@ == old(buffer)@.subrange(
                    old(frames)@.len() as int,
                    old(buffer)@.len() as int,
                )
            },
            old(frames)@.len() > old(buffer)@.len() ==> {
                &&& final(frames)@ == Seq::new(old(frames)@.len() as nat, |i: int| SILENCE)
                &&& final(buffer)@ == old(buffer)@
            },
    {
        buffer.fill_frames(frames);
        CallbackDecision::Continue
    }
}

} // verus!
