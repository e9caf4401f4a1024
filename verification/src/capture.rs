//! Capture side of the pipeline: the hand-off channel between the hardware
//! input callback and the encode worker, and the callback adapter itself.
//!
//! The channel is ordered and unbounded; a send never waits for the consumer.
//! The only way a send fails is that the receiving side is gone, and in that
//! case the capture callback tells the hardware to stop delivering chunks.

use vstd::prelude::*;

verus! {

use crate::CallbackDecision;
use vstd::slice::slice_to_vec;

/// The ordered hand-off channel between the capture callback (producer) and
/// the encode worker (consumer).
///
/// `pending()` is the sequence of chunks sent but not yet received, oldest
/// first. `receiver_live()` and `sender_live()` record whether the two
/// endpoints are still attached; an endpoint disappears when its owner (the
/// worker thread, or the hardware stream) is torn down.
pub struct ChunkQueue {
    chunks: Vec<Vec<u32>>,
    receiver_alive: bool,
    sender_alive: bool,
}

impl ChunkQueue {
    /// The chunks sent but not yet received, oldest first.
    pub closed spec fn pending(&self) -> Seq<Seq<u32>> {
        Seq::new(self.chunks@.len(), |i: int| self.chunks@[i]@)
    }

    /// Whether the consuming endpoint is still attached.
    pub closed spec fn receiver_live(&self) -> bool {
        self.receiver_alive
    }

    /// Whether the producing endpoint is still attached.
    pub closed spec fn sender_live(&self) -> bool {
        self.sender_alive
    }

    /// A fresh channel with both endpoints attached and nothing pending.
    pub fn new() -> (q: ChunkQueue)
        ensures
            q.pending() == Seq::<Seq<u32>>::empty(),
            q.receiver_live(),
            q.sender_live(),
    {
        ChunkQueue { chunks: Vec::new(), receiver_alive: true, sender_alive: true }
    }

    /// Send one chunk. Never waits: it either enqueues the chunk at the tail
    /// (receiver attached) or fails and leaves the channel unchanged
    /// (receiver gone).
    pub fn send(&mut self, chunk: Vec<u32>) -> (ok: bool)
        ensures
            ok == old(self).receiver_live(),
            ok ==> final(self).pending() == old(self).pending().push(chunk@),
            !ok ==> final(self).pending() == old(self).pending(),
            final(self).receiver_live() == old(self).receiver_live(),
            final(self).sender_live() == old(self).sender_live(),
    {
        if self.receiver_alive {
            self.chunks.push(chunk);
            proof {
                assert(self.pending() =~= old(self).pending().push(chunk@));
            }
            true
        } else {
            false
        }
    }

    /// Take the oldest pending chunk, if any. Returns `None` when nothing is
    /// pending; whether that means "wait" or "the producer is gone" is read
    /// off `sender_live()`.
    pub fn try_recv(&mut self) -> (r: Option<Vec<u32>>)
        ensures
            old(self).pending().len() > 0 ==> {
                &&& r matches Some(c) && c@ == old(self).pending()[0]
                &&& final(self).pending() == old(self).pending().subrange(
                    1,
                    old(self).pending().len() as int,
                )
            },
            old(self).pending().len() == 0 ==> {
                &&& r is None
                &&& final(self).pending() == old(self).pending()
            },
            final(self).receiver_live() == old(self).receiver_live(),
            final(self).sender_live() == old(self).sender_live(),
    {
        if self.chunks.len() > 0 {
            let c = self.chunks.remove(0);
            proof {
                assert(self.pending() =~= old(self).pending().subrange(
                    1,
                    old(self).pending().len() as int,
                ));
            }
            Some(c)
        } else {
            None
        }
    }

    /// Whether the producing endpoint is still attached, for the consumer to
    /// tell an idle channel from a dead one.
    pub fn sender_live_now(&self) -> (b: bool)
        ensures
            b == self.sender_live(),
    {
        self.sender_alive
    }

    /// The consuming endpoint goes away (the encode worker exited).
    /// Later sends fail; nothing pending is touched.
    pub fn drop_receiver(&mut self)
        ensures
            !final(self).receiver_live(),
            final(self).sender_live() == old(self).sender_live(),
            final(self).pending() == old(self).pending(),
    {
        self.receiver_alive = false;
    }

    /// The producing endpoint goes away (the capture stream was closed).
    /// Pending chunks can still be received; once they are gone the channel
    /// reads as disconnected.
    pub fn drop_sender(&mut self)
        ensures
            !final(self).sender_live(),
            final(self).receiver_live() == old(self).receiver_live(),
            final(self).pending() == old(self).pending(),
    {
        self.sender_alive = false;
    }
}

/// Adapter between the hardware input callback and the hand-off channel.
///
/// The hardware delivers exactly one chunk of the negotiated period length
/// per invocation; the adapter forwards it without ever waiting.
pub struct CaptureBridge {
    period: usize,
}

impl CaptureBridge {
    /// The callback period negotiated at stream-open time, in samples.
    pub closed spec fn period(&self) -> usize {
        self.period
    }

    /// A bridge for a stream whose callbacks deliver `period` samples each.
    pub fn new(period: usize) -> (b: CaptureBridge)
        ensures
            b.period() == period,
    {
        CaptureBridge { period }
    }

    /// One hardware input callback: forward the delivered chunk to the
    /// encode pipeline. Never waits for the consumer. If the hand-off fails
    /// (receiver gone), answer `Stop` so the hardware delivers no further
    /// chunks; otherwise answer `Continue`.
    pub fn on_audio_ready(&self, queue: &mut ChunkQueue, frames: &[u32]) -> (r: CallbackDecision)
        requires
            frames@.len() == self.period(),
        ensures
            old(queue).receiver_live() ==> {
                &&& r == CallbackDecision::Continue
                &&& final(queue).pending() == old(queue).pending().push(frames@)
            },
            !old(queue).receiver_live() ==> {
                &&& r == CallbackDecision::Stop
                &&& final(queue).pending() == old(queue).pending()
            },
            final(queue).receiver_live() == old(queue).receiver_live(),
            final(queue).sender_live() == old(queue).sender_live(),
    {
        let chunk: Vec<u32> = slice_to_vec(frames);
        if queue.send(chunk) {
            CallbackDecision::Continue
        } else {
            CallbackDecision::Stop
        }
    }
}

} // verus!
