//! Encode worker: pulls captured chunks off the hand-off channel in arrival
//! order and turns each into one fixed-shape request for the encoder's step
//! function.
//!
//! The step function itself is an external collaborator: the surrounding
//! binary runs it and reports the outcome back. The worker's verified part
//! is the order in which chunks are handed to it and the shape of every
//! request, plus the exits: a disconnected channel or a failed step ends the
//! worker, and nothing is ever retried.

use vstd::prelude::*;

verus! {

use crate::capture::ChunkQueue;

/// Why an encode worker stopped.
#[derive(Clone, Copy, PartialEq, Eq, Structural, Debug)]
pub enum EncodeExit {
    /// The channel was empty and its producing endpoint gone.
    ChannelClosed,
    /// The encoder's step function reported an error.
    StepFailed,
}

/// One invocation of the encoder's step function: a fixed-shape input of one
/// batch and one channel, holding exactly one captured chunk.
pub struct EncodeRequest {
    pub batch: usize,
    pub channels: usize,
    pub samples: Vec<u32>,
}

/// The encode worker's state: whether it is still running, and the ghost
/// record of every chunk handed to the step function so far, in order.
pub struct EncodeSession {
    exit: Option<EncodeExit>,
    processed: Ghost<Seq<Seq<u32>>>,
}

impl EncodeSession {
    /// Whether the worker is still willing to process chunks.
    pub closed spec fn is_running(&self) -> bool {
        self.exit is None
    }

    /// Why the worker stopped; meaningful only once it is no longer running.
    pub closed spec fn exit_reason(&self) -> Option<EncodeExit> {
        self.exit
    }

    /// Every chunk handed to the step function so far, in arrival order.
    pub closed spec fn processed(&self) -> Seq<Seq<u32>> {
        self.processed@
    }

    /// A fresh worker that has processed nothing.
    pub fn new() -> (s: EncodeSession)
        ensures
            s.is_running(),
            s.processed() == Seq::<Seq<u32>>::empty(),
    {
        EncodeSession { exit: None, processed: Ghost(Seq::empty()) }
    }

    /// Whether the worker is still willing to process chunks.
    pub fn running(&self) -> (b: bool)
        ensures
            b == self.is_running(),
    {
        self.exit.is_none()
    }

    /// Why the worker stopped, or `None` while it still runs.
    pub fn stop_reason(&self) -> (r: Option<EncodeExit>)
        ensures
            r == self.exit_reason(),
    {
        self.exit
    }

    /// Pull at most one chunk off the channel.
    ///
    /// With a chunk pending, the oldest one becomes the next step request:
    /// batch 1, channel 1, samples exactly the chunk. With nothing pending
    /// and the producer gone, the worker exits (`ChannelClosed`). With
    /// nothing pending but the producer still attached, nothing changes: the
    /// caller parks until the next chunk arrives.
    pub fn poll(&mut self, queue: &mut ChunkQueue) -> (r: Option<EncodeRequest>)
        requires
            old(self).is_running(),
        ensures
            old(queue).pending().len() > 0 ==> {
                &&& r matches Some(req) && req.batch == 1 && req.channels == 1
                    && req.samples@ == old(queue).pending()[0]
                &&& final(self).is_running()
                &&& final(self).processed() == old(self).processed().push(
                    old(queue).pending()[0],
                )
                &&& final(queue).pending() == old(queue).pending().subrange(
                    1,
                    old(queue).pending().len() as int,
                )
            },
            old(queue).pending().len() == 0 && !old(queue).sender_live() ==> {
                &&& r is None
                &&& !final(self).is_running()
                &&& final(self).exit_reason() == Some(EncodeExit::ChannelClosed)
                &&& final(self).processed() == old(self).processed()
                &&& final(queue).pending() == old(queue).pending()
            },
            old(queue).pending().len() == 0 && old(queue).sender_live() ==> {
                &&& r is None
                &&& final(self).is_running()
                &&& final(self).processed() == old(self).processed()
                &&& final(queue).pending() == old(queue).pending()
            },
            final(queue).receiver_live() == old(queue).receiver_live(),
            final(queue).sender_live() == old(queue).sender_live(),
    {
        match queue.try_recv() {
            Some(chunk) => {
                self.processed = Ghost(self.processed@.push(chunk@));
                Some(EncodeRequest { batch: 1, channels: 1, samples: chunk })
            },
            None => {
                if !queue.sender_live_now() {
                    self.exit = Some(EncodeExit::ChannelClosed);
                }
                None
            },
        }
    }

    /// Record the outcome of the step the surrounding binary just ran. On
    /// success the result is discarded (this pipeline exists for live
    /// encoding, not persisted output) and the worker keeps going; a failure
    /// ends the worker for good.
    pub fn on_step_result(&mut self, ok: bool)
        requires
            old(self).is_running(),
        ensures
            ok ==> final(self).is_running(),
            !ok ==> !final(self).is_running() && final(self).exit_reason() == Some(
                EncodeExit::StepFailed,
            ),
            final(self).processed() == old(self).processed(),
    {
        if !ok {
            self.exit = Some(EncodeExit::StepFailed);
        }
    }

    /// One pass of the worker loop: hand every chunk already pending to the
    /// step function, oldest first, then report whether the channel is
    /// exhausted for good.
    ///
    /// The returned requests are the step invocations to perform, in order:
    /// one per pending chunk, each of batch 1 and channel 1, carrying the
    /// chunks exactly as they were sent — strict first-in-first-out, no
    /// reordering, no batching.
    pub fn run_pending(&mut self, queue: &mut ChunkQueue) -> (reqs: Vec<EncodeRequest>)
        requires
            old(self).is_running(),
        ensures
            reqs@.len() == old(queue).pending().len(),
            forall|i: int|
                0 <= i < reqs@.len() ==> {
                    &&& (#[trigger] reqs@[i]).batch == 1
                    &&& reqs@[i].channels == 1
                    &&& reqs@[i].samples@ == old(queue).pending()[i]
                },
            final(self).processed() == old(self).processed() + old(queue).pending(),
            final(queue).pending().len() == 0,
            old(queue).sender_live() ==> final(self).is_running(),
            !old(queue).sender_live() ==> !final(self).is_running()
                && final(self).exit_reason() == Some(EncodeExit::ChannelClosed),
            final(queue).receiver_live() == old(queue).receiver_live(),
            final(queue).sender_live() == old(queue).sender_live(),
    {
        let mut reqs: Vec<EncodeRequest> = Vec::new();
        loop
            invariant
                self.is_running(),
                reqs@.len() <= old(queue).pending().len(),
                queue.pending() == old(queue).pending().subrange(
                    reqs@.len() as int,
                    old(queue).pending().len() as int,
                ),
                forall|i: int|
                    0 <= i < reqs@.len() ==> {
                        &&& (#[trigger] reqs@[i]).batch == 1
                        &&& reqs@[i].channels == 1
                        &&& reqs@[i].samples@ == old(queue).pending()[i]
                    },
                self.processed() == old(self).processed() + old(queue).pending().subrange(
                    0,
                    reqs@.len() as int,
                ),
                queue.receiver_live() == old(queue).receiver_live(),
                queue.sender_live() == old(queue).sender_live(),
            ensures
                self.is_running(),
                queue.pending().len() == 0,
                reqs@.len() == old(queue).pending().len(),
                forall|i: int|
                    0 <= i < reqs@.len() ==> {
                        &&& (#[trigger] reqs@[i]).batch == 1
                        &&& reqs@[i].channels == 1
                        &&& reqs@[i].samples@ == old(queue).pending()[i]
                    },
                self.processed() == old(self).processed() + old(queue).pending(),
                queue.receiver_live() == old(queue).receiver_live(),
                queue.sender_live() == old(queue).sender_live(),
            decreases queue.pending().len(),
        {
            let ghost done: int = reqs@.len() as int;
            let ghost all: Seq<Seq<u32>> = old(queue).pending();
            match queue.try_recv() {
                Some(chunk) => {
                    proof {
                        assert(all.subrange(done, all.len() as int)[0] == all[done]);
                        assert(all.subrange(done, all.len() as int).subrange(
                            1,
                            all.len() - done,
                        ) =~= all.subrange(done + 1, all.len() as int));
                    }
                    self.processed = Ghost(self.processed@.push(chunk@));
                    reqs.push(EncodeRequest { batch: 1, channels: 1, samples: chunk });
                    proof {
                        assert(self.processed() =~= old(self).processed() + all.subrange(
                            0,
                            done + 1,
                        ));
                    }
                },
                None => {
                    proof {
                        assert(all.subrange(done, all.len() as int).len() == 0);
                        assert(all.subrange(0, done) =~= all);
                    }
                    break;
                },
            }
        }
        if !queue.sender_live_now() {
            self.exit = Some(EncodeExit::ChannelClosed);
        }
        reqs
    }
}

} // verus!
