//! Decode worker: drives the decoder's step function across a fixed,
//! pre-encoded sequence of code-frames and appends whatever PCM comes back
//! to the shared frame buffer, in order.
//!
//! The step function is an external collaborator: the surrounding binary
//! decodes frame `next_frame()` and reports the outcome back through
//! `on_step` or `on_step_failed`. The worker stops for one of three reasons:
//! the sequence is exhausted, a step failed, or the playback side dropped
//! its handle on the buffer (observed as the worker being the sole remaining
//! strong owner), in which case produced samples would have nowhere to go
//! and the worker exits early.

use vstd::prelude::*;

verus! {

use crate::frame_buffer::FrameBuffer;

/// Why a decode worker stopped.
#[derive(Clone, Copy, PartialEq, Eq, Structural, Debug)]
pub enum DecodeExit {
    /// Every code-frame of the fixed sequence was decoded.
    Completed,
    /// The worker found itself the sole remaining owner of the buffer.
    Orphaned,
    /// The decoder's step function reported an error.
    StepFailed,
}

/// The decode worker's state: how far through the fixed code-frame sequence
/// it is, whether it is still running, and the ghost record of every PCM
/// segment appended so far, in order.
pub struct DecodeSession {
    total: usize,
    next: usize,
    exit: Option<DecodeExit>,
    segments: Ghost<Seq<Seq<u32>>>,
}

impl DecodeSession {
    /// How many code-frames the fixed sequence holds.
    pub closed spec fn total(&self) -> usize {
        self.total
    }

    /// How many code-frames have been consumed so far.
    pub closed spec fn frames_done(&self) -> usize {
        self.next
    }

    /// Whether the worker is still willing to decode.
    pub closed spec fn is_running(&self) -> bool {
        self.exit is None
    }

    /// Why the worker stopped; meaningful only once it is no longer running.
    pub closed spec fn exit_reason(&self) -> Option<DecodeExit> {
        self.exit
    }

    /// Every PCM segment appended to the buffer so far, in decode order.
    pub closed spec fn segments(&self) -> Seq<Seq<u32>> {
        self.segments@
    }

    /// The worker's invariant: it never consumes more frames than the
    /// sequence holds, each consumed frame yielded at most one segment, a
    /// running worker still has a frame left to decode, completion means
    /// the whole sequence was consumed, and an orphan exit came early.
    pub closed spec fn wf(&self) -> bool {
        &&& self.segments@.len() <= self.next <= self.total
        &&& self.exit is None ==> self.next < self.total
        &&& self.exit == Some(DecodeExit::Completed) ==> self.next == self.total
        &&& self.exit == Some(DecodeExit::Orphaned) ==> self.next < self.total
    }

    /// A fresh worker for a sequence of `total` code-frames. An empty
    /// sequence completes on the spot.
    pub fn new(total: usize) -> (s: DecodeSession)
        ensures
            s.wf(),
            s.total() == total,
            s.frames_done() == 0,
            s.segments() == Seq::<Seq<u32>>::empty(),
            total > 0 ==> s.is_running(),
            total == 0 ==> !s.is_running() && s.exit_reason() == Some(DecodeExit::Completed),
    {
        let exit = if total == 0 {
            Some(DecodeExit::Completed)
        } else {
            None
        };
        DecodeSession { total, next: 0, exit, segments: Ghost(Seq::empty()) }
    }

    /// Whether the worker is still willing to decode.
    pub fn running(&self) -> (b: bool)
        ensures
            b == self.is_running(),
    {
        self.exit.is_none()
    }

    /// Why the worker stopped, or `None` while it still runs.
    pub fn stop_reason(&self) -> (r: Option<DecodeExit>)
        ensures
            r == self.exit_reason(),
    {
        self.exit
    }

    /// Which code-frame to decode next: `Some` while the worker runs, `None`
    /// once it has stopped for any reason.
    pub fn next_frame(&self) -> (r: Option<usize>)
        requires
            self.wf(),
        ensures
            self.is_running() ==> r == Some(self.frames_done()) && self.frames_done()
                < self.total(),
            !self.is_running() ==> r is None,
    {
        if self.exit.is_none() {
            Some(self.next)
        } else {
            None
        }
    }

    /// One successful decode step over frame `next_frame()`.
    ///
    /// If the step yielded PCM, it goes to the tail of the shared buffer,
    /// after everything already there; a step without output leaves the
    /// buffer untouched. Then the worker decides whether to go on: an
    /// exhausted sequence completes it, and a worker that has become the
    /// buffer's sole owner exits early — `sole_owner` is the ownership
    /// observation the surrounding binary made after publishing the output.
    pub fn on_step(
        &mut self,
        output: Option<&[u32]>,
        buffer: &mut FrameBuffer,
        sole_owner: bool,
    )
        requires
            old(self).wf(),
            old(self).is_running(),
            output matches Some(p) ==> old(buffer)@.len() + p@.len() <= usize::MAX,
        ensures
            final(self).wf(),
            final(self).total() == old(self).total(),
            final(self).frames_done() == old(self).frames_done() + 1,
            output matches Some(p) ==> {
                &&& final(buffer)@ == old(buffer)@ + p@
                &&& final(self).segments() == old(self).segments().push(p@)
            },
            output is None ==> {
                &&& final(buffer)@ == old(buffer)@
                &&& final(self).segments() == old(self).segments()
            },
            old(self).frames_done() + 1 == old(self).total() ==> !final(self).is_running()
                && final(self).exit_reason() == Some(DecodeExit::Completed),
            old(self).frames_done() + 1 < old(self).total() && sole_owner ==> !final(
                self).is_running() && final(self).exit_reason() == Some(DecodeExit::Orphaned),
            old(self).frames_done() + 1 < old(self).total() && !sole_owner ==> final(
                self).is_running(),
    {
        match output {
            Some(p) => {
                buffer.append(p);
                self.segments = Ghost(self.segments@.push(p@));
            },
            None => {},
        }
        self.next = self.next + 1;
        if self.next == self.total {
            self.exit = Some(DecodeExit::Completed);
        } else if sole_owner {
            self.exit = Some(DecodeExit::Orphaned);
        }
    }

    /// The decode step over frame `next_frame()` failed: abort the loop at
    /// once — nothing is appended, nothing is retried.
    pub fn on_step_failed(&mut self)
        requires
            old(self).wf(),
            old(self).is_running(),
        ensures
            final(self).wf(),
            final(self).total() == old(self).total(),
            final(self).frames_done() == old(self).frames_done(),
            final(self).segments() == old(self).segments(),
            !final(self).is_running(),
            final(self).exit_reason() == Some(DecodeExit::StepFailed),
    {
        self.exit = Some(DecodeExit::StepFailed);
    }
}

/// A full run appends at most one PCM segment per code-frame: however the
/// worker stopped, the number of segments it ever appended is bounded by the
/// length of the fixed code-frame sequence.
pub proof fn lemma_segments_bounded(s: DecodeSession)
    requires
        s.wf(),
    ensures
        s.segments().len() <= s.total(),
{
}

/// A worker that reports completion really consumed every code-frame of the
/// fixed sequence: `Completed` is never an early exit.
pub proof fn lemma_completed_consumed_everything(s: DecodeSession)
    requires
        s.wf(),
        s.exit_reason() == Some(DecodeExit::Completed),
    ensures
        s.frames_done() == s.total(),
{
}

/// An orphaned worker stopped early: at least one code-frame of the fixed
/// sequence was never consumed.
pub proof fn lemma_orphaned_stopped_early(s: DecodeSession)
    requires
        s.wf(),
        s.exit_reason() == Some(DecodeExit::Orphaned),
    ensures
        s.frames_done() < s.total(),
{
}

} // verus!
