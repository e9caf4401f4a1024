//! Control plane: at most one capture pipeline and one playback pipeline,
//! started and stopped from the control surface.
//!
//! The controller owns no hardware itself; it decides. Each operation
//! returns an ordered plan of actions for the surrounding binary to carry
//! out one by one: close a stream, spawn a worker, open a stream. Because
//! each direction's hardware resource is exclusive, every plan that opens a
//! stream closes the old one of that direction first — releasing the device
//! before it is claimed again.

use vstd::prelude::*;

verus! {

/// One step of an action plan, carried out by the surrounding binary in
/// plan order.
#[derive(Clone, Copy, PartialEq, Eq, Structural, Debug)]
pub enum AudioAction {
    /// Close and release the open capture stream.
    CloseRecordStream,
    /// Spawn the encode worker and the hand-off channel it reads.
    SpawnEncodeWorker,
    /// Open and start a capture stream feeding that channel.
    OpenRecordStream,
    /// Close and release the open playback stream.
    ClosePlayStream,
    /// Allocate a fresh frame buffer and spawn the decode worker on it.
    SpawnDecodeWorker,
    /// Open and start a playback stream draining that buffer.
    OpenPlayStream,
}

/// What the control surface shows the user.
#[derive(Clone, Copy, PartialEq, Eq, Structural, Debug)]
pub enum Status {
    /// Nothing started yet.
    Ready,
    /// A capture pipeline was started.
    Recording,
    /// A playback pipeline was started.
    Playing,
    /// Both directions were torn down.
    Stopped,
    /// The last operation failed; the pipelines stay in whatever partial
    /// state the close/open sequence produced.
    Failed,
}

/// The status line as the control surface shows it. On a failure the
/// surrounding binary appends the error's own text after the label.
pub open spec fn status_text(s: Status) -> Seq<char> {
    match s {
        Status::Ready => "ok"@,
        Status::Recording => "recording"@,
        Status::Playing => "playing"@,
        Status::Stopped => "stopped"@,
        Status::Failed => "err"@,
    }
}

/// The plan for starting a capture pipeline: release the old stream if one
/// is open, then spawn the fresh worker and channel, then open the stream.
pub open spec fn start_record_actions(record_open: bool) -> Seq<AudioAction> {
    if record_open {
        seq![
            AudioAction::CloseRecordStream,
            AudioAction::SpawnEncodeWorker,
            AudioAction::OpenRecordStream,
        ]
    } else {
        seq![AudioAction::SpawnEncodeWorker, AudioAction::OpenRecordStream]
    }
}

/// The plan for starting a playback pipeline: release the old stream if one
/// is open, then spawn the fresh buffer and worker, then open the stream.
pub open spec fn start_play_actions(play_open: bool) -> Seq<AudioAction> {
    if play_open {
        seq![
            AudioAction::ClosePlayStream,
            AudioAction::SpawnDecodeWorker,
            AudioAction::OpenPlayStream,
        ]
    } else {
        seq![AudioAction::SpawnDecodeWorker, AudioAction::OpenPlayStream]
    }
}

/// The plan for stopping: close whatever is open, playback first. Workers
/// are not joined; they self-terminate once their stream-side endpoint is
/// gone.
pub open spec fn stop_actions(play_open: bool, record_open: bool) -> Seq<AudioAction> {
    (if play_open {
        seq![AudioAction::ClosePlayStream]
    } else {
        Seq::<AudioAction>::empty()
    }) + (if record_open {
        seq![AudioAction::CloseRecordStream]
    } else {
        Seq::<AudioAction>::empty()
    })
}

/// The combined plan of `stop` followed at once by `start_record`. After
/// `stop` no capture stream is open, so the follow-up plan is
/// `start_record_actions(false)`.
pub open spec fn stop_then_start_record_actions(play_open: bool, record_open: bool) -> Seq<
    AudioAction,
> {
    stop_actions(play_open, record_open) + start_record_actions(false)
}

/// Owner of the two stream slots and the status line.
pub struct SessionController {
    record_open: bool,
    play_open: bool,
    status: Status,
}

impl SessionController {
    /// Whether a capture stream is currently open.
    pub closed spec fn record_open(&self) -> bool {
        self.record_open
    }

    /// Whether a playback stream is currently open.
    pub closed spec fn play_open(&self) -> bool {
        self.play_open
    }

    /// The status shown to the user.
    pub closed spec fn status(&self) -> Status {
        self.status
    }

    /// A fresh controller: no stream open in either direction.
    pub fn new() -> (c: SessionController)
        ensures
            !c.record_open(),
            !c.play_open(),
            c.status() == Status::Ready,
    {
        SessionController { record_open: false, play_open: false, status: Status::Ready }
    }

    /// Whether a capture stream is currently open.
    pub fn record_is_open(&self) -> (b: bool)
        ensures
            b == self.record_open(),
    {
        self.record_open
    }

    /// Whether a playback stream is currently open.
    pub fn play_is_open(&self) -> (b: bool)
        ensures
            b == self.play_open(),
    {
        self.play_open
    }

    /// The status shown to the user.
    pub fn current_status(&self) -> (s: Status)
        ensures
            s == self.status(),
    {
        self.status
    }

    /// The status line shown to the user.
    pub fn status_label(&self) -> (r: &'static str)
        ensures
            r@ == status_text(self.status()),
    {
        match self.status {
            Status::Ready => "ok",
            Status::Recording => "recording",
            Status::Playing => "playing",
            Status::Stopped => "stopped",
            Status::Failed => "err",
        }
    }

    /// Start (or restart) the capture pipeline. The returned plan closes an
    /// already-open capture stream before the new one is opened; the
    /// playback side is untouched.
    pub fn start_record(&mut self) -> (acts: Vec<AudioAction>)
        ensures
            acts@ == start_record_actions(old(self).record_open()),
            final(self).record_open(),
            final(self).play_open() == old(self).play_open(),
            final(self).status() == Status::Recording,
    {
        let mut acts: Vec<AudioAction> = Vec::new();
        if self.record_open {
            acts.push(AudioAction::CloseRecordStream);
        }
        acts.push(AudioAction::SpawnEncodeWorker);
        acts.push(AudioAction::OpenRecordStream);
        self.record_open = true;
        self.status = Status::Recording;
        proof {
            assert(acts@ =~= start_record_actions(old(self).record_open()));
        }
        acts
    }

    /// Start (or restart) the playback pipeline. The returned plan closes an
    /// already-open playback stream before the new one is opened; the
    /// capture side is untouched.
    pub fn start_play(&mut self) -> (acts: Vec<AudioAction>)
        ensures
            acts@ == start_play_actions(old(self).play_open()),
            final(self).play_open(),
            final(self).record_open() == old(self).record_open(),
            final(self).status() == Status::Playing,
    {
        let mut acts: Vec<AudioAction> = Vec::new();
        if self.play_open {
            acts.push(AudioAction::ClosePlayStream);
        }
        acts.push(AudioAction::SpawnDecodeWorker);
        acts.push(AudioAction::OpenPlayStream);
        self.play_open = true;
        self.status = Status::Playing;
        proof {
            assert(acts@ =~= start_play_actions(old(self).play_open()));
        }
        acts
    }

    /// Tear both directions down. Closing the playback stream drops the
    /// hardware side's hold on the frame buffer, which is what lets the
    /// decode worker notice it is the sole owner left and exit.
    pub fn stop(&mut self) -> (acts: Vec<AudioAction>)
        ensures
            acts@ == stop_actions(old(self).play_open(), old(self).record_open()),
            !final(self).record_open(),
            !final(self).play_open(),
            final(self).status() == Status::Stopped,
    {
        let mut acts: Vec<AudioAction> = Vec::new();
        if self.play_open {
            acts.push(AudioAction::ClosePlayStream);
        }
        if self.record_open {
            acts.push(AudioAction::CloseRecordStream);
        }
        self.play_open = false;
        self.record_open = false;
        self.status = Status::Stopped;
        proof {
            assert(acts@ =~= stop_actions(old(self).play_open(), old(self).record_open()));
        }
        acts
    }

    /// Carrying out a capture plan failed (device busy, model unavailable):
    /// the capture slot stays empty and the failure reaches the user only
    /// through the status. No rollback of whatever the plan already did.
    pub fn record_failed(&mut self)
        ensures
            !final(self).record_open(),
            final(self).play_open() == old(self).play_open(),
            final(self).status() == Status::Failed,
    {
        self.record_open = false;
        self.status = Status::Failed;
    }

    /// Carrying out a playback plan failed: the playback slot stays empty
    /// and the failure reaches the user only through the status.
    pub fn play_failed(&mut self)
        ensures
            !final(self).play_open(),
            final(self).record_open() == old(self).record_open(),
            final(self).status() == Status::Failed,
    {
        self.play_open = false;
        self.status = Status::Failed;
    }
}

/// Replacing the capture stream releases the device first: in any
/// `start_record` plan, every close of the capture stream stands strictly
/// before every open of one.
pub proof fn lemma_record_close_precedes_open(record_open: bool)
    ensures
        forall|i: int, j: int|
            0 <= i < start_record_actions(record_open).len() && 0 <= j < start_record_actions(
                record_open,
            ).len() && (#[trigger] start_record_actions(record_open)[i])
                == AudioAction::CloseRecordStream && (#[trigger] start_record_actions(
                record_open,
            )[j]) == AudioAction::OpenRecordStream ==> i < j,
{
}

/// Replacing the playback stream releases the device first: in any
/// `start_play` plan, every close of the playback stream stands strictly
/// before every open of one.
pub proof fn lemma_play_close_precedes_open(play_open: bool)
    ensures
        forall|i: int, j: int|
            0 <= i < start_play_actions(play_open).len() && 0 <= j < start_play_actions(
                play_open,
            ).len() && (#[trigger] start_play_actions(play_open)[i])
                == AudioAction::ClosePlayStream && (#[trigger] start_play_actions(
                play_open,
            )[j]) == AudioAction::OpenPlayStream ==> i < j,
{
}

/// `Stop` followed at once by `StartRecord` fully releases the previous
/// capture stream before the new one is opened: `stop` leaves no capture
/// stream open, so the follow-up plan is `start_record_actions(false)`, and
/// in the two plans run back to back every close of a capture stream stands
/// strictly before every open of one.
pub proof fn lemma_stop_then_start_record_releases_first(play_open: bool, record_open: bool)
    ensures
        forall|i: int, j: int|
            0 <= i < stop_then_start_record_actions(play_open, record_open).len() && 0 <= j
                < stop_then_start_record_actions(play_open, record_open).len() && (
            #[trigger] stop_then_start_record_actions(play_open, record_open)[i])
                == AudioAction::CloseRecordStream && (#[trigger] stop_then_start_record_actions(
                play_open,
                record_open,
            )[j]) == AudioAction::OpenRecordStream ==> i < j,
{
}

} // verus!
