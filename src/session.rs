use vstd::prelude::*;

use crate::command::{capture_args, capture_invocation, encoder, CaptureIntent, Invocation};
use crate::error::MediaError;

verus! {

/// A request made of a recording session, with what came of spawning where a start
/// got that far.
#[derive(Clone, Copy, Debug, PartialEq, Eq, Structural)]
pub enum SessionOp {
    Start { spawn_ok: bool },
    Stop,
}

/// Whether a recording runs after `op`, given whether one ran before.
pub open spec fn op_step(active: bool, op: SessionOp) -> bool {
    match op {
        SessionOp::Start { spawn_ok } => active || spawn_ok,
        SessionOp::Stop => false,
    }
}

/// Whether a recording runs after `ops`, from a fresh session.
pub open spec fn replay(ops: Seq<SessionOp>) -> bool
    decreases ops.len(),
{
    if ops.len() == 0 {
        false
    } else {
        op_step(replay(ops.drop_last()), ops.last())
    }
}

/// How many starts among `ops` began a recording.
pub open spec fn started(ops: Seq<SessionOp>) -> nat
    decreases ops.len(),
{
    if ops.len() == 0 {
        0
    } else {
        started(ops.drop_last()) + if !replay(ops.drop_last()) && ops.last() == (SessionOp::Start {
            spawn_ok: true,
        }) {
            1nat
        } else {
            0nat
        }
    }
}

/// How many stops among `ops` ended a recording.
pub open spec fn stopped(ops: Seq<SessionOp>) -> nat
    decreases ops.len(),
{
    if ops.len() == 0 {
        0
    } else {
        stopped(ops.drop_last()) + if replay(ops.drop_last()) && ops.last() == SessionOp::Stop {
            1nat
        } else {
            0nat
        }
    }
}

/// How many stops `ops` holds.
pub open spec fn stop_calls(ops: Seq<SessionOp>) -> nat
    decreases ops.len(),
{
    if ops.len() == 0 {
        0
    } else {
        stop_calls(ops.drop_last()) + if ops.last() == SessionOp::Stop {
            1nat
        } else {
            0nat
        }
    }
}

/// Every stop in `ops` comes while a recording runs.
pub open spec fn stops_while_active(ops: Seq<SessionOp>) -> bool
    decreases ops.len(),
{
    ops.len() == 0 || (stops_while_active(ops.drop_last()) && (ops.last() == SessionOp::Stop
        ==> replay(ops.drop_last())))
}

/// A recording runs exactly when more recordings were started than stopped, and
/// never more than one has been started beyond those stopped.
pub proof fn lemma_active_iff_more_starts(ops: Seq<SessionOp>)
    ensures
        replay(ops) <==> started(ops) > stopped(ops),
        started(ops) <= stopped(ops) + 1,
        replay(ops) ==> started(ops) == stopped(ops) + 1,
        !replay(ops) ==> started(ops) == stopped(ops),
    decreases ops.len(),
{
    if ops.len() > 0 {
        lemma_active_iff_more_starts(ops.drop_last());
        match ops.last() {
            SessionOp::Start { spawn_ok } => {},
            SessionOp::Stop => {},
        }
    }
}

/// Where no stop comes while idle, a recording runs exactly when the starts that
/// succeeded outnumber the stop calls.
pub proof fn lemma_active_iff_starts_exceed_stop_calls(ops: Seq<SessionOp>)
    requires
        stops_while_active(ops),
    ensures
        stopped(ops) == stop_calls(ops),
        replay(ops) <==> started(ops) > stop_calls(ops),
    decreases ops.len(),
{
    lemma_active_iff_more_starts(ops);
    if ops.len() > 0 {
        lemma_active_iff_starts_exceed_stop_calls(ops.drop_last());
    }
}

/// The one slot for the recording in progress, holding the handle `H` of its process.
#[verifier::reject_recursive_types(H)]
pub struct RecordingSession<H> {
    slot: Option<H>,
}

impl<H> RecordingSession<H> {
    /// The handle of the recording in progress, if any.
    pub closed spec fn handle(&self) -> Option<H> {
        self.slot
    }

    pub open spec fn active(&self) -> bool {
        self.handle() is Some
    }

    /// A session with no recording.
    pub fn new() -> (r: Self)
        ensures
            !r.active(),
    {
        RecordingSession { slot: None }
    }

    /// Whether a recording is in progress.
    pub fn is_recording(&self) -> (r: bool)
        ensures
            r == self.active(),
    {
        self.slot.is_some()
    }

    /// First half of a start: refuses while a recording runs, and otherwise gives the
    /// invocation to spawn. Hand what spawning gave to `complete_start`.
    pub fn begin_start(&self, intent: &CaptureIntent) -> (r: Result<Invocation, MediaError>)
        ensures
            self.active() ==> r matches Err(MediaError::AlreadyRecording),
            !self.active() ==> (r matches Ok(inv) && inv@ == (
                encoder(),
                capture_args(intent.source, intent.output_path@),
            )),
    {
        if self.slot.is_some() {
            return Err(MediaError::AlreadyRecording);
        }
        Ok(capture_invocation(intent))
    }

    /// Second half of a start: keeps the spawned process, or stays idle and passes the
    /// spawn's error on. On success, tells where the recording goes.
    pub fn complete_start(&mut self, output_path: &String, spawned: Result<H, MediaError>) -> (r:
        Result<String, MediaError>)
        requires
            !old(self).active(),
        ensures
            final(self).active() == op_step(
                old(self).active(),
                SessionOp::Start { spawn_ok: spawned is Ok },
            ),
            match spawned {
                Ok(h) => final(self).handle() == Some(h) && (r matches Ok(m) && m@
                    == "Recording started to: "@ + output_path@),
                Err(e) => r == Err::<String, MediaError>(e),
            },
    {
        match spawned {
            Ok(h) => {
                self.slot = Some(h);
                let mut m = String::from_str("Recording started to: ");
                m.append(output_path.as_str());
                Ok(m)
            },
            Err(e) => Err(e),
        }
    }

    /// Ends the session's recording: empties the slot and hands over the process, which
    /// the caller then interrupts and waits for. Refuses when no recording runs.
    pub fn stop(&mut self) -> (r: Result<H, MediaError>)
        ensures
            final(self).active() == op_step(old(self).active(), SessionOp::Stop),
            !final(self).active(),
            match old(self).handle() {
                Some(h) => r == Ok::<H, MediaError>(h),
                None => r matches Err(MediaError::NoActiveRecording),
            },
    {
        match self.slot.take() {
            Some(h) => Ok(h),
            None => Err(MediaError::NoActiveRecording),
        }
    }

    /// Settles the session after the caller took its process out with `stop` to see
    /// whether it still runs: a process that has exited is dropped, one that runs is
    /// kept. Tells whether a recording runs afterwards.
    pub fn settle(&mut self, probed: H, exited: bool) -> (r: bool)
        requires
            !old(self).active(),
        ensures
            r == !exited,
            final(self).active() == r,
            !exited ==> final(self).handle() == Some(probed),
    {
        if exited {
            false
        } else {
            self.slot = Some(probed);
            true
        }
    }
}

} // verus!
