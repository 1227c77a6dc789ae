//! The orchestrator's decisions: edge-triggered start and stop of a
//! session from successive detector polls, change reports, and the status
//! snapshot handed to the shell.
use vstd::prelude::*;
use crate::models::RecordingStatus;
use crate::recorder::{ScreenRecorder, elapsed};

verus! {

/// What one poll asks of the caller.
#[derive(Clone, Copy, Debug, PartialEq, Eq, Structural)]
pub enum LoopAction {
    /// The target appeared: start a session and announce it.
    StartRecording,
    /// The target went away: stop the session and announce it.
    StopRecording,
    /// The target is still there: report the session's elapsed time.
    Heartbeat,
    /// The target is still absent: nothing to do.
    Idle,
}

/// The action for a poll that sees `running` after one that saw `was`.
pub open spec fn poll_action(was: bool, running: bool) -> LoopAction {
    if running && !was {
        LoopAction::StartRecording
    } else if !running && was {
        LoopAction::StopRecording
    } else if running {
        LoopAction::Heartbeat
    } else {
        LoopAction::Idle
    }
}

/// The orchestrator's two states: idle, or active while the target runs.
pub struct MonitorLoop {
    was_running: bool,
}

impl MonitorLoop {
    /// Whether the last poll saw the target.
    pub closed spec fn active(&self) -> bool {
        self.was_running
    }

    /// An idle orchestrator.
    pub fn new() -> (r: MonitorLoop)
        ensures
            !r.active(),
    {
        MonitorLoop { was_running: false }
    }

    /// Whether the last poll saw the target.
    pub fn is_active(&self) -> (r: bool)
        ensures
            r == self.active(),
    {
        self.was_running
    }

    /// Takes one poll's result: starts on a rising edge, stops on a falling
    /// edge, and otherwise only keeps the heartbeat going while active.
    pub fn step(&mut self, running: bool) -> (r: LoopAction)
        ensures
            r == poll_action(old(self).active(), running),
            final(self).active() == running,
    {
        let was = self.was_running;
        self.was_running = running;
        if running && !was {
            LoopAction::StartRecording
        } else if !running && was {
            LoopAction::StopRecording
        } else if running {
            LoopAction::Heartbeat
        } else {
            LoopAction::Idle
        }
    }
}

/// The spec view of an optional name.
pub open spec fn opt_view(o: Option<String>) -> Option<Seq<char>> {
    match o {
        Some(s) => Some(s@),
        None => None,
    }
}

/// Remembers the last detection result and reports when it changes.
pub struct DetectionWatch {
    last: Option<String>,
}

impl DetectionWatch {
    /// The last detection result seen.
    pub closed spec fn last(&self) -> Option<Seq<char>> {
        opt_view(self.last)
    }

    /// A watch that has seen no target yet.
    pub fn new() -> (r: DetectionWatch)
        ensures
            r.last() is None,
    {
        DetectionWatch { last: None }
    }

    /// Takes one detection result; returns whether it differs from the
    /// previous one.
    pub fn observe(&mut self, current: Option<String>) -> (r: bool)
        ensures
            r == (opt_view(current) != old(self).last()),
            final(self).last() == opt_view(current),
    {
        let changed = match (&self.last, &current) {
            (Some(a), Some(b)) => !a.eq(b),
            (None, None) => false,
            _ => true,
        };
        self.last = current;
        changed
    }
}

/// The status snapshot: whether a session runs, what the detector found,
/// and the session's elapsed seconds at instant `now`.
pub fn get_recording_status(recorder: &ScreenRecorder, detected: Option<String>, now: u64) -> (r: RecordingStatus)
    ensures
        r.is_recording == recorder@.active,
        r.hts_detected == detected is Some,
        opt_view(r.hts_name) == opt_view(detected),
        r.recording_duration == elapsed(recorder@, now),
{
    let is_recording = recorder.is_recording();
    let recording_duration = recorder.get_recording_duration(now);
    let hts_detected = detected.is_some();
    RecordingStatus { is_recording, hts_detected, hts_name: detected, recording_duration }
}

} // verus!
