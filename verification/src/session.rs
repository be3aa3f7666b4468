//! One capture session: the pairing of an open device with its background
//! worker, and the two-phase teardown handshake that stops it.
//!
//! Stopping a running worker is a handshake, never a cancellation of an
//! in-flight fetch: first the shared stop flag is raised, then the caller
//! waits for the worker to exit and joins it. Only after the join may the
//! device be reused. The session records how far that handshake has got;
//! the embedding program performs the actions (raising the real flag,
//! joining the real thread) that each step hands back.

use vstd::prelude::*;

verus! {

/// How far the teardown handshake has got.
#[derive(Clone, Copy, PartialEq, Eq, Structural, Debug)]
pub enum SessionPhase {
    /// The worker runs (or ran until a fetch error); nothing was asked of it.
    Running,
    /// The stop flag has been raised; the worker has not been joined yet.
    StopRequested,
    /// The worker has been joined; the device may be reused.
    Joined,
}

/// The outside action that one teardown step asks the embedding program to
/// perform.
#[derive(Clone, Copy, PartialEq, Eq, Structural, Debug)]
pub enum TeardownAction {
    /// Raise the worker's shared stop flag.
    SignalStop,
    /// Wait for the worker to exit, join it, and inspect its terminal
    /// result.
    JoinWorker,
    /// Nothing: the session is already stopped.
    AlreadyStopped,
}

/// Ghost counterpart of a session.
pub struct SessionModel {
    pub device_id: int,
    pub phase: SessionPhase,
}

/// What one teardown step does to a session and which action it asks for.
pub open spec fn teardown_step_m(s: SessionModel) -> (SessionModel, TeardownAction) {
    match s.phase {
        SessionPhase::Running => (
            SessionModel { device_id: s.device_id, phase: SessionPhase::StopRequested },
            TeardownAction::SignalStop,
        ),
        SessionPhase::StopRequested => (
            SessionModel { device_id: s.device_id, phase: SessionPhase::Joined },
            TeardownAction::JoinWorker,
        ),
        SessionPhase::Joined => (s, TeardownAction::AlreadyStopped),
    }
}

/// One device paired with its background capture worker.
pub struct CaptureSession {
    device_id: usize,
    phase: SessionPhase,
}

impl View for CaptureSession {
    type V = SessionModel;

    closed spec fn view(&self) -> SessionModel {
        SessionModel { device_id: self.device_id as int, phase: self.phase }
    }
}

impl CaptureSession {
    /// Registers a session for a device whose worker was just started.
    pub fn start(device_id: usize) -> (s: CaptureSession)
        ensures
            s@ == (SessionModel { device_id: device_id as int, phase: SessionPhase::Running }),
    {
        CaptureSession { device_id, phase: SessionPhase::Running }
    }

    /// The device this session streams from.
    pub fn device_id(&self) -> (id: usize)
        ensures
            id as int == self@.device_id,
    {
        self.device_id
    }

    /// Whether the worker has been joined, so the device may be reused.
    pub fn is_stopped(&self) -> (b: bool)
        ensures
            b <==> self@.phase is Joined,
    {
        matches!(self.phase, SessionPhase::Joined)
    }

    /// Advances the teardown handshake by one step and hands back the
    /// outside action to perform: raise the stop flag first, join the
    /// worker second. On a session already stopped this is a no-op that
    /// asks for nothing — teardown is idempotent.
    pub fn teardown_step(&mut self) -> (a: TeardownAction)
        ensures
            (final(self)@, a) == teardown_step_m(old(self)@),
    {
        match self.phase {
            SessionPhase::Running => {
                self.phase = SessionPhase::StopRequested;
                TeardownAction::SignalStop
            },
            SessionPhase::StopRequested => {
                self.phase = SessionPhase::Joined;
                TeardownAction::JoinWorker
            },
            SessionPhase::Joined => TeardownAction::AlreadyStopped,
        }
    }
}

/// Teardown is idempotent: on a session whose worker has been joined, any
/// number of further teardown steps change nothing and ask for no outside
/// action.
pub proof fn lemma_teardown_idempotent(s: SessionModel, n: nat)
    requires
        s.phase is Joined,
    ensures
        teardown_steps_m(s, n) == s,
        n > 0 ==> teardown_step_m(teardown_steps_m(s, (n - 1) as nat)).1
            == TeardownAction::AlreadyStopped,
    decreases n,
{
    if n > 0 {
        lemma_teardown_idempotent(s, (n - 1) as nat);
    }
}

/// The session after `n` teardown steps.
pub open spec fn teardown_steps_m(s: SessionModel, n: nat) -> SessionModel
    decreases n,
{
    if n == 0 {
        s
    } else {
        teardown_step_m(teardown_steps_m(s, (n - 1) as nat)).0
    }
}

/// From any phase, two teardown steps stop the session for good: the
/// handshake terminates, and it raises the flag before it joins.
pub proof fn lemma_teardown_terminates(s: SessionModel)
    ensures
        teardown_steps_m(s, 2).phase is Joined,
        teardown_steps_m(s, 2).device_id == s.device_id,
{
    reveal_with_fuel(teardown_steps_m, 3);
}

} // verus!
