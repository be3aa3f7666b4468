//! The device-selection state machine: at most one capture session at a
//! time, torn down in full before the next device may be opened.
//!
//! The manager never touches a device itself. A selection runs as a
//! dialogue with the embedding program: the selection is requested, the
//! manager hands out teardown actions one by one until the old worker is
//! joined and its record dropped, and only then does it accept the outcome
//! of opening the new device. An attempt to register a new session while
//! the old one still exists is rejected, so two sessions can never hold
//! the hardware at once. A failed open or a failed stream negotiation
//! reverts the manager to "no device selected"; both are recoverable.

use vstd::prelude::*;

use crate::session::CaptureSession;
use crate::session::SessionModel;
use crate::session::SessionPhase;
use crate::session::TeardownAction;
use crate::session::teardown_step_m;

verus! {

/// How the embedding program's attempt to open the requested device and
/// negotiate its capture stream ended.
#[derive(Clone, Copy, PartialEq, Eq, Structural, Debug)]
pub enum SelectOutcome {
    /// Device opened, stream negotiated, worker started.
    Opened,
    /// The device could not be opened (not found, busy, permission).
    OpenFailed,
    /// The device refused the stream negotiation (unsupported format).
    NegotiateFailed,
}

/// What the manager asks the embedding program to do next while a
/// selection change is being processed.
#[derive(Clone, Copy, PartialEq, Eq, Structural, Debug)]
pub enum TeardownProgress {
    /// Raise the old worker's stop flag.
    SignalStop,
    /// Join the old worker and inspect its terminal result.
    JoinWorker,
    /// No session is left; the next device may be opened now.
    Ready,
}

/// Ghost counterpart of the manager: the identifier the selection UI
/// highlights, the selection change in progress, and the one session.
pub struct ManagerModel {
    pub selected: Option<int>,
    pub pending: Option<int>,
    pub session: Option<SessionModel>,
}

/// A selected device always has its session recorded and a recorded
/// session always belongs to the selected device — except in the middle of
/// a selection change, while the old session is being torn down.
pub open spec fn wf(m: ManagerModel) -> bool {
    &&& m.pending is None ==> (m.selected matches Some(id) ==> (m.session matches Some(s)
        && s.device_id == id))
    &&& m.pending is None ==> (m.session matches Some(s) ==> m.selected == Some(s.device_id))
}

/// The manager streams from device `id`: it is selected and its worker
/// runs, with no selection change in progress.
pub open spec fn streaming(m: ManagerModel, id: int) -> bool {
    &&& m.selected == Some(id)
    &&& m.pending is None
    &&& m.session == Some(SessionModel { device_id: id, phase: SessionPhase::Running })
}

/// No device is selected and no session exists.
pub open spec fn no_device(m: ManagerModel) -> bool {
    &&& m.selected is None
    &&& m.pending is None
    &&& m.session is None
}

/// What requesting a selection does: it is recorded unless another
/// selection is still in progress, in which case it is rejected — device
/// selections are serialized, never run concurrently.
pub open spec fn request_select_m(m: ManagerModel, id: int) -> (ManagerModel, bool) {
    if m.pending is Some {
        (m, false)
    } else {
        (ManagerModel { selected: m.selected, pending: Some(id), session: m.session }, true)
    }
}

/// What one manager teardown step does: a joined session is dropped (and,
/// when no selection change asked for the teardown, the selection cleared
/// with it); a live one is advanced through the handshake; with no session
/// left the manager reports ready.
pub open spec fn mgr_teardown_m(m: ManagerModel) -> (ManagerModel, TeardownProgress) {
    match m.session {
        None => (m, TeardownProgress::Ready),
        Some(s) => {
            if s.phase is Joined {
                let sel = if m.pending is None {
                    None
                } else {
                    m.selected
                };
                (
                    ManagerModel { selected: sel, pending: m.pending, session: None },
                    TeardownProgress::Ready,
                )
            } else {
                let (s2, a) = teardown_step_m(s);
                let p = if a is SignalStop {
                    TeardownProgress::SignalStop
                } else {
                    TeardownProgress::JoinWorker
                };
                (ManagerModel { selected: m.selected, pending: m.pending, session: Some(s2) }, p)
            }
        },
    }
}

/// What completing a selection does. The outcome is accepted only when a
/// selection is pending and no session record remains: while the old
/// worker has not been joined and dropped, registering a new session is
/// refused. On success the manager streams from the new device; on either
/// failure it reverts to no device selected.
pub open spec fn complete_select_m(m: ManagerModel, outcome: SelectOutcome) -> (
    ManagerModel,
    bool,
) {
    if m.pending is None || m.session is Some {
        (m, false)
    } else {
        let id = m.pending->0;
        match outcome {
            SelectOutcome::Opened => (
                ManagerModel {
                    selected: Some(id),
                    pending: None,
                    session: Some(SessionModel { device_id: id, phase: SessionPhase::Running }),
                },
                true,
            ),
            _ => (ManagerModel { selected: None, pending: None, session: None }, true),
        }
    }
}

/// Process-wide state: the currently selected device and the at most one
/// active capture session.
pub struct DeviceManager {
    selected: Option<usize>,
    pending: Option<usize>,
    session: Option<CaptureSession>,
}

/// The ghost counterpart of an optional device identifier.
pub open spec fn opt_id_m(o: Option<usize>) -> Option<int> {
    match o {
        Some(id) => Some(id as int),
        None => None,
    }
}

/// The ghost counterpart of an optional session.
pub open spec fn opt_session_m(o: Option<CaptureSession>) -> Option<SessionModel> {
    match o {
        Some(s) => Some(s@),
        None => None,
    }
}

impl View for DeviceManager {
    type V = ManagerModel;

    closed spec fn view(&self) -> ManagerModel {
        ManagerModel {
            selected: opt_id_m(self.selected),
            pending: opt_id_m(self.pending),
            session: opt_session_m(self.session),
        }
    }
}

impl DeviceManager {
    /// A manager with no device selected.
    pub fn new() -> (m: DeviceManager)
        ensures
            no_device(m@),
    {
        DeviceManager { selected: None, pending: None, session: None }
    }

    /// The identifier of the currently selected device, for the selection
    /// UI to highlight.
    pub fn current(&self) -> (r: Option<usize>)
        ensures
            opt_id_m(r) == self@.selected,
    {
        self.selected
    }

    /// Whether the selection UI should highlight the row of device `id`.
    pub fn highlights(&self, id: usize) -> (b: bool)
        ensures
            b <==> self@.selected == Some(id as int),
    {
        match self.selected {
            Some(cur) => cur == id,
            None => false,
        }
    }

    /// The device of the recorded session, if one exists.
    pub fn session_device(&self) -> (r: Option<usize>)
        ensures
            self@.session matches Some(s) ==> opt_id_m(r) == Some(s.device_id),
            self@.session is None <==> r is None,
    {
        match &self.session {
            Some(s) => Some(s.device_id()),
            None => None,
        }
    }

    /// Records a request to select device `id`. Rejected if another
    /// selection is still in progress: selections are serialized.
    pub fn request_select(&mut self, id: usize) -> (accepted: bool)
        ensures
            (final(self)@, accepted) == request_select_m(old(self)@, id as int),
    {
        if self.pending.is_some() {
            false
        } else {
            self.pending = Some(id);
            true
        }
    }

    /// Advances the teardown of the old session by one step and hands back
    /// the outside action to perform. Returns `Ready` as soon as no session
    /// record is left; the requested device may be opened only then.
    pub fn teardown_step(&mut self) -> (p: TeardownProgress)
        ensures
            (final(self)@, p) == mgr_teardown_m(old(self)@),
    {
        match self.session.take() {
            None => TeardownProgress::Ready,
            Some(mut s) => {
                if s.is_stopped() {
                    if self.pending.is_none() {
                        self.selected = None;
                    }
                    TeardownProgress::Ready
                } else {
                    let a = s.teardown_step();
                    self.session = Some(s);
                    match a {
                        TeardownAction::SignalStop => TeardownProgress::SignalStop,
                        TeardownAction::JoinWorker => TeardownProgress::JoinWorker,
                        TeardownAction::AlreadyStopped => TeardownProgress::Ready,
                    }
                }
            },
        }
    }

    /// Registers the outcome of opening the pending device. Refused while
    /// the old session still exists, so a new worker can never be
    /// registered before the old one was joined. On success the manager
    /// streams from the new device; on a failed open or a failed stream
    /// negotiation it reverts to no device selected.
    pub fn complete_select(&mut self, outcome: SelectOutcome) -> (applied: bool)
        ensures
            (final(self)@, applied) == complete_select_m(old(self)@, outcome),
    {
        if self.pending.is_none() || self.session.is_some() {
            return false;
        }
        let id = self.pending.unwrap();
        self.pending = None;
        match outcome {
            SelectOutcome::Opened => {
                self.selected = Some(id);
                self.session = Some(CaptureSession::start(id));
            },
            _ => {
                self.selected = None;
            },
        }
        true
    }
}

/// Every transition preserves the manager's well-formedness.
pub proof fn lemma_wf_preserved(m: ManagerModel, id: int, outcome: SelectOutcome)
    requires
        wf(m),
    ensures
        wf(request_select_m(m, id).0),
        wf(mgr_teardown_m(m).0),
        wf(complete_select_m(m, outcome).0),
{
}

/// Selection exclusivity. Starting from a manager streaming from device
/// `a`, the selection of device `b` runs as: request, three teardown steps
/// (raise the stop flag, join the old worker, drop its record), then the
/// successful open. Each step is accepted, the old worker is joined before
/// the open outcome can be registered — a premature attempt is refused —
/// and at the end exactly one session exists and it targets device `b`.
pub proof fn lemma_selection_exclusivity(m: ManagerModel, a: int, b: int)
    requires
        wf(m),
        streaming(m, a),
    ensures
        ({
            let (m1, accepted) = request_select_m(m, b);
            let (m2, prog1) = mgr_teardown_m(m1);
            let (m3, prog2) = mgr_teardown_m(m2);
            let (m4, prog3) = mgr_teardown_m(m3);
            let (m5, applied) = complete_select_m(m4, SelectOutcome::Opened);
            &&& accepted
            &&& prog1 == TeardownProgress::SignalStop
            &&& prog2 == TeardownProgress::JoinWorker
            &&& m3.session == Some(SessionModel { device_id: a, phase: SessionPhase::Joined })
            &&& prog3 == TeardownProgress::Ready
            &&& m4.session is None
            &&& complete_select_m(m1, SelectOutcome::Opened).1 == false
            &&& complete_select_m(m2, SelectOutcome::Opened).1 == false
            &&& complete_select_m(m3, SelectOutcome::Opened).1 == false
            &&& applied
            &&& streaming(m5, b)
            &&& wf(m5)
        }),
{
}

/// A failed open reverts the manager to "no device selected" — never to a
/// half-selected state — whichever stage of opening failed.
pub proof fn lemma_failed_select_reverts(m: ManagerModel, outcome: SelectOutcome)
    requires
        m.pending is Some,
        m.session is None,
        outcome != SelectOutcome::Opened,
    ensures
        complete_select_m(m, outcome).1,
        no_device(complete_select_m(m, outcome).0),
{
}

} // verus!
