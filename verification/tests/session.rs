use camcore::session::{CaptureSession, TeardownAction};

#[test]
fn teardown_signals_then_joins() {
    let mut s = CaptureSession::start(3);
    assert_eq!(s.device_id(), 3);
    assert!(!s.is_stopped());
    assert_eq!(s.teardown_step(), TeardownAction::SignalStop);
    assert!(!s.is_stopped());
    assert_eq!(s.teardown_step(), TeardownAction::JoinWorker);
    assert!(s.is_stopped());
}

#[test]
fn teardown_on_stopped_session_is_a_noop() {
    let mut s = CaptureSession::start(0);
    s.teardown_step();
    s.teardown_step();
    assert!(s.is_stopped());
    // Tearing down an already-stopped session asks for nothing and
    // changes nothing, however often it is attempted.
    assert_eq!(s.teardown_step(), TeardownAction::AlreadyStopped);
    assert_eq!(s.teardown_step(), TeardownAction::AlreadyStopped);
    assert!(s.is_stopped());
    assert_eq!(s.device_id(), 0);
}
