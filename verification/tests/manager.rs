use camcore::manager::{DeviceManager, SelectOutcome, TeardownProgress};

fn select_ok(m: &mut DeviceManager, id: usize) {
    assert!(m.request_select(id));
    loop {
        match m.teardown_step() {
            TeardownProgress::Ready => break,
            _ => {}
        }
    }
    assert!(m.complete_select(SelectOutcome::Opened));
}

#[test]
fn select_on_open_failure_reverts_to_no_device() {
    let mut m = DeviceManager::new();
    assert!(m.request_select(0));
    assert_eq!(m.teardown_step(), TeardownProgress::Ready);
    assert!(m.complete_select(SelectOutcome::OpenFailed));
    assert_eq!(m.current(), None);
    // No worker was started for the failed device.
    assert_eq!(m.session_device(), None);
}

#[test]
fn select_on_negotiate_failure_reverts_to_no_device() {
    let mut m = DeviceManager::new();
    assert!(m.request_select(2));
    assert_eq!(m.teardown_step(), TeardownProgress::Ready);
    assert!(m.complete_select(SelectOutcome::NegotiateFailed));
    assert_eq!(m.current(), None);
    assert_eq!(m.session_device(), None);
}

#[test]
fn successful_select_streams() {
    let mut m = DeviceManager::new();
    select_ok(&mut m, 0);
    assert_eq!(m.current(), Some(0));
    assert_eq!(m.session_device(), Some(0));
    assert!(m.highlights(0));
    assert!(!m.highlights(1));
}

#[test]
fn reselect_joins_old_worker_before_opening_new_device() {
    let mut m = DeviceManager::new();
    select_ok(&mut m, 0);

    assert!(m.request_select(1));
    // Opening device 1 before the old worker was joined is refused.
    assert!(!m.complete_select(SelectOutcome::Opened));
    assert_eq!(m.session_device(), Some(0));

    // The teardown handshake runs in order: signal, join, drop the record.
    assert_eq!(m.teardown_step(), TeardownProgress::SignalStop);
    assert!(!m.complete_select(SelectOutcome::Opened));
    assert_eq!(m.teardown_step(), TeardownProgress::JoinWorker);
    assert!(!m.complete_select(SelectOutcome::Opened));
    assert_eq!(m.teardown_step(), TeardownProgress::Ready);
    assert_eq!(m.session_device(), None);

    // Only now may device 1 be opened and its worker registered.
    assert!(m.complete_select(SelectOutcome::Opened));
    assert_eq!(m.current(), Some(1));
    assert_eq!(m.session_device(), Some(1));
}

#[test]
fn concurrent_selection_requests_are_rejected() {
    let mut m = DeviceManager::new();
    assert!(m.request_select(0));
    // A second selection while one is in progress is rejected, never run
    // concurrently.
    assert!(!m.request_select(1));
    assert_eq!(m.teardown_step(), TeardownProgress::Ready);
    assert!(m.complete_select(SelectOutcome::Opened));
    assert_eq!(m.current(), Some(0));
}

#[test]
fn completing_without_a_request_does_nothing() {
    let mut m = DeviceManager::new();
    assert!(!m.complete_select(SelectOutcome::Opened));
    assert_eq!(m.current(), None);
    assert_eq!(m.session_device(), None);
}

#[test]
fn shutdown_teardown_clears_selection() {
    let mut m = DeviceManager::new();
    select_ok(&mut m, 4);
    assert_eq!(m.teardown_step(), TeardownProgress::SignalStop);
    assert_eq!(m.teardown_step(), TeardownProgress::JoinWorker);
    assert_eq!(m.teardown_step(), TeardownProgress::Ready);
    assert_eq!(m.current(), None);
    assert_eq!(m.session_device(), None);
    // Further teardown is a no-op.
    assert_eq!(m.teardown_step(), TeardownProgress::Ready);
}
