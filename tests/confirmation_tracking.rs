use azure_iot_sdk::confirmation::{ConfirmationTracker, Operation, Outcome, ShutdownStep};

#[test]
fn register_hands_out_sequential_ids() {
    let mut t = ConfirmationTracker::new(1000);
    assert_eq!(t.register(Operation::D2cMessage, 7, 0), Some(0));
    assert_eq!(t.register(Operation::ReportedState, 8, 5), Some(1));
    assert_eq!(t.pending_count(), 2);
    assert!(t.is_pending(0) && t.is_pending(1) && !t.is_pending(2));
    assert_eq!(t.next_deadline(), Some(1000));
}

#[test]
fn duplicate_confirmation_is_ignored() {
    let mut t = ConfirmationTracker::new(1000);
    let id = t.register(Operation::D2cMessage, 1, 0).unwrap();
    let first = t.resolve(id, true).unwrap();
    assert_eq!(first.outcome, Outcome::Succeeded);
    assert_eq!(first.id, id);
    assert_eq!(t.resolve(id, false), None);
    assert_eq!(t.finished_count(), 1);
    assert_eq!(t.pending_count(), 0);
    let reaped = t.reap();
    assert_eq!(reaped.len(), 1);
    assert_eq!(reaped[0].outcome, Outcome::Succeeded);
}

#[test]
fn unknown_id_is_ignored() {
    let mut t = ConfirmationTracker::new(10);
    t.register(Operation::D2cMessage, 1, 0);
    assert_eq!(t.resolve(42, true), None);
    assert_eq!(t.pending_count(), 1);
}

#[test]
fn unconfirmed_send_times_out() {
    let mut t = ConfirmationTracker::new(5000);
    let id = t.register(Operation::D2cMessage, 3, 100).unwrap();
    assert_eq!(t.expire(5099), 0);
    assert!(t.is_pending(id));
    assert_eq!(t.expire(5100), 1);
    assert!(!t.is_pending(id));
    let reaped = t.reap();
    assert_eq!(reaped.len(), 1);
    assert_eq!(reaped[0].outcome, Outcome::TimedOut);
    assert_eq!(reaped[0].trace_id, 3);
    // a confirmation arriving after the timeout is ignored
    assert_eq!(t.resolve(id, true), None);
}

#[test]
fn failed_confirmation_is_recorded_once() {
    let mut t = ConfirmationTracker::new(10);
    let id = t.register(Operation::ReportedState, 9, 0).unwrap();
    assert_eq!(t.resolve(id, false).unwrap().outcome, Outcome::Failed);
    assert_eq!(t.pending_count(), 0);
}

#[test]
fn withdraw_removes_without_outcome() {
    let mut t = ConfirmationTracker::new(10);
    let id = t.register(Operation::D2cMessage, 0, 0).unwrap();
    assert!(t.withdraw(id));
    assert!(!t.withdraw(id));
    assert_eq!(t.pending_count(), 0);
    assert_eq!(t.finished_count(), 0);
}

#[test]
fn deadline_saturates() {
    let mut t = ConfirmationTracker::new(u64::MAX);
    t.register(Operation::D2cMessage, 0, 10);
    assert_eq!(t.next_deadline(), Some(u64::MAX));
}

#[test]
fn shutdown_with_nothing_pending_completes() {
    let mut t = ConfirmationTracker::new(1000);
    assert_eq!(t.shutdown_step(0, 100), ShutdownStep::Complete);
}

#[test]
fn shutdown_waits_then_aborts_unresolved() {
    let mut t = ConfirmationTracker::new(60_000);
    for i in 0..3u32 {
        t.register(Operation::D2cMessage, i, 0);
    }
    assert_eq!(t.shutdown_step(10, 2_000), ShutdownStep::WaitUntil(2_000));
    assert_eq!(t.shutdown_step(2_000, 2_000), ShutdownStep::Aborted(3));
    assert_eq!(t.pending_count(), 0);
    let reaped = t.reap();
    assert_eq!(reaped.len(), 3);
    assert!(reaped.iter().all(|f| f.outcome == Outcome::Aborted));
    assert_eq!(t.shutdown_step(2_001, 2_000), ShutdownStep::Complete);
}

#[test]
fn shutdown_waits_for_earlier_entry_deadline() {
    let mut t = ConfirmationTracker::new(500);
    t.register(Operation::D2cMessage, 0, 0);
    assert_eq!(t.shutdown_step(100, 2_000), ShutdownStep::WaitUntil(500));
    assert_eq!(t.shutdown_step(500, 2_000), ShutdownStep::Complete);
    assert_eq!(t.reap()[0].outcome, Outcome::TimedOut);
}

#[test]
fn shutdown_completes_when_confirmations_arrive() {
    let mut t = ConfirmationTracker::new(60_000);
    let a = t.register(Operation::D2cMessage, 0, 0).unwrap();
    let b = t.register(Operation::ReportedState, 1, 0).unwrap();
    assert!(matches!(t.shutdown_step(1, 1_000), ShutdownStep::WaitUntil(_)));
    t.resolve(a, true);
    t.resolve(b, true);
    assert_eq!(t.shutdown_step(2, 1_000), ShutdownStep::Complete);
}

#[test]
fn abort_all_counts() {
    let mut t = ConfirmationTracker::new(10);
    t.register(Operation::D2cMessage, 0, 0);
    t.register(Operation::D2cMessage, 0, 0);
    assert_eq!(t.abort_all(), 2);
    assert_eq!(t.abort_all(), 0);
    assert_eq!(t.timeout_ms(), 10);
}
