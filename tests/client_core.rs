use azure_iot_sdk::client::{callback_plan, CallbackKind, ClientCore, ClientError, Observers};
use azure_iot_sdk::confirmation::{Outcome, ShutdownStep};
use azure_iot_sdk::dispatch::{d2c_confirmed, reported_state_confirmed};
use azure_iot_sdk::message::IotMessage;

fn all_observers() -> Observers {
    Observers { connection_status: true, twin_desired: true, direct_method: true, incoming_message: true }
}

fn no_observers() -> Observers {
    Observers { connection_status: false, twin_desired: false, direct_method: false, incoming_message: false }
}

#[test]
fn callbacks_follow_observers() {
    assert_eq!(
        callback_plan(all_observers()),
        vec![
            CallbackKind::ConnectionStatus,
            CallbackKind::IncomingMessage,
            CallbackKind::TwinDesired,
            CallbackKind::DirectMethod
        ]
    );
    assert!(callback_plan(no_observers()).is_empty());
    let only_twin = Observers { twin_desired: true, ..no_observers() };
    assert_eq!(callback_plan(only_twin), vec![CallbackKind::TwinDesired]);
}

#[test]
fn telemetry_confirmation_is_reaped_on_next_send() {
    let mut core = ClientCore::new(all_observers(), 30);
    let msg = IotMessage::builder()
        .set_body(b"{\"t\":1}".to_vec())
        .set_id("m1".to_string())
        .set_output_queue("output".to_string())
        .build()
        .unwrap();
    let sub = core.send_d2c_message(&msg, 0).unwrap();
    assert_eq!(sub.queue, "output");
    assert!(sub.reaped.is_empty());
    assert_eq!(sub.steps.len(), 2);
    // the native confirmation arrives within a second with the OK result
    let done = core.confirm(sub.correlation_id, d2c_confirmed(0)).unwrap();
    assert_eq!(done.outcome, Outcome::Succeeded);
    assert_eq!(done.trace_id, sub.trace_id);
    let next = core.send_d2c_message(&msg, 900).unwrap();
    assert_eq!(next.reaped.len(), 1);
    assert_eq!(next.reaped[0].id, sub.correlation_id);
    assert_eq!(next.reaped[0].outcome, Outcome::Succeeded);
    assert!(!core.tracker().is_pending(sub.correlation_id));
    assert_eq!(core.tracker().pending_count(), 1);
}

#[test]
fn twin_report_confirmation_outcomes() {
    let mut core = ClientCore::new(all_observers(), 30);
    let reported: serde_json::Value = serde_json::from_str("{\"x\":1}").unwrap();
    let ok = core.twin_report(&reported, 0).unwrap();
    assert_eq!(ok.payload, "{\"x\":1}");
    assert_eq!(
        core.confirm(ok.correlation_id, reported_state_confirmed(204)).unwrap().outcome,
        Outcome::Succeeded
    );
    let bad = core.twin_report(&reported, 10).unwrap();
    assert_eq!(bad.reaped.len(), 1);
    assert_eq!(
        core.confirm(bad.correlation_id, reported_state_confirmed(400)).unwrap().outcome,
        Outcome::Failed
    );
    // not retried: nothing is pending any more
    assert_eq!(core.tracker().pending_count(), 0);
    assert_eq!(core.reap().len(), 1);
}

#[test]
fn report_with_nul_is_refused() {
    let mut core = ClientCore::new(all_observers(), 30);
    let r = core.prepare_report("\"a\0\"".to_string(), 1, 0);
    assert_eq!(r.unwrap_err(), ClientError::InvalidText);
    assert_eq!(core.tracker().pending_count(), 0);
    let ok = core.prepare_report("{}".to_string(), 5, 0).unwrap();
    assert_eq!((ok.correlation_id, ok.trace_id), (0, 5));
}

#[test]
fn twin_request_needs_observer() {
    assert_eq!(ClientCore::new(all_observers(), 30).twin_request(), Ok(()));
    assert_eq!(
        ClientCore::new(no_observers(), 30).twin_request(),
        Err(ClientError::TwinObserverMissing)
    );
}

#[test]
fn confirmation_timeout_is_seconds() {
    let mut core = ClientCore::new(no_observers(), 5);
    assert_eq!(core.tracker().timeout_ms(), 5_000);
    let msg = IotMessage::builder().set_body(vec![]).build().unwrap();
    let sub = core.prepare_d2c_message(&msg, 11, 1_000).unwrap();
    assert_eq!(sub.trace_id, 11);
    let later = core.prepare_d2c_message(&msg, 12, 6_000).unwrap();
    assert_eq!(later.reaped.len(), 1);
    assert_eq!(later.reaped[0].outcome, Outcome::TimedOut);
    assert_eq!(ClientCore::new(no_observers(), u64::MAX).tracker().timeout_ms(), u64::MAX);
}

#[test]
fn refused_submission_is_withdrawn() {
    let mut core = ClientCore::new(no_observers(), 30);
    let msg = IotMessage::builder().set_body(vec![]).build().unwrap();
    let sub = core.send_d2c_message(&msg, 0).unwrap();
    assert!(core.submission_failed(sub.correlation_id));
    assert_eq!(core.tracker().pending_count(), 0);
}

#[test]
fn shutdown_aborts_unresolved_at_deadline() {
    let mut core = ClientCore::new(no_observers(), 300);
    let msg = IotMessage::builder().set_body(vec![]).build().unwrap();
    for _ in 0..4 {
        core.send_d2c_message(&msg, 0).unwrap();
    }
    let deadline = ClientCore::shutdown_deadline(0, 2_000);
    assert_eq!(deadline, 2_000);
    assert_eq!(ClientCore::shutdown_deadline(u64::MAX - 1, 10), u64::MAX);
    assert_eq!(core.shutdown_step(0, deadline), ShutdownStep::WaitUntil(2_000));
    assert_eq!(core.shutdown_step(2_000, deadline), ShutdownStep::Aborted(4));
    assert_eq!(core.shutdown_step(2_001, deadline), ShutdownStep::Complete);
}

#[test]
fn twin_report_succeeds_for_any_document() {
    let mut core = ClientCore::new(all_observers(), 30);
    for text in ["null", "\"a\\u0000b\"", "[1,2,{\"x\":[]}]"] {
        let v: serde_json::Value = serde_json::from_str(text).unwrap();
        let sub = core.twin_report(&v, 0).unwrap();
        assert!(!sub.payload.contains('\0'));
    }
    assert_eq!(core.tracker().pending_count(), 3);
    assert_eq!(core.tracker().next_id(), 3);
}

#[test]
fn refused_submission_leaves_other_entries() {
    let mut core = ClientCore::new(no_observers(), 30);
    let msg = IotMessage::builder().set_body(vec![]).build().unwrap();
    let a = core.prepare_d2c_message(&msg, 1, 0).unwrap();
    let b = core.prepare_d2c_message(&msg, 2, 0).unwrap();
    assert!(core.submission_failed(a.correlation_id));
    assert!(!core.tracker().is_pending(a.correlation_id));
    assert!(core.tracker().is_pending(b.correlation_id));
    assert_eq!(core.reap().len(), 0);
    // a late confirmation for the refused send is ignored
    assert_eq!(core.confirm(a.correlation_id, true), None);
}
