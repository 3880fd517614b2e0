use azure_iot_sdk::dispatch::{
    authentication_status, d2c_confirmed, delivery, disposition_for, finish_response,
    incoming_route, method_response, method_route, reported_state_confirmed, twin_update,
    AuthenticationStatus, Delivery, DispositionResult, IncomingRoute, MessageReply, MethodReply,
    MethodRoute, OverflowPolicy, TwinUpdateState, UnauthenticatedReason,
    METHOD_RESPONSE_ERROR, METHOD_RESPONSE_SUCCESS,
};

#[test]
fn connection_status_mapping() {
    assert_eq!(authentication_status(0, 99), Some(AuthenticationStatus::Authenticated));
    assert_eq!(
        authentication_status(1, 0),
        Some(AuthenticationStatus::Unauthenticated(UnauthenticatedReason::ExpiredSasToken))
    );
    assert_eq!(
        authentication_status(1, 4),
        Some(AuthenticationStatus::Unauthenticated(UnauthenticatedReason::NoNetwork))
    );
    assert_eq!(
        authentication_status(1, 5),
        Some(AuthenticationStatus::Unauthenticated(UnauthenticatedReason::CommunicationError))
    );
    assert_eq!(
        authentication_status(1, 77),
        Some(AuthenticationStatus::Unauthenticated(UnauthenticatedReason::Unknown))
    );
    assert_eq!(authentication_status(2, 0), None);
}

#[test]
fn confirmation_codes() {
    assert!(d2c_confirmed(0));
    assert!(!d2c_confirmed(1));
    assert!(!d2c_confirmed(3));
    assert!(reported_state_confirmed(204));
    assert!(!reported_state_confirmed(200));
    assert!(!reported_state_confirmed(500));
}

#[test]
fn twin_update_decoding() {
    let u = twin_update(0, b"{\"desired\":{\"x\":1}}").unwrap();
    assert_eq!(u.state, TwinUpdateState::Complete);
    assert_eq!(u.value["desired"]["x"], 1);
    let p = twin_update(1, b"{\"x\":2}").unwrap();
    assert_eq!(p.state, TwinUpdateState::Partial);
    assert!(twin_update(2, b"{}").is_none());
    assert!(twin_update(0, b"{not json").is_none());
    assert!(twin_update(0, &[0xff, 0xfe]).is_none());
    assert_eq!(TwinUpdateState::from_native(7), None);
}

#[test]
fn unobserved_incoming_message_is_rejected() {
    let r = incoming_route(false, &vec![]);
    assert_eq!(r, IncomingRoute::Answer(DispositionResult::Rejected));
    assert_eq!(DispositionResult::Rejected.native_code(), 1);
}

#[test]
fn incoming_message_routing() {
    assert_eq!(incoming_route(true, &vec!["a".to_string()]), IncomingRoute::Forward);
    assert_eq!(
        incoming_route(true, &vec!["a".to_string(), "b\0".to_string()]),
        IncomingRoute::Answer(DispositionResult::Rejected)
    );
}

#[test]
fn disposition_codes_and_replies() {
    assert_eq!(DispositionResult::Accepted.native_code(), 0);
    assert_eq!(DispositionResult::Abandoned.native_code(), 2);
    assert_eq!(DispositionResult::AsyncAck.native_code(), 3);
    assert_eq!(
        disposition_for(MessageReply::Disposition(DispositionResult::Accepted)),
        DispositionResult::Accepted
    );
    assert_eq!(disposition_for(MessageReply::Failed), DispositionResult::Rejected);
    assert_eq!(disposition_for(MessageReply::Closed), DispositionResult::Rejected);
}

#[test]
fn unobserved_direct_method_is_not_implemented() {
    match method_route(false, b"reboot", b"{}") {
        MethodRoute::Answer(a) => {
            assert_eq!(a.status, METHOD_RESPONSE_ERROR);
            assert!(a.body.contains("not implemented"));
        }
        MethodRoute::Forward(_) => panic!("forwarded without an observer"),
    }
}

#[test]
fn direct_method_routing() {
    match method_route(true, b"reboot", b"{\"delay\":3}") {
        MethodRoute::Forward(c) => {
            assert_eq!(c.name, "reboot");
            assert_eq!(c.payload["delay"], 3);
        }
        MethodRoute::Answer(_) => panic!("not forwarded"),
    }
    for (name, payload) in [(&b"\xff"[..], &b"{}"[..]), (&b"m"[..], &b"{oops"[..])] {
        match method_route(true, name, payload) {
            MethodRoute::Answer(a) => {
                assert_eq!(a.status, METHOD_RESPONSE_ERROR);
                assert_eq!(a.body, "{ }");
            }
            MethodRoute::Forward(_) => panic!("forwarded an undecodable call"),
        }
    }
}

#[test]
fn direct_method_responses() {
    let r = method_response(MethodReply::NoResult);
    assert_eq!((r.status, r.body.as_str()), (METHOD_RESPONSE_SUCCESS, "{ }"));
    let v: serde_json::Value = serde_json::from_str("{\"ok\":true}").unwrap();
    let r = method_response(MethodReply::Value(v));
    assert_eq!((r.status, r.body.as_str()), (METHOD_RESPONSE_SUCCESS, "{\"ok\":true}"));
    let r = method_response(MethodReply::Error("bad \"input\"".to_string()));
    assert_eq!((r.status, r.body.as_str()), (METHOD_RESPONSE_ERROR, "\"bad \\\"input\\\"\""));
    let r = method_response(MethodReply::Closed);
    assert_eq!((r.status, r.body.as_str()), (METHOD_RESPONSE_ERROR, "{ }"));
}

#[test]
fn response_with_nul_becomes_error() {
    let r = finish_response(METHOD_RESPONSE_SUCCESS, "a\0".to_string());
    assert_eq!((r.status, r.body.as_str()), (METHOD_RESPONSE_ERROR, "{ }"));
    let r = finish_response(METHOD_RESPONSE_SUCCESS, "[1]".to_string());
    assert_eq!((r.status, r.body.as_str()), (METHOD_RESPONSE_SUCCESS, "[1]"));
}

#[test]
fn full_channel_blocks_instead_of_dropping() {
    assert_eq!(delivery(OverflowPolicy::Block, 0), Delivery::WaitForSpace);
    assert_eq!(delivery(OverflowPolicy::Block, 1), Delivery::Send);
    assert_eq!(delivery(OverflowPolicy::DropNewest, 0), Delivery::Drop);
    assert_eq!(delivery(OverflowPolicy::DropNewest, 5), Delivery::Send);
}

#[test]
fn saturated_channel_delivers_after_drain() {
    let rt = tokio::runtime::Builder::new_current_thread().build().unwrap();
    rt.block_on(async {
        // a bounded observer channel of capacity 2 holding two unread events
        let (tx, mut rx) = tokio::sync::mpsc::channel::<u32>(2);
        tx.try_send(1).unwrap();
        tx.try_send(2).unwrap();
        assert_eq!(delivery(OverflowPolicy::Block, tx.capacity()), Delivery::WaitForSpace);
        let third = tokio::spawn(async move { tx.send(3).await.is_ok() });
        for _ in 0..10 {
            tokio::task::yield_now().await;
        }
        assert!(!third.is_finished());
        assert_eq!(rx.recv().await, Some(1));
        assert!(third.await.unwrap());
        assert_eq!(rx.recv().await, Some(2));
        assert_eq!(rx.recv().await, Some(3));
    });
}

#[test]
fn error_message_is_escaped_as_json_string() {
    let r = method_response(MethodReply::Error("a\u{0}b\u{1f}\t\\/é".to_string()));
    assert_eq!(r.status, METHOD_RESPONSE_ERROR);
    assert_eq!(r.body, "\"a\\u0000b\\u001f\\t\\\\/é\"");
    let r = method_response(MethodReply::Error(String::new()));
    assert_eq!(r.body, "\"\"");
}

#[test]
fn result_document_with_nul_in_string_is_escaped() {
    let v: serde_json::Value = serde_json::from_str("{\"k\":\"x\\u0000y\"}").unwrap();
    let r = method_response(MethodReply::Value(v));
    assert_eq!(r.status, METHOD_RESPONSE_SUCCESS);
    assert_eq!(r.body, "{\"k\":\"x\\u0000y\"}");
}
