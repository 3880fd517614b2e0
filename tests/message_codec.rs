use azure_iot_sdk::message::{
    contains_nul, Direction, IncomingParts, IotMessage, MessageError, NativeStep,
    SystemProperties,
};

/// A stand-in for the native message handle: applies native steps and reads
/// requested keys back.
struct SimulatedHandle {
    body: Vec<u8>,
    system: [Option<String>; 4],
    properties: Vec<(String, String)>,
}

fn apply(steps: &[NativeStep]) -> SimulatedHandle {
    let mut h = SimulatedHandle { body: vec![], system: [None, None, None, None], properties: vec![] };
    for s in steps {
        match s {
            NativeStep::CreateFromBytes(b) => {
                h = SimulatedHandle { body: b.clone(), system: [None, None, None, None], properties: vec![] }
            }
            NativeStep::SetMessageId(v) => h.system[0] = Some(v.clone()),
            NativeStep::SetCorrelationId(v) => h.system[1] = Some(v.clone()),
            NativeStep::SetContentType(v) => h.system[2] = Some(v.clone()),
            NativeStep::SetContentEncoding(v) => h.system[3] = Some(v.clone()),
            NativeStep::SetProperty(k, v) => match h.properties.iter_mut().find(|p| &p.0 == k) {
                Some(p) => p.1 = v.clone(),
                None => h.properties.push((k.clone(), v.clone())),
            },
        }
    }
    h
}

fn read(h: &SimulatedHandle, keys: &[&str]) -> IncomingParts {
    IncomingParts {
        body: Some(h.body.clone()),
        system_properties: SystemProperties {
            message_id: h.system[0].clone(),
            correlation_id: h.system[1].clone(),
            content_type: h.system[2].clone(),
            content_encoding: h.system[3].clone(),
        },
        properties: keys
            .iter()
            .map(|k| {
                (k.to_string(), h.properties.iter().find(|p| p.0 == *k).map(|p| p.1.clone()))
            })
            .collect(),
    }
}

fn sample() -> IotMessage {
    IotMessage::builder()
        .set_body(b"{\"t\":1}".to_vec())
        .set_id("m1".to_string())
        .set_correlation_id("c1".to_string())
        .set_content_type("application/json".to_string())
        .set_content_encoding("utf-8".to_string())
        .set_property("k1".to_string(), "v1".to_string())
        .set_property("k2".to_string(), "v2".to_string())
        .build()
        .unwrap()
}

#[test]
fn round_trip_reproduces_body_and_properties() {
    let m = sample();
    let h = apply(&m.native_steps());
    let back = IotMessage::from_incoming(read(&h, &["k1", "k2"]));
    assert_eq!(back.body(), m.body());
    assert_eq!(back.properties(), m.properties());
    let (a, b) = (back.system_properties(), m.system_properties());
    assert_eq!(a.message_id, b.message_id);
    assert_eq!(a.correlation_id, b.correlation_id);
    assert_eq!(a.content_type, b.content_type);
    assert_eq!(a.content_encoding, b.content_encoding);
    assert_eq!(back.direction(), Direction::Incoming);
    assert!(!back.owns_native_handle());
}

#[test]
fn round_trip_of_bare_message() {
    let m = IotMessage::builder().set_body(vec![]).build().unwrap();
    let h = apply(&m.native_steps());
    let back = IotMessage::from_incoming(read(&h, &[]));
    assert!(back.body().is_empty());
    assert!(back.properties().is_empty());
    assert_eq!(back.system_properties().message_id, None);
}

#[test]
fn builder_defaults() {
    let m = IotMessage::builder().set_body(vec![1, 2]).build().unwrap();
    assert_eq!(m.output_queue(), "output");
    assert_eq!(m.direction(), Direction::Outgoing);
    assert!(m.owns_native_handle());
    assert_eq!(m.body(), &vec![1u8, 2]);
    assert_eq!(Direction::default(), Direction::Outgoing);
}

#[test]
fn set_property_twice_keeps_last_value_in_place() {
    let m = IotMessage::builder()
        .set_body(vec![])
        .set_property("a".to_string(), "1".to_string())
        .set_property("b".to_string(), "2".to_string())
        .set_property("a".to_string(), "3".to_string())
        .build()
        .unwrap();
    assert_eq!(
        m.properties(),
        &vec![("a".to_string(), "3".to_string()), ("b".to_string(), "2".to_string())]
    );
}

#[test]
fn native_steps_order() {
    let m = IotMessage::builder()
        .set_body(vec![7])
        .set_content_type("text/plain".to_string())
        .set_id("x".to_string())
        .set_property("p".to_string(), "q".to_string())
        .set_output_queue("telemetry".to_string())
        .build()
        .unwrap();
    let steps = m.native_steps();
    assert_eq!(steps.len(), 4);
    assert!(matches!(&steps[0], NativeStep::CreateFromBytes(b) if b == &vec![7u8]));
    assert!(matches!(&steps[1], NativeStep::SetMessageId(s) if s == "x"));
    assert!(matches!(&steps[2], NativeStep::SetContentType(s) if s == "text/plain"));
    assert!(matches!(&steps[3], NativeStep::SetProperty(k, v) if k == "p" && v == "q"));
    assert_eq!(m.output_queue(), "telemetry");
}

#[test]
fn build_rejects_nul_in_queue() {
    let r = IotMessage::builder().set_body(vec![]).set_output_queue("a\0b".to_string()).build();
    assert_eq!(r.unwrap_err(), MessageError::NulInText);
}

#[test]
fn build_rejects_nul_in_property() {
    let r = IotMessage::builder()
        .set_body(vec![])
        .set_property("k".to_string(), "v\0".to_string())
        .build();
    assert_eq!(r.unwrap_err(), MessageError::NulInText);
}

#[test]
fn build_rejects_nul_in_system_property() {
    let r = IotMessage::builder().set_body(vec![]).set_correlation_id("\0".to_string()).build();
    assert_eq!(r.unwrap_err(), MessageError::NulInText);
}

#[test]
fn incoming_without_body_and_missing_keys() {
    let parts = IncomingParts {
        body: None,
        system_properties: SystemProperties {
            message_id: Some("id".to_string()),
            correlation_id: None,
            content_type: None,
            content_encoding: None,
        },
        properties: vec![("present".to_string(), Some("1".to_string())), ("absent".to_string(), None)],
    };
    let m = IotMessage::from_incoming(parts);
    assert!(m.body().is_empty());
    assert_eq!(m.output_queue(), "output");
    assert_eq!(m.properties(), &vec![("present".to_string(), "1".to_string())]);
    assert_eq!(m.system_properties().message_id.as_deref(), Some("id"));
}

#[test]
fn nul_detection() {
    assert!(contains_nul("ab\0"));
    assert!(!contains_nul("abc"));
    assert!(!contains_nul(""));
}
