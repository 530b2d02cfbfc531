use mcutie::{Error, Payload, QoS, Topic, TopicString};

#[test]
fn with_bytes_defaults() {
    let topic = Topic::Device("state");
    let message = topic.with_bytes(b"ON");
    assert_eq!(message.qos, QoS::AtMostOnce);
    assert!(!message.retain);
    let message = message.qos(QoS::AtLeastOnce).retain(true);
    assert_eq!(message.qos, QoS::AtLeastOnce);
    assert!(message.retain);
    assert_eq!(message.data, b"ON");
}

#[test]
fn writes_topic_and_payload() {
    let topic = Topic::DeviceType("state");
    let message = topic.with_bytes(b"42");
    let mut t = TopicString::new();
    message.write_topic(&mut t, "sensor", "a1").unwrap();
    assert_eq!(t.as_str(), "sensor/state");
    let mut p = Payload::new();
    message.write_payload(&mut p).unwrap();
    assert_eq!(p.as_bytes(), b"42");
}

#[test]
fn payload_too_large() {
    let data = [1u8; 2049];
    let topic = Topic::General("x");
    let message = topic.with_bytes(&data);
    let mut p = Payload::new();
    assert_eq!(message.write_payload(&mut p), Err(Error::TooLarge));
    assert_eq!(p.len(), 2048);
}
