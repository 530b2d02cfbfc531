use mcutie::io::{
    connect_request, encode_for_sending, pid_for, publish_confirmed, publish_request,
    qos_needs_pid, subscribe_outcome, subscribe_request, unsubscribe_outcome, unsubscribe_request,
    Backoff, ReceiveAction, ReceiveBuffer, RECEIVE_BUFFER_LENGTH,
};
use mcutie::mqtt::{LastWill, OutPacket, ShortPacket, SubscribeReturnCode};
use mcutie::{ControlMessage, Error, MqttMessage, QoS, Topic, TopicString};

fn process(bytes: &[u8], ha: bool) -> (Vec<ReceiveAction>, Result<(), Error>, ReceiveBuffer) {
    let mut buffer = ReceiveBuffer::new();
    buffer.fill(bytes);
    let (actions, r) = buffer.process(ha, "sensor", "a1b2");
    (actions, r, buffer)
}

fn sent(action: &ReceiveAction) -> &[u8] {
    match action {
        ReceiveAction::Send(p) => p.as_bytes(),
        _ => panic!("expected bytes to send"),
    }
}

#[test]
fn accepted_connection_subscribes_then_reports() {
    let (actions, r, buffer) = process(&[0x20, 0x02, 0x00, 0x00], true);
    assert_eq!(r, Ok(()));
    assert_eq!(actions.len(), 3);
    assert!(matches!(actions[0], ReceiveAction::SubscribeHomeAssistant));
    assert!(matches!(actions[1], ReceiveAction::SubscribeConfigured));
    assert!(matches!(actions[2], ReceiveAction::Deliver(MqttMessage::Connected)));
    assert_eq!(buffer.free(), RECEIVE_BUFFER_LENGTH);
}

#[test]
fn accepted_connection_without_home_assistant() {
    let (actions, r, _) = process(&[0x20, 0x02, 0x00, 0x00], false);
    assert_eq!(r, Ok(()));
    assert_eq!(actions.len(), 2);
    assert!(matches!(actions[0], ReceiveAction::SubscribeConfigured));
    assert!(matches!(actions[1], ReceiveAction::Deliver(MqttMessage::Connected)));
}

#[test]
fn refused_connection_is_an_io_error() {
    let (actions, r, buffer) = process(&[0x20, 0x02, 0x00, 0x05], true);
    assert_eq!(r, Err(Error::IOError));
    assert!(actions.is_empty());
    // The buffer is left as it was.
    assert_eq!(buffer.free(), RECEIVE_BUFFER_LENGTH - 4);
}

#[test]
fn published_message_is_delivered() {
    let packet = [0x30, 0x0f, 0x00, 0x0b, b's', b'e', b'n', b's', b'o', b'r', b'/', b'c', b'm', b'd',
        b'/', b'o', b'n'];
    // topic "sensor/cmd/" is 11 bytes; payload "on".
    let (actions, r, _) = process(&packet, false);
    assert_eq!(r, Ok(()));
    assert_eq!(actions.len(), 1);
    match &actions[0] {
        ReceiveAction::Deliver(MqttMessage::Publish(topic, payload)) => {
            assert!(topic.eq(&Topic::DeviceType("cmd/")));
            assert_eq!(payload.as_bytes(), b"on");
        }
        _ => panic!("expected a delivered message"),
    }
}

#[test]
fn at_least_once_message_is_acknowledged() {
    // QoS 1, topic "a/b", packet identifier 7, payload "hi".
    let packet = [0x32, 0x09, 0x00, 0x03, b'a', b'/', b'b', 0x00, 0x07, b'h', b'i'];
    let (actions, r, _) = process(&packet, false);
    assert_eq!(r, Ok(()));
    assert_eq!(actions.len(), 2);
    match &actions[0] {
        ReceiveAction::Deliver(MqttMessage::Publish(topic, payload)) => {
            assert!(topic.eq(&Topic::General("a/b")));
            assert_eq!(payload.as_bytes(), b"hi");
        }
        _ => panic!("expected a delivered message"),
    }
    assert_eq!(sent(&actions[1]), &[0x40, 0x02, 0x00, 0x07]);
}

#[test]
fn exactly_once_message_is_received() {
    let packet = [0x34, 0x07, 0x00, 0x01, b'x', 0x00, 0x09, b'1', b'2'];
    let (actions, r, _) = process(&packet, false);
    assert_eq!(r, Ok(()));
    assert_eq!(actions.len(), 2);
    assert_eq!(sent(&actions[1]), &[0x50, 0x02, 0x00, 0x09]);
}

#[test]
fn home_assistant_status_online() {
    let mut packet = vec![0x30, 0x1c, 0x00, 0x14];
    packet.extend_from_slice(b"homeassistant/status");
    packet.extend_from_slice(b"online");
    let (actions, r, _) = process(&packet, true);
    assert_eq!(r, Ok(()));
    assert_eq!(actions.len(), 1);
    assert!(matches!(actions[0], ReceiveAction::Deliver(MqttMessage::HomeAssistantOnline)));

    // Another status is swallowed.
    let mut offline = vec![0x30, 0x1d, 0x00, 0x14];
    offline.extend_from_slice(b"homeassistant/status");
    offline.extend_from_slice(b"offline");
    let (actions, r, _) = process(&offline, true);
    assert_eq!(r, Ok(()));
    assert!(actions.is_empty());

    // Without Home Assistant support it is an ordinary message.
    let (actions, _, _) = process(&packet, false);
    assert!(matches!(actions[0], ReceiveAction::Deliver(MqttMessage::Publish(_, _))));
}

#[test]
fn acknowledgements_become_control_messages() {
    let (actions, r, _) = process(&[0x40, 0x02, 0x00, 0x05], false);
    assert_eq!(r, Ok(()));
    assert!(matches!(actions[0], ReceiveAction::Control(ControlMessage::Published(5))));

    let (actions, r, _) = process(&[0x90, 0x03, 0x00, 0x03, 0x01], false);
    assert_eq!(r, Ok(()));
    assert_eq!(actions.len(), 1);
    assert!(matches!(
        actions[0],
        ReceiveAction::Control(ControlMessage::Subscribed(
            3,
            SubscribeReturnCode::Success(QoS::AtLeastOnce)
        ))
    ));

    let (actions, _, _) = process(&[0x90, 0x03, 0x00, 0x03, 0x80], false);
    assert!(matches!(
        actions[0],
        ReceiveAction::Control(ControlMessage::Subscribed(3, SubscribeReturnCode::Failure))
    ));

    let (actions, _, _) = process(&[0xb0, 0x02, 0x00, 0x04], false);
    assert!(matches!(actions[0], ReceiveAction::Control(ControlMessage::Unsubscribed(4))));
}

#[test]
fn publish_receipt_is_released() {
    let (actions, r, _) = process(&[0x50, 0x02, 0x00, 0x06], false);
    assert_eq!(r, Ok(()));
    assert_eq!(actions.len(), 2);
    assert!(matches!(actions[0], ReceiveAction::Control(ControlMessage::Published(6))));
    assert_eq!(sent(&actions[1]), &[0x62, 0x02, 0x00, 0x06]);

    // A release is answered with a completion.
    let (actions, r, _) = process(&[0x62, 0x02, 0x00, 0x06], false);
    assert_eq!(r, Ok(()));
    assert_eq!(actions.len(), 1);
    assert_eq!(sent(&actions[0]), &[0x70, 0x02, 0x00, 0x06]);
}

#[test]
fn pings_and_completions_ask_for_nothing() {
    let (actions, r, _) = process(&[0xd0, 0x00, 0x70, 0x02, 0x00, 0x01], false);
    assert_eq!(r, Ok(()));
    assert!(actions.is_empty());
}

#[test]
fn several_packets_in_one_read() {
    let bytes = [0x20, 0x02, 0x00, 0x00, 0x40, 0x02, 0x00, 0x05, 0xd0, 0x00];
    let (actions, r, buffer) = process(&bytes, false);
    assert_eq!(r, Ok(()));
    assert_eq!(actions.len(), 3);
    assert!(matches!(actions[2], ReceiveAction::Control(ControlMessage::Published(5))));
    assert_eq!(buffer.free(), RECEIVE_BUFFER_LENGTH);
}

#[test]
fn incomplete_packet_is_kept_for_later() {
    let mut buffer = ReceiveBuffer::new();
    buffer.fill(&[0x40, 0x02, 0x00, 0x05, 0x40, 0x02]);
    let (actions, r) = buffer.process(false, "d", "i");
    assert_eq!(r, Ok(()));
    assert_eq!(actions.len(), 1);
    assert_eq!(buffer.free(), RECEIVE_BUFFER_LENGTH - 2);
    buffer.fill(&[0x00, 0x08]);
    let (actions, r) = buffer.process(false, "d", "i");
    assert_eq!(r, Ok(()));
    assert!(matches!(actions[0], ReceiveAction::Control(ControlMessage::Published(8))));
    assert_eq!(buffer.free(), RECEIVE_BUFFER_LENGTH);
}

#[test]
fn invalid_packet_is_a_packet_error() {
    // Packet type 0 is reserved.
    let (actions, r, _) = process(&[0x00, 0x00], false);
    assert!(actions.is_empty());
    assert_eq!(r, Err(Error::PacketError));
    // A packet identifier of zero cannot be decoded.
    let (_, r, _) = process(&[0x40, 0x02, 0x00, 0x00], false);
    assert_eq!(r, Err(Error::PacketError));
}

#[test]
fn actions_before_a_failure_are_kept() {
    let (actions, r, _) = process(&[0x40, 0x02, 0x00, 0x05, 0x20, 0x02, 0x00, 0x02], false);
    assert_eq!(r, Err(Error::IOError));
    assert_eq!(actions.len(), 1);
}

#[test]
fn encodes_short_packets() {
    let p = encode_for_sending(&OutPacket::Short(ShortPacket::Puback(0x0102))).ok().unwrap();
    assert_eq!(p.as_bytes(), &[0x40, 0x02, 0x01, 0x02]);
    let p = encode_for_sending(&OutPacket::Short(ShortPacket::Pingreq)).ok().unwrap();
    assert_eq!(p.as_bytes(), &[0xc0, 0x00]);
}

#[test]
fn encodes_publish_requests() {
    let p = publish_request("a/b", b"hi", QoS::AtMostOnce, false, None).ok().unwrap();
    assert_eq!(p.as_bytes(), &[0x30, 0x07, 0x00, 0x03, b'a', b'/', b'b', b'h', b'i']);
    let p = publish_request("a/b", b"hi", QoS::AtLeastOnce, true, Some(7)).ok().unwrap();
    assert_eq!(p.as_bytes(), &[0x33, 0x09, 0x00, 0x03, b'a', b'/', b'b', 0x00, 0x07, b'h', b'i']);
    let big = [0u8; 2048];
    assert!(matches!(
        publish_request("a", &big, QoS::AtMostOnce, false, None),
        Err(Error::PacketError)
    ));
}

#[test]
fn encodes_subscriptions() {
    let mut t = TopicString::new();
    t.push_str("a").unwrap();
    let p = subscribe_request(t.clone(), 1).ok().unwrap();
    assert_eq!(p.as_bytes(), &[0x82, 0x06, 0x00, 0x01, 0x00, 0x01, b'a', 0x01]);
    let p = unsubscribe_request(t, 2).ok().unwrap();
    assert_eq!(p.as_bytes(), &[0xa2, 0x05, 0x00, 0x02, 0x00, 0x01, b'a']);
}

#[test]
fn encodes_connection_request() {
    let p = connect_request("dev", None, None, None).ok().unwrap();
    assert_eq!(
        p.as_bytes(),
        &[0x10, 0x0f, 0x00, 0x04, b'M', b'Q', b'T', b'T', 0x04, 0x02, 0x00, 0x3c, 0x00, 0x03, b'd',
            b'e', b'v']
    );
    let will = LastWill { topic: "t", message: b"x", qos: QoS::AtMostOnce, retain: true };
    let p = connect_request("d", Some(will), Some("u"), Some("p")).ok().unwrap();
    let bytes = p.as_bytes();
    assert_eq!(bytes[0], 0x10);
    // Username, password, will retain and will flags, and a clean session.
    assert_eq!(bytes[9], 0b1110_0110);
}

#[test]
fn packet_identifiers_skip_zero() {
    assert_eq!(pid_for(0), 1);
    assert_eq!(pid_for(41), 42);
    assert_eq!(pid_for(65534), 65535);
    assert_eq!(pid_for(65535), 1);
}

#[test]
fn qos_and_confirmations() {
    assert!(!qos_needs_pid(QoS::AtMostOnce));
    assert!(qos_needs_pid(QoS::AtLeastOnce));
    assert!(qos_needs_pid(QoS::ExactlyOnce));
    assert!(publish_confirmed(ControlMessage::Published(4), 4));
    assert!(!publish_confirmed(ControlMessage::Published(5), 4));
    assert!(!publish_confirmed(ControlMessage::Unsubscribed(4), 4));
}

#[test]
fn subscription_outcomes() {
    let ok = ControlMessage::Subscribed(3, SubscribeReturnCode::Success(QoS::AtLeastOnce));
    assert_eq!(subscribe_outcome(ok, 3), Some(Ok(())));
    assert_eq!(subscribe_outcome(ok, 4), None);
    let refused = ControlMessage::Subscribed(3, SubscribeReturnCode::Failure);
    assert_eq!(subscribe_outcome(refused, 3), Some(Err(Error::IOError)));
    assert_eq!(subscribe_outcome(ControlMessage::Published(3), 3), None);
    assert_eq!(unsubscribe_outcome(ControlMessage::Unsubscribed(3), 3), Some(Ok(())));
    assert_eq!(unsubscribe_outcome(ControlMessage::Unsubscribed(3), 2), None);
    assert_eq!(unsubscribe_outcome(ok, 3), None);
}

#[test]
fn backoff_between_attempts() {
    let mut b = Backoff::new();
    assert_eq!(b.next_wait(), None);
    assert_eq!(b.next_wait(), Some(5000));
    b.connected();
    assert_eq!(b.next_wait(), Some(200));
    assert_eq!(b.next_wait(), Some(5000));
}

#[test]
fn client_requests_are_passed_over_when_they_decode() {
    let (actions, r, _) = process(&[0x82, 0x06, 0x00, 0x01, 0x00, 0x01, b'a', 0x01], false);
    assert_eq!(r, Ok(()));
    assert!(actions.is_empty());
    let (actions, r, _) = process(&[0xa2, 0x05, 0x00, 0x01, 0x00, 0x01, b'a'], false);
    assert_eq!(r, Ok(()));
    assert!(actions.is_empty());
    let connect = connect_request("dev", None, None, None).ok().unwrap();
    let (actions, r, _) = process(connect.as_bytes(), false);
    assert_eq!(r, Ok(()));
    assert!(actions.is_empty());
}

#[test]
fn malformed_client_requests_are_packet_errors() {
    // A subscription with packet identifier 0.
    let (_, r, _) = process(&[0x82, 0x06, 0x00, 0x00, 0x00, 0x01, b'a', 0x01], false);
    assert_eq!(r, Err(Error::PacketError));
    // A subscription whose topic has no QoS byte.
    let (_, r, _) = process(&[0x82, 0x05, 0x00, 0x01, 0x00, 0x01, b'a'], false);
    assert_eq!(r, Err(Error::PacketError));
    // An unsubscription without a packet identifier.
    let (_, r, _) = process(&[0xa2, 0x00], false);
    assert_eq!(r, Err(Error::PacketError));
    // A subscription to a topic longer than a topic string holds.
    let mut long = vec![0x82, 0x86, 0x02, 0x00, 0x01, 0x01, 0x01];
    long.extend(std::iter::repeat(b'x').take(257));
    long.push(0x00);
    let (_, r, _) = process(&long, false);
    assert_eq!(r, Err(Error::PacketError));
    // Connection requests with an unknown protocol, short and long names.
    let (_, r, _) = process(&[0x10, 0x06, 0x00, 0x03, b'A', b'B', b'C', 0x04], false);
    assert_eq!(r, Err(Error::PacketError));
    let mut named = vec![0x10, 0x0e, 0x00, 0x0b];
    named.extend_from_slice(b"ABCDEFGHIJK");
    named.push(0x04);
    let (_, r, _) = process(&named, false);
    assert_eq!(r, Err(Error::PacketError));
}
