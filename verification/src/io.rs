//! What the connection does with the bytes it receives from the broker: it
//! splits them into packets, decodes them and decides what each asks for.
use vstd::prelude::*;
use vstd::string::StringSliceAdditionalSpecFns;
use vstd::utf8::is_char_boundary;

use crate::buffer::Buffer;
use crate::builder::str_from_utf8;
use crate::hstring::{topic_string_bytes, TopicString};
use crate::mqtt::{
    pid_after_first, qospid_wf, Connect, LastWill, Protocol, QoS, SubscribeReturnCode,
    decode_connack, decode_publish, decode_short, decode_suback, decodes, decodes_safely,
    str_len_at, connect_decodes_safely, mqtt_name, mqisdp_name, subscribe_topics_safe,
    unsubscribe_topics_safe,
    fixed_header_len, frame_len, mqtt_decode, mqtt_encode, mqtt_frame_len, short_of,
    ConnectReturnCode, OutPacket, PacketView, Publish, QosPid, ShortPacket,
};
use crate::topic::{
    bytes_eq, starts_with, parse_breaks, parse_topic, strip, strip_breaks, Topic, TopicName,
};
use crate::{ControlMessage, Error, MessageView, MqttMessage, Payload};

verus! {

/// The size of the buffer that received bytes are gathered in.
pub const RECEIVE_BUFFER_LENGTH: usize = 4096;

/// The topic on which Home Assistant announces its status.
pub const HA_STATUS_TOPIC_NAME: &'static str = "homeassistant/status";

/// The payload of a topic that reports being online.
pub const STATE_ONLINE: &'static str = "online";

/// The payload of a topic that reports being offline.
pub const STATE_OFFLINE: &'static str = "offline";

/// What the receiving side asks to be done, as plain values.
pub enum ActionView {
    SubscribeHomeAssistant,
    SubscribeConfigured,
    Deliver(MessageView),
    Control(ControlMessage),
    Send(Seq<u8>),
}

/// What the receiving side asks to be done, in order.
pub enum ReceiveAction {
    /// Subscribe to the topic on which Home Assistant announces its status.
    SubscribeHomeAssistant,
    /// Subscribe to the topics configured for the connection.
    SubscribeConfigured,
    /// Hand a message to the application.
    Deliver(MqttMessage),
    /// Tell whoever waits for an acknowledgement.
    Control(ControlMessage),
    /// Send these encoded bytes to the broker.
    Send(Payload),
}

impl View for ReceiveAction {
    type V = ActionView;

    open spec fn view(&self) -> ActionView {
        match self {
            ReceiveAction::SubscribeHomeAssistant => ActionView::SubscribeHomeAssistant,
            ReceiveAction::SubscribeConfigured => ActionView::SubscribeConfigured,
            ReceiveAction::Deliver(m) => ActionView::Deliver(m@),
            ReceiveAction::Control(c) => ActionView::Control(*c),
            ReceiveAction::Send(b) => ActionView::Send(b@),
        }
    }
}

/// The views of a list of actions.
pub open spec fn actions_view(v: Seq<ReceiveAction>) -> Seq<ActionView> {
    v.map_values(|a: ReceiveAction| a@)
}

/// The bytes that go to the broker for a packet: its encoding, when it fits in
/// a payload.
pub open spec fn send_bytes(p: PacketView) -> Option<Seq<u8>> {
    match mqtt_encode(p) {
        Some(e) => if e.len() <= 2048 {
            Some(e)
        } else {
            None
        },
        None => None,
    }
}

/// Sending a packet: one send action, or a packet error when it cannot be
/// encoded.
pub open spec fn send_action(p: PacketView) -> (Seq<ActionView>, Result<(), Error>) {
    match send_bytes(p) {
        Some(e) => (seq![ActionView::Send(e)], Ok(())),
        None => (Seq::empty(), Err(Error::PacketError)),
    }
}

/// Encodes a packet into a payload for sending, failing with
/// [`Error::PacketError`] when it cannot be encoded there.
pub fn encode_for_sending(packet: &OutPacket) -> (r: Result<Payload, Error>)
    requires
        packet.wf(),
    ensures
        r matches Ok(b) ==> send_bytes(packet@) == Some(b@),
        r is Err <==> send_bytes(packet@) is None,
        r matches Err(e) ==> e == Error::PacketError,
{
    let mut buffer = Payload::new();
    match buffer.encode_packet(packet) {
        Ok(()) => {
            assert(Seq::<u8>::empty() + mqtt_encode(packet@).unwrap() =~= mqtt_encode(
                packet@,
            ).unwrap());
            Ok(buffer)
        },
        Err(_) => Err(Error::PacketError),
    }
}

/// What a received message hands to the application: nothing when its topic
/// cannot be read or its topic or payload is too large; a Home Assistant
/// online notice for Home Assistant's status topic when that support is on
/// (and nothing for another status); otherwise the message itself.
pub open spec fn publish_delivery(
    topic_name: Seq<u8>,
    payload: Seq<u8>,
    ha: bool,
    device_type: Seq<u8>,
    device_id: Seq<u8>,
) -> Seq<ActionView> {
    if parse_breaks(topic_name, device_type, device_id) {
        Seq::empty()
    } else {
        let t = parse_topic(topic_name, device_type, device_id);
        if t.name().len() > 256 || payload.len() > 2048 {
            Seq::empty()
        } else if ha && t == Topic::General(HA_STATUS_TOPIC_NAME.spec_bytes()) {
            if payload == STATE_ONLINE.spec_bytes() {
                seq![ActionView::Deliver(MessageView::HomeAssistantOnline)]
            } else {
                Seq::empty()
            }
        } else {
            seq![ActionView::Deliver(MessageView::Publish(t, payload))]
        }
    }
}

/// The acknowledgement that a received message asks for.
pub open spec fn publish_ack(qospid: QosPid) -> Option<PacketView> {
    match qospid {
        QosPid::AtMostOnce => None,
        QosPid::AtLeastOnce(pid) => Some(PacketView::Puback(pid)),
        QosPid::ExactlyOnce(pid) => Some(PacketView::Pubrec(pid)),
    }
}

/// A received message: what it hands to the application, then its
/// acknowledgement.
pub open spec fn handle_publish_spec(
    qospid: QosPid,
    topic_name: Seq<u8>,
    payload: Seq<u8>,
    ha: bool,
    device_type: Seq<u8>,
    device_id: Seq<u8>,
) -> (Seq<ActionView>, Result<(), Error>) {
    let d = publish_delivery(topic_name, payload, ha, device_type, device_id);
    match publish_ack(qospid) {
        None => (d, Ok(())),
        Some(ack) => (d + send_action(ack).0, send_action(ack).1),
    }
}

/// A connection acknowledgement: when accepted, subscribe (to Home Assistant's
/// status first when that support is on, then to the configured topics) and
/// tell the application; otherwise fail with an I/O error.
pub open spec fn handle_connack_spec(code: ConnectReturnCode, ha: bool) -> (
    Seq<ActionView>,
    Result<(), Error>,
) {
    if code == ConnectReturnCode::Accepted {
        if ha {
            (
                seq![
                    ActionView::SubscribeHomeAssistant,
                    ActionView::SubscribeConfigured,
                    ActionView::Deliver(MessageView::Connected),
                ],
                Ok(()),
            )
        } else {
            (
                seq![ActionView::SubscribeConfigured, ActionView::Deliver(MessageView::Connected)],
                Ok(()),
            )
        }
    } else {
        (Seq::empty(), Err(Error::IOError))
    }
}

/// A fixed size packet: acknowledgements are passed on, a publish receipt is
/// answered with a release, and a release with a completion.
pub open spec fn handle_short_spec(s: ShortPacket) -> (Seq<ActionView>, Result<(), Error>) {
    match s {
        ShortPacket::Puback(pid) => (
            seq![ActionView::Control(ControlMessage::Published(pid))],
            Ok(()),
        ),
        ShortPacket::Pubrec(pid) => (
            seq![ActionView::Control(ControlMessage::Published(pid))] + send_action(
                PacketView::Pubrel(pid),
            ).0,
            send_action(PacketView::Pubrel(pid)).1,
        ),
        ShortPacket::Pubrel(pid) => send_action(PacketView::Pubcomp(pid)),
        ShortPacket::Unsuback(pid) => (
            seq![ActionView::Control(ControlMessage::Unsubscribed(pid))],
            Ok(()),
        ),
        _ => (Seq::empty(), Ok(())),
    }
}

/// What one complete packet asks for. Pings and disconnections, which always
/// decode, are passed over; the requests that only a client sends are passed
/// over when they decode. A packet that cannot be decoded safely, or does not
/// decode as its type says, is a packet error.
pub open spec fn handle_frame_spec(
    frame: Seq<u8>,
    ha: bool,
    device_type: Seq<u8>,
    device_id: Seq<u8>,
) -> (Seq<ActionView>, Result<(), Error>) {
    let typ = frame[0] / 16;
    if 12 <= typ <= 14 {
        (Seq::empty(), Ok(()))
    } else if !(1 <= typ <= 11) || !decodes_safely(frame) {
        (Seq::empty(), Err(Error::PacketError))
    } else if typ == 1 || typ == 8 || typ == 10 {
        if mqtt_decode(frame) is Some {
            (Seq::empty(), Ok(()))
        } else {
            (Seq::empty(), Err(Error::PacketError))
        }
    } else if typ == 2 {
        match mqtt_decode(frame) {
            Some(PacketView::Connack { code, .. }) => handle_connack_spec(code, ha),
            _ => (Seq::empty(), Err(Error::PacketError)),
        }
    } else if typ == 3 {
        match mqtt_decode(frame) {
            Some(PacketView::Publish { qospid, topic_name, payload, .. }) => handle_publish_spec(
                qospid,
                topic_name,
                payload,
                ha,
                device_type,
                device_id,
            ),
            _ => (Seq::empty(), Err(Error::PacketError)),
        }
    } else if typ == 9 {
        match mqtt_decode(frame) {
            Some(PacketView::Suback { pid, return_codes }) => if return_codes.len() > 0 {
                (seq![ActionView::Control(ControlMessage::Subscribed(pid, return_codes[0]))], Ok(()))
            } else {
                (Seq::empty(), Ok(()))
            },
            _ => (Seq::empty(), Err(Error::PacketError)),
        }
    } else {
        match short_of(mqtt_decode(frame)) {
            Some(s) => handle_short_spec(s),
            None => (Seq::empty(), Err(Error::PacketError)),
        }
    }
}

/// The actions of `acts` followed by those of a later outcome.
pub open spec fn prepend(acts: Seq<ActionView>, later: (Seq<ActionView>, Seq<u8>, Result<(), Error>)) -> (
    Seq<ActionView>,
    Seq<u8>,
    Result<(), Error>,
) {
    (acts + later.0, later.1, later.2)
}

/// What the received bytes ask for, packet by packet: the actions in order,
/// the bytes of an incomplete packet left at the end, and whether the stream
/// stays usable. The first packet that fails ends the stream.
#[verifier::opaque]
pub open spec fn receive_spec(data: Seq<u8>, ha: bool, device_type: Seq<u8>, device_id: Seq<u8>) -> (
    Seq<ActionView>,
    Seq<u8>,
    Result<(), Error>,
)
    decreases data.len(),
{
    if data.len() == 0 {
        (Seq::empty(), Seq::empty(), Ok(()))
    } else {
        match mqtt_frame_len(data) {
            None => (Seq::empty(), data, Err(Error::PacketError)),
            Some(n) => if n == 0 {
                (Seq::empty(), data, Ok(()))
            } else if 2 <= n <= data.len() {
                let (a, r) = handle_frame_spec(data.take(n), ha, device_type, device_id);
                if r is Err {
                    (a, data.skip(n), r)
                } else {
                    let (a2, rest, r2) = receive_spec(data.skip(n), ha, device_type, device_id);
                    (a + a2, rest, r2)
                }
            } else {
                (Seq::empty(), data, Err(Error::PacketError))
            },
        }
    }
}

/// Receiving nothing asks for nothing.
proof fn lemma_receive_empty(ha: bool, device_type: Seq<u8>, device_id: Seq<u8>)
    ensures
        receive_spec(Seq::empty(), ha, device_type, device_id) == (
            Seq::<ActionView>::empty(),
            Seq::<u8>::empty(),
            Ok::<(), Error>(()),
        ),
{
    reveal(receive_spec);
}

/// One step of [`receive_spec`] on bytes that are not empty.
proof fn lemma_receive_unfold(data: Seq<u8>, ha: bool, device_type: Seq<u8>, device_id: Seq<u8>)
    requires
        data.len() > 0,
    ensures
        mqtt_frame_len(data) is None ==> receive_spec(data, ha, device_type, device_id) == (
            Seq::<ActionView>::empty(),
            data,
            Err::<(), Error>(Error::PacketError),
        ),
        mqtt_frame_len(data) == Some(0int) ==> receive_spec(data, ha, device_type, device_id) == (
            Seq::<ActionView>::empty(),
            data,
            Ok::<(), Error>(()),
        ),
{
    reveal(receive_spec);
}

/// One step of [`receive_spec`] over a complete first packet of `n` bytes.
proof fn lemma_receive_frame(
    data: Seq<u8>,
    n: int,
    ha: bool,
    device_type: Seq<u8>,
    device_id: Seq<u8>,
)
    requires
        mqtt_frame_len(data) == Some(n),
        2 <= n <= data.len(),
    ensures
        ({
            let (a, r) = handle_frame_spec(data.take(n), ha, device_type, device_id);
            &&& r is Err ==> receive_spec(data, ha, device_type, device_id) == (a, data.skip(n), r)
            &&& r is Ok ==> receive_spec(data, ha, device_type, device_id) == prepend(
                a,
                receive_spec(data.skip(n), ha, device_type, device_id),
            )
        }),
{
    reveal(receive_spec);
}

/// The length of the string that `mqttrs` reads at `p` of a packet.
fn str_len(frame: &[u8], p: usize) -> (r: Option<usize>)
    requires
        p <= frame@.len(),
    ensures
        r matches Some(l) ==> str_len_at(frame@, p as int) == Some(l as int),
        r is None ==> str_len_at(frame@, p as int) is None,
{
    if frame.len() - p < 2 {
        return None;
    }
    let len: usize = frame[p] as usize * 256 + frame[p + 1] as usize;
    if len > frame.len() - p - 2 {
        return None;
    }
    let bytes = &frame[p + 2..p + 2 + len];
    assert(bytes@ == frame@.subrange(p + 2, p + 2 + len));
    match str_from_utf8(bytes) {
        Ok(_) => Some(len),
        Err(_) => None,
    }
}

/// Whether a connection request decodes safely.
fn connect_safe(frame: &[u8], hl: usize) -> (r: bool)
    requires
        hl == fixed_header_len(frame@),
        hl <= frame@.len(),
    ensures
        r == connect_decodes_safely(frame@),
{
    match str_len(frame, hl) {
        None => true,
        Some(len) => {
            let q = hl + 2 + len;
            if q >= frame.len() {
                return false;
            }
            let name = &frame[hl + 2..q];
            assert(name@ == frame@.subrange(hl + 2, q as int));
            let mqtt: [u8; 4] = [77, 81, 84, 84];
            let mqisdp: [u8; 6] = [77, 81, 73, 115, 100, 112];
            assert(mqtt@ =~= mqtt_name());
            assert(mqisdp@ =~= mqisdp_name());
            let known = (bytes_eq(name, mqtt.as_slice()) && frame[q] == 4) || (bytes_eq(
                name,
                mqisdp.as_slice(),
            ) && frame[q] == 3);
            if known {
                q + 4 <= frame.len()
            } else {
                len <= 10
            }
        },
    }
}

/// Whether the topics of an unsubscription from `start` on decode safely.
fn unsubscribe_safe(frame: &[u8], start: usize) -> (r: bool)
    requires
        start <= frame@.len(),
    ensures
        r == unsubscribe_topics_safe(frame@, start as int, 0),
{
    let mut p = start;
    let mut count: usize = 0;
    while p < frame.len()
        invariant
            p <= frame@.len(),
            count <= 5,
            unsubscribe_topics_safe(frame@, start as int, 0) == unsubscribe_topics_safe(
                frame@,
                p as int,
                count as nat,
            ),
        decreases frame@.len() - p,
    {
        match str_len(frame, p) {
            None => {
                return true;
            },
            Some(len) => {
                if len > 256 {
                    return false;
                }
                if count >= 5 {
                    return true;
                }
                p = p + 2 + len;
                count = count + 1;
            },
        }
    }
    true
}

/// Whether the topics of a subscription from `start` on decode safely.
fn subscribe_safe(frame: &[u8], start: usize) -> (r: bool)
    requires
        start <= frame@.len(),
    ensures
        r == subscribe_topics_safe(frame@, start as int, 0),
{
    let mut p = start;
    let mut count: usize = 0;
    while p < frame.len()
        invariant
            p <= frame@.len(),
            count <= 5,
            subscribe_topics_safe(frame@, start as int, 0) == subscribe_topics_safe(
                frame@,
                p as int,
                count as nat,
            ),
        decreases frame@.len() - p,
    {
        match str_len(frame, p) {
            None => {
                return true;
            },
            Some(len) => {
                let q = p + 2 + len;
                if len > 256 {
                    return false;
                }
                if q >= frame.len() {
                    return false;
                }
                if frame[q] > 2 {
                    return true;
                }
                if count >= 5 {
                    return true;
                }
                p = q + 1;
                count = count + 1;
            },
        }
    }
    true
}

/// Whether a packet of `frame` can be decoded safely.
fn safe_to_decode(frame: &[u8]) -> (r: bool)
    ensures
        r == decodes_safely(frame@),
{
    if frame.len() == 0 {
        return false;
    }
    let typ = frame[0] / 16;
    let hl: usize = if frame.len() > 1 && frame[1] < 128 {
        2
    } else if frame.len() > 2 && frame[2] < 128 {
        3
    } else if frame.len() > 3 && frame[3] < 128 {
        4
    } else {
        5
    };
    assert(hl == fixed_header_len(frame@));
    if hl > frame.len() {
        return false;
    }
    let body = frame.len() - hl;
    if typ == 1 && !connect_safe(frame, hl) {
        return false;
    }
    if (typ == 8 || typ == 10) && body < 2 {
        return false;
    }
    if typ == 8 && !subscribe_safe(frame, hl + 2) {
        return false;
    }
    if typ == 10 && !unsubscribe_safe(frame, hl + 2) {
        return false;
    }
    if (typ == 2 || (4 <= typ && typ <= 7) || typ == 9 || typ == 11) && body < 2 {
        return false;
    }
    if typ == 3 && (frame[0] / 2) % 4 != 0 && body >= 2 {
        let tl: usize = frame[hl] as usize * 256 + frame[hl + 1] as usize;
        if tl + 2 <= body && tl + 4 > body {
            return false;
        }
    }
    true
}

/// Whether cutting `st` after `pr` and a `/` would fall between the bytes of a
/// character.
fn strip_would_break(st: &str, pr: &str) -> (r: bool)
    ensures
        r == strip_breaks(st.spec_bytes(), pr.spec_bytes()),
{
    let sb = st.as_bytes();
    let pb = pr.as_bytes();
    if !starts_with(sb, pb) {
        return false;
    }
    let n = pb.len();
    !(n < sb.len() && st.is_char_boundary(n) && st.is_char_boundary(n + 1))
}

/// Whether reading `st` as a topic path would cut it between the bytes of a
/// character.
fn topic_parse_breaks(st: &str, device_type: &str, device_id: &str) -> (r: bool)
    ensures
        r == parse_breaks(st.spec_bytes(), device_type.spec_bytes(), device_id.spec_bytes()),
{
    if strip_would_break(st, device_type) {
        return true;
    }
    let sb = st.as_bytes();
    let n = device_type.as_bytes().len();
    if n < sb.len() && crate::topic::bytes_eq(&sb[0..n], device_type.as_bytes()) && sb[n] == 47u8 {
        assert(sb@.subrange(0, n as int) =~= sb@.take(n as int));
        let (_, rest) = st.split_at(n + 1);
        assert(rest.spec_bytes() =~= st.spec_bytes().skip(n + 1int));
        strip_would_break(rest, device_id)
    } else {
        assert(sb@.subrange(0, n as int) =~= sb@.take(n as int));
        false
    }
}

/// A received message: what it hands to the application, then its
/// acknowledgement.
fn handle_publish(p: &Publish, ha: bool, device_type: &str, device_id: &str) -> (r: (
    Vec<ReceiveAction>,
    Result<(), Error>,
))
    requires
        crate::mqtt::qospid_wf(p.qospid),
    ensures
        actions_view(r.0@) == handle_publish_spec(
            p.qospid,
            p.topic_name.spec_bytes(),
            p.payload@,
            ha,
            device_type.spec_bytes(),
            device_id.spec_bytes(),
        ).0,
        r.1 == handle_publish_spec(
            p.qospid,
            p.topic_name.spec_bytes(),
            p.payload@,
            ha,
            device_type.spec_bytes(),
            device_id.spec_bytes(),
        ).1,
{
    let mut actions: Vec<ReceiveAction> = Vec::new();
    if !topic_parse_breaks(p.topic_name, device_type, device_id) {
        let topic = Topic::from_str(p.topic_name, device_type, device_id);
        let payload = Payload::from(p.payload);
        match (topic, payload) {
            (Ok(topic), Ok(payload)) => {
                let status: Topic<&str> = Topic::General(HA_STATUS_TOPIC_NAME);
                if ha && topic.eq(&status) {
                    if bytes_eq(payload.as_bytes(), STATE_ONLINE.as_bytes()) {
                        actions.push(ReceiveAction::Deliver(MqttMessage::HomeAssistantOnline));
                    }
                } else {
                    actions.push(ReceiveAction::Deliver(MqttMessage::Publish(topic, payload)));
                }
            },
            _ => {},
        }
    }
    let ghost delivered = actions_view(actions@);
    assert(delivered == publish_delivery(
        p.topic_name.spec_bytes(),
        p.payload@,
        ha,
        device_type.spec_bytes(),
        device_id.spec_bytes(),
    )) by {
        assert(delivered =~= publish_delivery(
            p.topic_name.spec_bytes(),
            p.payload@,
            ha,
            device_type.spec_bytes(),
            device_id.spec_bytes(),
        ));
    }
    let ack = match p.qospid {
        QosPid::AtMostOnce => None,
        QosPid::AtLeastOnce(pid) => Some(ShortPacket::Puback(pid)),
        QosPid::ExactlyOnce(pid) => Some(ShortPacket::Pubrec(pid)),
    };
    match ack {
        None => (actions, Ok(())),
        Some(ack) => {
            let packet = OutPacket::Short(ack);
            match encode_for_sending(&packet) {
                Ok(bytes) => {
                    actions.push(ReceiveAction::Send(bytes));
                    assert(actions_view(actions@) =~= delivered + seq![ActionView::Send(bytes@)]);
                    (actions, Ok(()))
                },
                Err(e) => (actions, Err(e)),
            }
        },
    }
}

/// A connection acknowledgement.
fn handle_connack(code: ConnectReturnCode, ha: bool) -> (r: (Vec<ReceiveAction>, Result<(), Error>))
    ensures
        actions_view(r.0@) == handle_connack_spec(code, ha).0,
        r.1 == handle_connack_spec(code, ha).1,
{
    let mut actions: Vec<ReceiveAction> = Vec::new();
    match code {
        ConnectReturnCode::Accepted => {
            if ha {
                actions.push(ReceiveAction::SubscribeHomeAssistant);
            }
            actions.push(ReceiveAction::SubscribeConfigured);
            actions.push(ReceiveAction::Deliver(MqttMessage::Connected));
            assert(actions_view(actions@) =~= handle_connack_spec(code, ha).0);
            (actions, Ok(()))
        },
        _ => {
            assert(actions_view(actions@) =~= handle_connack_spec(code, ha).0);
            (actions, Err(Error::IOError))
        },
    }
}

/// A fixed size packet.
fn handle_short(s: ShortPacket) -> (r: (Vec<ReceiveAction>, Result<(), Error>))
    requires
        s.wf(),
    ensures
        actions_view(r.0@) == handle_short_spec(s).0,
        r.1 == handle_short_spec(s).1,
{
    let mut actions: Vec<ReceiveAction> = Vec::new();
    match s {
        ShortPacket::Puback(pid) => {
            actions.push(ReceiveAction::Control(ControlMessage::Published(pid)));
            assert(actions_view(actions@) =~= handle_short_spec(s).0);
            (actions, Ok(()))
        },
        ShortPacket::Pubrec(pid) => {
            actions.push(ReceiveAction::Control(ControlMessage::Published(pid)));
            match encode_for_sending(&OutPacket::Short(ShortPacket::Pubrel(pid))) {
                Ok(bytes) => {
                    actions.push(ReceiveAction::Send(bytes));
                    assert(actions_view(actions@) =~= handle_short_spec(s).0);
                    (actions, Ok(()))
                },
                Err(e) => {
                    assert(actions_view(actions@) =~= handle_short_spec(s).0);
                    (actions, Err(e))
                },
            }
        },
        ShortPacket::Pubrel(pid) => {
            match encode_for_sending(&OutPacket::Short(ShortPacket::Pubcomp(pid))) {
                Ok(bytes) => {
                    actions.push(ReceiveAction::Send(bytes));
                    assert(actions_view(actions@) =~= handle_short_spec(s).0);
                    (actions, Ok(()))
                },
                Err(e) => {
                    assert(actions_view(actions@) =~= handle_short_spec(s).0);
                    (actions, Err(e))
                },
            }
        },
        ShortPacket::Unsuback(pid) => {
            actions.push(ReceiveAction::Control(ControlMessage::Unsubscribed(pid)));
            assert(actions_view(actions@) =~= handle_short_spec(s).0);
            (actions, Ok(()))
        },
        _ => {
            assert(actions_view(actions@) =~= handle_short_spec(s).0);
            (actions, Ok(()))
        },
    }
}

/// The first packet of `input`, which is `n` bytes long.
fn handle_frame(input: &[u8], n: usize, ha: bool, device_type: &str, device_id: &str) -> (r: (
    Vec<ReceiveAction>,
    Result<(), Error>,
))
    requires
        mqtt_frame_len(input@) == Some(n as int),
        2 <= n <= input@.len(),
    ensures
        actions_view(r.0@) == handle_frame_spec(
            input@.take(n as int),
            ha,
            device_type.spec_bytes(),
            device_id.spec_bytes(),
        ).0,
        r.1 == handle_frame_spec(
            input@.take(n as int),
            ha,
            device_type.spec_bytes(),
            device_id.spec_bytes(),
        ).1,
{
    let ghost frame = input@.take(n as int);
    let empty: Vec<ReceiveAction> = Vec::new();
    assert(actions_view(empty@) =~= Seq::<ActionView>::empty());
    let typ = input[0] / 16;
    if 12 <= typ && typ <= 14 {
        return (empty, Ok(()));
    }
    if !(1 <= typ && typ <= 11) {
        return (empty, Err(Error::PacketError));
    }
    let safe = safe_to_decode(&input[0..n]);
    assert(input@.subrange(0, n as int) =~= frame);
    if !safe {
        return (empty, Err(Error::PacketError));
    }
    if typ == 1 || typ == 8 || typ == 10 {
        if decodes(input, n) {
            return (empty, Ok(()));
        } else {
            return (empty, Err(Error::PacketError));
        }
    }
    if typ == 2 {
        match decode_connack(input, n) {
            Some((_, code)) => handle_connack(code, ha),
            None => (empty, Err(Error::PacketError)),
        }
    } else if typ == 3 {
        match decode_publish(input, n) {
            Some(p) => handle_publish(&p, ha, device_type, device_id),
            None => (empty, Err(Error::PacketError)),
        }
    } else if typ == 9 {
        match decode_suback(input, n) {
            Some((pid, codes)) => {
                let mut actions: Vec<ReceiveAction> = Vec::new();
                if codes.len() > 0 {
                    actions.push(ReceiveAction::Control(ControlMessage::Subscribed(pid, codes[0])));
                }
                assert(actions_view(actions@) =~= handle_frame_spec(
                    frame,
                    ha,
                    device_type.spec_bytes(),
                    device_id.spec_bytes(),
                ).0);
                (actions, Ok(()))
            },
            None => (empty, Err(Error::PacketError)),
        }
    } else {
        match decode_short(input, n) {
            Some(s) => handle_short(s),
            None => (empty, Err(Error::PacketError)),
        }
    }
}

/// The bytes received from the broker that have not been handled yet.
pub struct ReceiveBuffer {
    bytes: [u8; 4096],
    cursor: usize,
}

impl View for ReceiveBuffer {
    type V = Seq<u8>;

    closed spec fn view(&self) -> Seq<u8> {
        self.bytes@.take(self.cursor as int)
    }
}

impl ReceiveBuffer {
    #[verifier::type_invariant]
    spec fn inv(&self) -> bool {
        self.cursor <= RECEIVE_BUFFER_LENGTH
    }

    /// An empty buffer.
    pub fn new() -> (r: Self)
        ensures
            r@ == Seq::<u8>::empty(),
    {
        let r = ReceiveBuffer { bytes: [0u8; 4096], cursor: 0 };
        assert(r@ =~= Seq::<u8>::empty());
        r
    }

    /// How many more bytes the buffer takes.
    pub fn free(&self) -> (r: usize)
        ensures
            r == RECEIVE_BUFFER_LENGTH - self@.len(),
    {
        proof {
            use_type_invariant(self);
        }
        RECEIVE_BUFFER_LENGTH - self.cursor
    }

    /// Adds bytes read from the broker.
    pub fn fill(&mut self, data: &[u8])
        requires
            old(self)@.len() + data@.len() <= RECEIVE_BUFFER_LENGTH,
        ensures
            final(self)@ == old(self)@ + data@,
    {
        proof {
            use_type_invariant(&*self);
        }
        let start = self.cursor;
        let ghost before = self.bytes@;
        let mut i: usize = 0;
        while i < data.len()
            invariant
                start + data@.len() <= RECEIVE_BUFFER_LENGTH,
                i <= data@.len(),
                self.cursor == start,
                self.bytes@.len() == RECEIVE_BUFFER_LENGTH,
                self.bytes@.take(start as int) == before.take(start as int),
                self.bytes@.subrange(start as int, start + i) == data@.take(i as int),
            decreases data@.len() - i,
        {
            self.bytes[start + i] = data[i];
            i = i + 1;
            assert(self.bytes@.subrange(start as int, start + i) =~= data@.take(i as int));
            assert(self.bytes@.take(start as int) =~= before.take(start as int));
        }
        self.cursor = start + data.len();
        assert(self@ =~= old(self)@ + data@) by {
            assert(self.bytes@.take(self.cursor as int) =~= self.bytes@.take(start as int)
                + self.bytes@.subrange(start as int, start + data@.len()));
            assert(data@.take(data@.len() as int) =~= data@);
        }
    }

    /// Handles every complete packet received so far, in order, and returns
    /// what they ask for. The bytes of a last incomplete packet are kept for
    /// the next call. The first packet that fails ends the handling; the
    /// buffer is then left as it was.
    pub fn process(&mut self, ha: bool, device_type: &str, device_id: &str) -> (r: (
        Vec<ReceiveAction>,
        Result<(), Error>,
    ))
        ensures
            actions_view(r.0@) == receive_spec(
                old(self)@,
                ha,
                device_type.spec_bytes(),
                device_id.spec_bytes(),
            ).0,
            r.1 == receive_spec(old(self)@, ha, device_type.spec_bytes(), device_id.spec_bytes()).2,
            r.1 is Ok ==> final(self)@ == receive_spec(
                old(self)@,
                ha,
                device_type.spec_bytes(),
                device_id.spec_bytes(),
            ).1,
            r.1 is Err ==> final(self)@ == old(self)@,
    {
        proof {
            use_type_invariant(&*self);
        }
        let ghost data = self@;
        let ghost dt = device_type.spec_bytes();
        let ghost did = device_id.spec_bytes();
        let mut scratch = [0u8; 4096];
        let mut actions: Vec<ReceiveAction> = Vec::new();
        let mut start: usize = 0;
        assert(data.skip(0) =~= data);
        assert(actions_view(actions@) + receive_spec(data, ha, dt, did).0 =~= receive_spec(
            data,
            ha,
            dt,
            did,
        ).0);
        assert(receive_spec(data, ha, dt, did) == prepend(
            actions_view(actions@),
            receive_spec(data.skip(0), ha, dt, did),
        ));
        loop
            invariant_except_break
                self@ == data,
                data == old(self)@,
                dt == device_type.spec_bytes(),
                did == device_id.spec_bytes(),
                self.cursor == data.len(),
                self.cursor <= RECEIVE_BUFFER_LENGTH,
                start <= data.len(),
                receive_spec(data, ha, dt, did) == prepend(
                    actions_view(actions@),
                    receive_spec(data.skip(start as int), ha, dt, did),
                ),
            ensures
                self@ == data,
                self.cursor == data.len(),
                start <= data.len(),
                receive_spec(data, ha, dt, did) == (
                    actions_view(actions@),
                    data.skip(start as int),
                    Ok::<(), Error>(()),
                ),
            decreases data.len() - start,
        {
            let ghost rest_view = data.skip(start as int);
            if start == self.cursor {
                assert(rest_view =~= Seq::<u8>::empty());
                proof {
                    lemma_receive_empty(ha, dt, did);
                }
                assert(actions_view(actions@) + Seq::<ActionView>::empty() =~= actions_view(
                    actions@,
                ));
                break ;
            }
            let all: &[u8] = self.bytes.as_slice();
            let rest: &[u8] = &all[start..self.cursor];
            assert(rest@ =~= rest_view);
            proof {
                lemma_receive_unfold(rest_view, ha, dt, did);
            }
            match frame_len(rest, &mut scratch) {
                Err(_) => {
                    assert(actions_view(actions@) + Seq::<ActionView>::empty() =~= actions_view(
                        actions@,
                    ));
                    return (actions, Err(Error::PacketError));
                },
                Ok(n) => {
                    if n == 0 {
                        assert(actions_view(actions@) + Seq::<ActionView>::empty()
                            =~= actions_view(actions@));
                        break ;
                    }
                    proof {
                        lemma_receive_frame(rest_view, n as int, ha, dt, did);
                    }
                    let (mut acts, res) = handle_frame(rest, n, ha, device_type, device_id);
                    let ghost before = actions_view(actions@);
                    let ghost added = actions_view(acts@);
                    actions.append(&mut acts);
                    assert(actions_view(actions@) =~= before + added);
                    match res {
                        Err(e) => {
                            return (actions, Err(e));
                        },
                        Ok(()) => {
                            assert(rest_view.skip(n as int) =~= data.skip(start + n));
                            assert(before + added + receive_spec(
                                data.skip(start + n),
                                ha,
                                dt,
                                did,
                            ).0 =~= before + (added + receive_spec(
                                data.skip(start + n),
                                ha,
                                dt,
                                did,
                            ).0));
                            start = start + n;
                        },
                    }
                },
            }
        }
        let len = self.cursor - start;
        let ghost before = self.bytes@;
        let mut i: usize = 0;
        while i < len
            invariant
                start + len == self.cursor,
                self.cursor <= RECEIVE_BUFFER_LENGTH,
                before.len() == RECEIVE_BUFFER_LENGTH,
                self.bytes@.len() == RECEIVE_BUFFER_LENGTH,
                i <= len,
                forall|k: int| 0 <= k < i ==> self.bytes@[k] == before[start + k],
                forall|k: int| start + i <= k < self.cursor ==> self.bytes@[k] == before[k],
            decreases len - i,
        {
            let b = self.bytes[start + i];
            self.bytes[i] = b;
            i = i + 1;
        }
        self.cursor = len;
        assert(self@ =~= data.skip(start as int));
        (actions, Ok(()))
    }
}

/// The packet identifier handed out for a counter value: the counter plus
/// one, wrapping around and skipping 0.
pub fn pid_for(counter: u16) -> (r: u16)
    ensures
        r == (if counter == 65535 {
            1u16
        } else {
            (counter + 1) as u16
        }),
        r != 0,
{
    pid_after_first(counter)
}

/// Whether a message published with this quality of service needs a packet
/// identifier, and so an acknowledgement.
pub fn qos_needs_pid(qos: QoS) -> (r: bool)
    ensures
        r == (qos != QoS::AtMostOnce),
{
    match qos {
        QoS::AtMostOnce => false,
        _ => true,
    }
}

/// The quality of service of a published message, with its packet identifier.
pub open spec fn qospid_of(qos: QoS, pid: Option<u16>) -> QosPid {
    match qos {
        QoS::AtMostOnce => QosPid::AtMostOnce,
        QoS::AtLeastOnce => QosPid::AtLeastOnce(pid.unwrap()),
        QoS::ExactlyOnce => QosPid::ExactlyOnce(pid.unwrap()),
    }
}

/// The packet that publishes `payload` on `topic_name`: never a duplicate,
/// with the given quality of service and retain flag.
pub open spec fn publish_view(
    topic_name: Seq<u8>,
    payload: Seq<u8>,
    qos: QoS,
    retain: bool,
    pid: Option<u16>,
) -> PacketView {
    PacketView::Publish {
        dup: false,
        qospid: qospid_of(qos, pid),
        retain,
        topic_name,
        payload,
    }
}

/// The quality of service a packet's QoS and packet identifier field stands for.
pub open spec fn qos_level(q: QosPid) -> QoS {
    match q {
        QosPid::AtMostOnce => QoS::AtMostOnce,
        QosPid::AtLeastOnce(_) => QoS::AtLeastOnce,
        QosPid::ExactlyOnce(_) => QoS::ExactlyOnce,
    }
}

/// The packet identifier a packet's QoS and packet identifier field holds.
pub open spec fn qospid_pid(q: QosPid) -> Option<u16> {
    match q {
        QosPid::AtMostOnce => None,
        QosPid::AtLeastOnce(p) => Some(p),
        QosPid::ExactlyOnce(p) => Some(p),
    }
}

/// The packet that publishes a message carries what the caller gave: read
/// back, its QoS level is the one asked for, its packet identifier is the one
/// handed out, and its topic, payload and retain flag are the arguments; it is
/// never a duplicate.
pub proof fn lemma_publish_packet(
    topic_name: Seq<u8>,
    payload: Seq<u8>,
    qos: QoS,
    retain: bool,
    pid: Option<u16>,
)
    requires
        pid is Some <==> qos != QoS::AtMostOnce,
    ensures
        publish_view(topic_name, payload, qos, retain, pid) matches PacketView::Publish {
            dup,
            qospid,
            retain: r,
            topic_name: t,
            payload: p,
        } && !dup && qos_level(qospid) == qos && qospid_pid(qospid) == pid && r == retain && t
            == topic_name && p == payload,
{
}

/// Encodes the packet that publishes `payload` on `topic_name`, failing with
/// [`Error::PacketError`] when it cannot be encoded into a payload.
pub fn publish_request(
    topic_name: &str,
    payload: &[u8],
    qos: QoS,
    retain: bool,
    pid: Option<u16>,
) -> (r: Result<Payload, Error>)
    requires
        pid is Some <==> qos != QoS::AtMostOnce,
        pid matches Some(p) ==> p != 0,
    ensures
        r matches Ok(b) ==> send_bytes(
            publish_view(topic_name.spec_bytes(), payload@, qos, retain, pid),
        ) == Some(b@),
        r is Err <==> send_bytes(
            publish_view(topic_name.spec_bytes(), payload@, qos, retain, pid),
        ) is None,
        r matches Err(e) ==> e == Error::PacketError,
{
    let qospid = match qos {
        QoS::AtMostOnce => QosPid::AtMostOnce,
        QoS::AtLeastOnce => QosPid::AtLeastOnce(pid.unwrap()),
        QoS::ExactlyOnce => QosPid::ExactlyOnce(pid.unwrap()),
    };
    let packet = OutPacket::Publish(Publish { dup: false, qospid, retain, topic_name, payload });
    encode_for_sending(&packet)
}

/// Whether a control message confirms the publication with this identifier.
pub fn publish_confirmed(message: ControlMessage, expected_pid: u16) -> (r: bool)
    ensures
        r == (message == ControlMessage::Published(expected_pid)),
{
    match message {
        ControlMessage::Published(pid) => pid == expected_pid,
        _ => false,
    }
}

/// What a control message says of the subscription with identifier `pid`:
/// nothing when it is about something else; success when the broker accepted
/// it; an I/O error when it refused it.
pub fn subscribe_outcome(message: ControlMessage, pid: u16) -> (r: Option<Result<(), Error>>)
    ensures
        r == (match message {
            ControlMessage::Subscribed(p, code) => if p == pid {
                if code is Success {
                    Some(Ok::<(), Error>(()))
                } else {
                    Some(Err::<(), Error>(Error::IOError))
                }
            } else {
                None
            },
            _ => None,
        }),
{
    match message {
        ControlMessage::Subscribed(p, code) => if p == pid {
            match code {
                SubscribeReturnCode::Success(_) => Some(Ok(())),
                SubscribeReturnCode::Failure => Some(Err(Error::IOError)),
            }
        } else {
            None
        },
        _ => None,
    }
}

/// What a control message says of the unsubscription with identifier `pid`:
/// success when it is its acknowledgement, otherwise nothing.
pub fn unsubscribe_outcome(message: ControlMessage, pid: u16) -> (r: Option<Result<(), Error>>)
    ensures
        r == (if message == ControlMessage::Unsubscribed(pid) {
            Some(Ok::<(), Error>(()))
        } else {
            None
        }),
{
    match message {
        ControlMessage::Unsubscribed(p) => if p == pid {
            Some(Ok(()))
        } else {
            None
        },
        _ => None,
    }
}

/// Encodes the subscription to one topic path, at least once, failing with
/// [`Error::PacketError`] when it cannot be encoded into a payload.
pub fn subscribe_request(topic_path: TopicString, pid: u16) -> (r: Result<Payload, Error>)
    requires
        pid != 0,
    ensures
        r matches Ok(b) ==> send_bytes(
            PacketView::Subscribe {
                pid,
                topics: seq![(topic_string_bytes(topic_path), QoS::AtLeastOnce)],
            },
        ) == Some(b@),
        r is Err <==> send_bytes(
            PacketView::Subscribe {
                pid,
                topics: seq![(topic_string_bytes(topic_path), QoS::AtLeastOnce)],
            },
        ) is None,
        r matches Err(e) ==> e == Error::PacketError,
{
    encode_for_sending(&OutPacket::Subscribe { pid, topic_path, qos: QoS::AtLeastOnce })
}

/// Encodes the unsubscription from one topic path, failing with
/// [`Error::PacketError`] when it cannot be encoded into a payload.
pub fn unsubscribe_request(topic_path: TopicString, pid: u16) -> (r: Result<Payload, Error>)
    requires
        pid != 0,
    ensures
        r matches Ok(b) ==> send_bytes(
            PacketView::Unsubscribe { pid, topics: seq![topic_string_bytes(topic_path)] },
        ) == Some(b@),
        r is Err <==> send_bytes(
            PacketView::Unsubscribe { pid, topics: seq![topic_string_bytes(topic_path)] },
        ) is None,
        r matches Err(e) ==> e == Error::PacketError,
{
    encode_for_sending(&OutPacket::Unsubscribe { pid, topic_path })
}

/// The time in seconds that the connection may stay silent.
pub const KEEP_ALIVE: u16 = 60;

/// The connection request: MQTT 3.1.1, a clean session, a keep alive of 60
/// seconds, the device identifier as client identifier, the last will and
/// credentials when given.
pub open spec fn connect_view(
    client_id: Seq<u8>,
    last_will: Option<crate::mqtt::LastWillView>,
    username: Option<Seq<u8>>,
    password: Option<Seq<u8>>,
) -> PacketView {
    PacketView::Connect {
        protocol: Protocol::MQTT311,
        keep_alive: 60,
        client_id,
        clean_session: true,
        last_will,
        username,
        password,
    }
}

/// The connection request carries what the caller gave: read back, its client
/// identifier, last will, user name and password are the arguments; it asks
/// for MQTT 3.1.1, a clean session and a keep alive of 60 seconds.
pub proof fn lemma_connect_packet(
    client_id: Seq<u8>,
    last_will: Option<crate::mqtt::LastWillView>,
    username: Option<Seq<u8>>,
    password: Option<Seq<u8>>,
)
    ensures
        connect_view(client_id, last_will, username, password) matches PacketView::Connect {
            protocol,
            keep_alive,
            client_id: c,
            clean_session,
            last_will: w,
            username: u,
            password: p,
        } && protocol == Protocol::MQTT311 && keep_alive == 60 && clean_session && c == client_id
            && w == last_will && u == username && p == password,
{
}

/// Encodes the connection request into a payload, failing with
/// [`Error::PacketError`] when it cannot be encoded there.
pub fn connect_request(
    client_id: &str,
    last_will: Option<LastWill>,
    username: Option<&str>,
    password: Option<&str>,
) -> (r: Result<Payload, Error>)
    ensures
        ({
            let v = connect_view(
                client_id.spec_bytes(),
                match last_will {
                    Some(w) => Some(w@),
                    None => None,
                },
                match username {
                    Some(u) => Some(u.spec_bytes()),
                    None => None,
                },
                match password {
                    Some(p) => Some(p.spec_bytes()),
                    None => None,
                },
            );
            &&& r matches Ok(b) ==> send_bytes(v) == Some(b@)
            &&& r is Err <==> send_bytes(v) is None
        }),
        r matches Err(e) ==> e == Error::PacketError,
{
    let password = match password {
        Some(p) => Some(p.as_bytes()),
        None => None,
    };
    let packet = OutPacket::Connect(
        Connect {
            protocol: Protocol::MQTT311,
            keep_alive: KEEP_ALIVE,
            client_id,
            clean_session: true,
            last_will,
            username,
            password,
        },
    );
    encode_for_sending(&packet)
}

/// How long to wait before each attempt to connect to the broker.
pub struct Backoff {
    pub timeout: Option<u64>,
}

impl Backoff {
    /// Before the first attempt there is no wait.
    pub fn new() -> (r: Self)
        ensures
            r.timeout is None,
    {
        Backoff { timeout: None }
    }

    /// The wait before the next attempt: none for the first, then what the
    /// last outcome set. Until a connection succeeds, later attempts wait the
    /// default backoff.
    pub fn next_wait(&mut self) -> (r: Option<u64>)
        ensures
            r == old(self).timeout,
            final(self).timeout == Some(crate::DEFAULT_BACKOFF),
    {
        let r = self.timeout;
        self.timeout = Some(crate::DEFAULT_BACKOFF);
        r
    }

    /// A connection succeeded: once it drops, reconnect more quickly.
    pub fn connected(&mut self)
        ensures
            final(self).timeout == Some(crate::RESET_BACKOFF),
    {
        self.timeout = Some(crate::RESET_BACKOFF);
    }
}

} // verus!
