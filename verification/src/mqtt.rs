//! The MQTT packets that the library sends and receives, and the calls into
//! `mqttrs` that encode and decode them.
use mqttrs::Connect as MConnect;
use mqttrs::ConnectReturnCode as C;
use mqttrs::LastWill as MLastWill;
use mqttrs::Protocol as MProtocol;
use mqttrs::Error as MqttrsError;
use mqttrs::Packet as P;
use mqttrs::Pid;
use mqttrs::QoS as MQoS;
use mqttrs::QosPid as MQosPid;
use vstd::prelude::*;
use vstd::string::StringSliceAdditionalSpecFns;
use vstd::utf8::valid_utf8;

use crate::hstring::{topic_string_bytes, TopicString};

verus! {

#[verifier::external_type_specification]
#[verifier::external_body]
pub struct ExMqttrsError(MqttrsError);

/// Packet delivery quality of service.
#[derive(Clone, Copy, PartialEq, Eq, Structural, Debug)]
pub enum QoS {
    /// No ack needed.
    AtMostOnce,
    /// One ack needed.
    AtLeastOnce,
    /// Two acks needed.
    ExactlyOnce,
}

/// A quality of service together with the packet identifier it needs.
#[derive(Clone, Copy, PartialEq, Eq, Structural, Debug)]
pub enum QosPid {
    AtMostOnce,
    AtLeastOnce(u16),
    ExactlyOnce(u16),
}

/// The protocol level announced when connecting.
#[derive(Clone, Copy, PartialEq, Eq, Structural, Debug)]
pub enum Protocol {
    MQTT311,
    MQIsdp,
}

/// The broker's answer to a connection request.
#[derive(Clone, Copy, PartialEq, Eq, Structural, Debug)]
pub enum ConnectReturnCode {
    Accepted,
    RefusedProtocolVersion,
    RefusedIdentifierRejected,
    ServerUnavailable,
    BadUsernamePassword,
    NotAuthorized,
}

/// The broker's answer to one topic of a subscription.
#[derive(Clone, Copy, PartialEq, Eq, Structural, Debug)]
pub enum SubscribeReturnCode {
    Success(QoS),
    Failure,
}

/// The last will part of a connect packet, as plain values.
pub struct LastWillView {
    pub topic: Seq<u8>,
    pub message: Seq<u8>,
    pub qos: QoS,
    pub retain: bool,
}

/// An MQTT packet as plain values: strings are given by their UTF-8 bytes.
#[allow(inconsistent_fields)]
pub enum PacketView {
    Connect {
        protocol: Protocol,
        keep_alive: u16,
        client_id: Seq<u8>,
        clean_session: bool,
        last_will: Option<LastWillView>,
        username: Option<Seq<u8>>,
        password: Option<Seq<u8>>,
    },
    Connack { session_present: bool, code: ConnectReturnCode },
    Publish { dup: bool, qospid: QosPid, retain: bool, topic_name: Seq<u8>, payload: Seq<u8> },
    Puback(u16),
    Pubrec(u16),
    Pubrel(u16),
    Pubcomp(u16),
    Subscribe { pid: u16, topics: Seq<(Seq<u8>, QoS)> },
    Suback { pid: u16, return_codes: Seq<SubscribeReturnCode> },
    Unsubscribe { pid: u16, topics: Seq<Seq<u8>> },
    Unsuback(u16),
    Pingreq,
    Pingresp,
    Disconnect,
}

/// What `mqttrs::clone_packet` reports for a byte stream: `Some(0)` while the
/// first packet's fixed header or body is incomplete (whatever its type byte),
/// `None` for a complete packet whose type byte is invalid or whose length runs
/// over four bytes, otherwise the length of the first packet.
pub uninterp spec fn mqtt_frame_len(bytes: Seq<u8>) -> Option<int>;

/// What `mqttrs::decode_slice` makes of one complete packet: `None` when it
/// reports an error.
pub uninterp spec fn mqtt_decode(frame: Seq<u8>) -> Option<PacketView>;

/// The bytes that `mqttrs::encode_slice` writes for a packet: `None` when it
/// refuses the packet whatever the room (a length beyond what MQTT can carry).
pub uninterp spec fn mqtt_encode(packet: PacketView) -> Option<Seq<u8>>;

/// The last will of a connection.
pub struct LastWill<'a> {
    pub topic: &'a str,
    pub message: &'a [u8],
    pub qos: QoS,
    pub retain: bool,
}

impl<'a> View for LastWill<'a> {
    type V = LastWillView;

    open spec fn view(&self) -> LastWillView {
        LastWillView {
            topic: self.topic.spec_bytes(),
            message: self.message@,
            qos: self.qos,
            retain: self.retain,
        }
    }
}

/// A connection request.
pub struct Connect<'a> {
    pub protocol: Protocol,
    pub keep_alive: u16,
    pub client_id: &'a str,
    pub clean_session: bool,
    pub last_will: Option<LastWill<'a>>,
    pub username: Option<&'a str>,
    pub password: Option<&'a [u8]>,
}

impl<'a> View for Connect<'a> {
    type V = PacketView;

    open spec fn view(&self) -> PacketView {
        PacketView::Connect {
            protocol: self.protocol,
            keep_alive: self.keep_alive,
            client_id: self.client_id.spec_bytes(),
            clean_session: self.clean_session,
            last_will: match self.last_will {
                Some(w) => Some(w@),
                None => None,
            },
            username: match self.username {
                Some(u) => Some(u.spec_bytes()),
                None => None,
            },
            password: match self.password {
                Some(p) => Some(p@),
                None => None,
            },
        }
    }
}

/// A published message.
pub struct Publish<'a> {
    pub dup: bool,
    pub qospid: QosPid,
    pub retain: bool,
    pub topic_name: &'a str,
    pub payload: &'a [u8],
}

impl<'a> View for Publish<'a> {
    type V = PacketView;

    open spec fn view(&self) -> PacketView {
        PacketView::Publish {
            dup: self.dup,
            qospid: self.qospid,
            retain: self.retain,
            topic_name: self.topic_name.spec_bytes(),
            payload: self.payload@,
        }
    }
}

/// The packets of a fixed size: the acknowledgements and the pings.
#[derive(Clone, Copy, PartialEq, Eq, Structural, Debug)]
pub enum ShortPacket {
    Puback(u16),
    Pubrec(u16),
    Pubrel(u16),
    Pubcomp(u16),
    Unsuback(u16),
    Pingreq,
    Pingresp,
    Disconnect,
}

impl View for ShortPacket {
    type V = PacketView;

    open spec fn view(&self) -> PacketView {
        match *self {
            ShortPacket::Puback(p) => PacketView::Puback(p),
            ShortPacket::Pubrec(p) => PacketView::Pubrec(p),
            ShortPacket::Pubrel(p) => PacketView::Pubrel(p),
            ShortPacket::Pubcomp(p) => PacketView::Pubcomp(p),
            ShortPacket::Unsuback(p) => PacketView::Unsuback(p),
            ShortPacket::Pingreq => PacketView::Pingreq,
            ShortPacket::Pingresp => PacketView::Pingresp,
            ShortPacket::Disconnect => PacketView::Disconnect,
        }
    }
}

impl ShortPacket {
    /// Every packet identifier it holds is non-zero, as MQTT demands.
    pub open spec fn wf(self) -> bool {
        match self {
            ShortPacket::Puback(p) | ShortPacket::Pubrec(p) | ShortPacket::Pubrel(p)
            | ShortPacket::Pubcomp(p) | ShortPacket::Unsuback(p) => p != 0,
            _ => true,
        }
    }
}

/// Every packet identifier in a quality of service is non-zero.
pub open spec fn qospid_wf(q: QosPid) -> bool {
    match q {
        QosPid::AtMostOnce => true,
        QosPid::AtLeastOnce(p) | QosPid::ExactlyOnce(p) => p != 0,
    }
}

/// A packet that the library sends to the broker.
pub enum OutPacket<'a> {
    Connect(Connect<'a>),
    Publish(Publish<'a>),
    Short(ShortPacket),
    Subscribe { pid: u16, topic_path: TopicString, qos: QoS },
    Unsubscribe { pid: u16, topic_path: TopicString },
}

impl<'a> View for OutPacket<'a> {
    type V = PacketView;

    open spec fn view(&self) -> PacketView {
        match self {
            OutPacket::Connect(c) => c@,
            OutPacket::Publish(p) => p@,
            OutPacket::Short(s) => s@,
            OutPacket::Subscribe { pid, topic_path, qos } => PacketView::Subscribe {
                pid: *pid,
                topics: seq![(topic_string_bytes(*topic_path), *qos)],
            },
            OutPacket::Unsubscribe { pid, topic_path } => PacketView::Unsubscribe {
                pid: *pid,
                topics: seq![topic_string_bytes(*topic_path)],
            },
        }
    }
}

impl<'a> OutPacket<'a> {
    /// Every packet identifier it holds is non-zero, and a connection request
    /// announces MQTT 3.1.1, the protocol whose header `mqttrs` sizes right.
    pub open spec fn wf(&self) -> bool {
        match self {
            OutPacket::Connect(c) => c.protocol == Protocol::MQTT311,
            OutPacket::Publish(p) => qospid_wf(p.qospid),
            OutPacket::Short(s) => s.wf(),
            OutPacket::Subscribe { pid, .. } => *pid != 0,
            OutPacket::Unsubscribe { pid, .. } => *pid != 0,
        }
    }
}

/// What an encoding call did to `buf` at `offset`, given the packet's encoding
/// `encoding` and the call's result `r`: the bytes before `offset` stay, and on
/// success the encoding follows them.
pub open spec fn encoded_into(
    encoding: Option<Seq<u8>>,
    old_buf: Seq<u8>,
    new_buf: Seq<u8>,
    offset: int,
    r: Result<usize, MqttrsError>,
) -> bool {
    &&& new_buf.len() == old_buf.len()
    &&& new_buf.take(offset) == old_buf.take(offset)
    &&& (r is Ok <==> (encoding matches Some(e) && e.len() <= old_buf.len() - offset))
    &&& (r matches Ok(n) ==> (encoding matches Some(e) && n == e.len()
        && new_buf.subrange(offset, offset + n) == e))
}

/// The two bytes of a packet identifier, high byte first.
pub open spec fn pid_bytes(pid: u16) -> Seq<u8> {
    seq![(pid / 256) as u8, (pid % 256) as u8]
}

/// The bytes of a fixed size packet: its type byte, its remaining length (2
/// with a packet identifier, 0 without) and the identifier.
pub open spec fn short_encoding(packet: ShortPacket) -> Seq<u8> {
    match packet {
        ShortPacket::Puback(p) => seq![0x40u8, 2u8] + pid_bytes(p),
        ShortPacket::Pubrec(p) => seq![0x50u8, 2u8] + pid_bytes(p),
        ShortPacket::Pubrel(p) => seq![0x62u8, 2u8] + pid_bytes(p),
        ShortPacket::Pubcomp(p) => seq![0x70u8, 2u8] + pid_bytes(p),
        ShortPacket::Unsuback(p) => seq![0xb0u8, 2u8] + pid_bytes(p),
        ShortPacket::Pingreq => seq![0xc0u8, 0u8],
        ShortPacket::Pingresp => seq![0xd0u8, 0u8],
        ShortPacket::Disconnect => seq![0xe0u8, 0u8],
    }
}

/// `mqttrs::encode_slice` on a fixed size packet, writing at `offset` of `buf`.
/// Claims: the encoding is written there when it fits, and the call fails
/// otherwise; the bytes written are the fixed bytes of [`short_encoding`]; the
/// bytes before `offset` are not touched.
#[verifier::external_body]
pub(crate) fn encode_short<const N: usize>(packet: ShortPacket, buf: &mut [u8; N], offset: usize) -> (r:
    Result<usize, MqttrsError>)
    requires
        offset <= N,
        packet.wf(),
    ensures
        encoded_into(mqtt_encode(packet@), old(buf)@, final(buf)@, offset as int, r),
        r is Ok <==> offset + short_encoding(packet).len() <= N,
        r matches Ok(n) ==> final(buf)@.subrange(offset as int, offset + n) == short_encoding(packet),
{
    let p = |n: u16| Pid::try_from(n).unwrap();
    let packet = match packet {
        ShortPacket::Puback(n) => P::Puback(p(n)),
        ShortPacket::Pubrec(n) => P::Pubrec(p(n)),
        ShortPacket::Pubrel(n) => P::Pubrel(p(n)),
        ShortPacket::Pubcomp(n) => P::Pubcomp(p(n)),
        ShortPacket::Unsuback(n) => P::Unsuback(p(n)),
        ShortPacket::Pingreq => P::Pingreq,
        ShortPacket::Pingresp => P::Pingresp,
        ShortPacket::Disconnect => P::Disconnect,
    };
    mqttrs::encode_slice(&packet, &mut buf[offset..])
}

/// `mqttrs::encode_slice` on a published message, writing at `offset` of `buf`.
/// Claims: the encoding is written there when it fits, and fails otherwise;
/// the bytes before `offset` are not touched.
#[verifier::external_body]
pub(crate) fn encode_publish<const N: usize>(packet: &Publish, buf: &mut [u8; N], offset: usize) -> (r:
    Result<usize, MqttrsError>)
    requires
        offset <= N,
        qospid_wf(packet.qospid),
    ensures
        encoded_into(mqtt_encode(packet@), old(buf)@, final(buf)@, offset as int, r),
{
    let p = |n: u16| Pid::try_from(n).unwrap();
    let qospid = match packet.qospid {
        QosPid::AtMostOnce => MQosPid::AtMostOnce,
        QosPid::AtLeastOnce(n) => MQosPid::AtLeastOnce(p(n)),
        QosPid::ExactlyOnce(n) => MQosPid::ExactlyOnce(p(n)),
    };
    let (dup, retain, topic_name, payload) =
        (packet.dup, packet.retain, packet.topic_name, packet.payload);
    let packet = P::Publish(mqttrs::Publish { dup, qospid, retain, topic_name, payload });
    mqttrs::encode_slice(&packet, &mut buf[offset..])
}

/// `mqttrs::encode_slice` on an MQTT 3.1.1 connection request, writing at
/// `offset` of `buf`. Claims: the encoding is written there when it fits, and
/// fails otherwise; the bytes before `offset` are not touched. (For the older
/// MQIsdp protocol `mqttrs` counts its header two bytes short, so such a
/// request is not admitted.)
#[verifier::external_body]
pub(crate) fn encode_connect<const N: usize>(packet: &Connect, buf: &mut [u8; N], offset: usize) -> (r:
    Result<usize, MqttrsError>)
    requires
        offset <= N,
        packet.protocol == Protocol::MQTT311,
    ensures
        encoded_into(mqtt_encode(packet@), old(buf)@, final(buf)@, offset as int, r),
{
    let Connect { protocol, keep_alive, client_id, clean_session, last_will, username, password } =
        packet;
    let protocol = match protocol {
        Protocol::MQTT311 => MProtocol::MQTT311,
        Protocol::MQIsdp => MProtocol::MQIsdp,
    };
    let last_will = last_will.as_ref().map(|w| MLastWill { topic: w.topic, message: w.message,
        qos: match w.qos {
            QoS::AtMostOnce => MQoS::AtMostOnce,
            QoS::AtLeastOnce => MQoS::AtLeastOnce,
            QoS::ExactlyOnce => MQoS::ExactlyOnce,
        }, retain: w.retain });
    let packet = P::Connect(MConnect { protocol, keep_alive: *keep_alive, client_id,
        clean_session: *clean_session, last_will, username: *username, password: *password });
    mqttrs::encode_slice(&packet, &mut buf[offset..])
}

/// `mqttrs::encode_slice` on a subscription to one topic, writing at `offset`
/// of `buf`. Claims: the encoding is written there when it fits, and fails
/// otherwise; the bytes before `offset` are not touched.
#[verifier::external_body]
pub(crate) fn encode_subscribe<const N: usize>(
    pid: u16,
    topic_path: &TopicString,
    qos: QoS,
    buf: &mut [u8; N],
    offset: usize,
) -> (r: Result<usize, MqttrsError>)
    requires
        offset <= N,
        pid != 0,
    ensures
        encoded_into(
            mqtt_encode(PacketView::Subscribe { pid, topics: seq![(topic_string_bytes(*topic_path), qos)] }),
            old(buf)@,
            final(buf)@,
            offset as int,
            r,
        ),
{
    let qos = match qos {
        QoS::AtMostOnce => MQoS::AtMostOnce,
        QoS::AtLeastOnce => MQoS::AtLeastOnce,
        QoS::ExactlyOnce => MQoS::ExactlyOnce,
    };
    let topic = mqttrs::SubscribeTopic { topic_path: topic_path.clone(), qos };
    let mut topics = heapless::Vec::new();
    let _ = topics.push(topic);
    let packet = P::Subscribe(mqttrs::Subscribe { pid: Pid::try_from(pid).unwrap(), topics });
    mqttrs::encode_slice(&packet, &mut buf[offset..])
}

/// `mqttrs::encode_slice` on an unsubscription from one topic, writing at
/// `offset` of `buf`. Claims: the encoding is written there when it fits, and
/// fails otherwise; the bytes before `offset` are not touched.
#[verifier::external_body]
pub(crate) fn encode_unsubscribe<const N: usize>(
    pid: u16,
    topic_path: &TopicString,
    buf: &mut [u8; N],
    offset: usize,
) -> (r: Result<usize, MqttrsError>)
    requires
        offset <= N,
        pid != 0,
    ensures
        encoded_into(
            mqtt_encode(PacketView::Unsubscribe { pid, topics: seq![topic_string_bytes(*topic_path)] }),
            old(buf)@,
            final(buf)@,
            offset as int,
            r,
        ),
{
    let mut topics = heapless::Vec::new();
    let _ = topics.push(topic_path.clone());
    let packet = P::Unsubscribe(mqttrs::Unsubscribe { pid: Pid::try_from(pid).unwrap(), topics });
    mqttrs::encode_slice(&packet, &mut buf[offset..])
}

/// `mqttrs::clone_packet`, used for the length of the first packet in `input`.
/// Claims: the result is what [`mqtt_frame_len`] names, and a length other than
/// zero covers at least the two header bytes and at most `input`.
#[verifier::external_body]
pub(crate) fn frame_len(input: &[u8], scratch: &mut [u8]) -> (r: Result<usize, MqttrsError>)
    requires
        old(scratch).len() >= input.len(),
    ensures
        final(scratch).len() == old(scratch).len(),
        r matches Ok(n) ==> mqtt_frame_len(input@) == Some(n as int),
        r is Err ==> mqtt_frame_len(input@) is None,
        r matches Ok(n) ==> n == 0 || (2 <= n <= input.len()),
{
    mqttrs::clone_packet(input, scratch)
}

/// The length of the fixed header of a packet: its type byte and the one to
/// four bytes of its remaining length.
pub open spec fn fixed_header_len(frame: Seq<u8>) -> int {
    if frame.len() > 1 && frame[1] < 128 {
        2
    } else if frame.len() > 2 && frame[2] < 128 {
        3
    } else if frame.len() > 3 && frame[3] < 128 {
        4
    } else {
        5
    }
}

/// The length of the string that `mqttrs` reads at `p` of a packet: two
/// length bytes, then that many bytes of valid UTF-8; `None` where it reports
/// an error.
pub open spec fn str_len_at(frame: Seq<u8>, p: int) -> Option<int> {
    if frame.len() - p < 2 {
        None
    } else {
        let len = frame[p] * 256 + frame[p + 1];
        if len > frame.len() - p - 2 {
            None
        } else if !valid_utf8(frame.subrange(p + 2, p + 2 + len)) {
            None
        } else {
            Some(len)
        }
    }
}

/// The bytes `MQTT`.
pub open spec fn mqtt_name() -> Seq<u8> {
    seq![77u8, 81u8, 84u8, 84u8]
}

/// The bytes `MQIsdp`.
pub open spec fn mqisdp_name() -> Seq<u8> {
    seq![77u8, 81u8, 73u8, 115u8, 100u8, 112u8]
}

/// A connection request that `mqttrs` decodes without indexing past its end
/// or overflowing a string: its protocol name is followed by a level byte; a
/// known protocol then has the flags and keep alive bytes, and an unknown one a
/// name of at most 10 bytes (the room its error keeps for the name).
pub open spec fn connect_decodes_safely(frame: Seq<u8>) -> bool {
    let hl = fixed_header_len(frame);
    match str_len_at(frame, hl) {
        None => true,
        Some(len) => {
            let q = hl + 2 + len;
            let name = frame.subrange(hl + 2, q);
            &&& q < frame.len()
            &&& if (name == mqtt_name() && frame[q] == 4) || (name == mqisdp_name() && frame[q] == 3) {
                q + 4 <= frame.len()
            } else {
                len <= 10
            }
        },
    }
}

/// The topics of an unsubscription from `p` on, `count` of them read already,
/// decode without overflowing a topic string of 256 bytes; reading stops at
/// the end, at a string error, or at the sixth topic, which no longer fits.
pub open spec fn unsubscribe_topics_safe(frame: Seq<u8>, p: int, count: nat) -> bool
    decreases frame.len() - p,
{
    if p >= frame.len() {
        true
    } else {
        match str_len_at(frame, p) {
            None => true,
            Some(len) => if len > 256 {
                false
            } else if count >= 5 {
                true
            } else {
                unsubscribe_topics_safe(frame, p + 2 + len, count + 1)
            },
        }
    }
}

/// The topics of a subscription from `p` on, `count` of them read already,
/// decode without overflowing a topic string and each has its QoS byte;
/// reading stops at the end, at a string error, at an invalid QoS, or at the
/// sixth topic.
pub open spec fn subscribe_topics_safe(frame: Seq<u8>, p: int, count: nat) -> bool
    decreases frame.len() - p,
{
    if p >= frame.len() {
        true
    } else {
        match str_len_at(frame, p) {
            None => true,
            Some(len) => {
                let q = p + 2 + len;
                if len > 256 {
                    false
                } else if q >= frame.len() {
                    false
                } else if frame[q] > 2 {
                    true
                } else if count >= 5 {
                    true
                } else {
                    subscribe_topics_safe(frame, q + 1, count + 1)
                }
            },
        }
    }
}

/// A complete packet that `mqttrs::decode_slice` reads without indexing past
/// its end or overflowing a string: the packet types whose fields it reads
/// have the bytes for them, a published message with a packet identifier has
/// room for it after its topic, and connection, subscription and
/// unsubscription requests are as above.
pub open spec fn decodes_safely(frame: Seq<u8>) -> bool {
    let typ = frame[0] / 16;
    let hl = fixed_header_len(frame);
    let body = frame.len() - hl;
    &&& frame.len() > 0
    &&& hl <= frame.len()
    &&& ((typ == 2 || (4 <= typ <= 7) || typ == 9 || typ == 11) ==> body >= 2)
    &&& (typ == 3 ==> ((frame[0] / 2) % 4 == 0 || body < 2 || frame[hl] * 256 + frame[hl + 1] + 2
        > body || frame[hl] * 256 + frame[hl + 1] + 4 <= body))
    &&& (typ == 1 ==> connect_decodes_safely(frame))
    &&& (typ == 8 ==> body >= 2 && subscribe_topics_safe(frame, hl + 2, 0))
    &&& (typ == 10 ==> body >= 2 && unsubscribe_topics_safe(frame, hl + 2, 0))
}

/// `mqttrs::decode_slice` on the first packet of `input`, a connection
/// acknowledgement of `n` bytes.
/// Claims: a result is what [`mqtt_decode`] names; `None` when it does not name
/// a connection acknowledgement.
#[verifier::external_body]
pub(crate) fn decode_connack(input: &[u8], n: usize) -> (r: Option<(bool, ConnectReturnCode)>)
    requires
        mqtt_frame_len(input@) == Some(n as int),
        n <= input.len(),
        decodes_safely(input@.take(n as int)),
    ensures
        r == (match mqtt_decode(input@.take(n as int)) {
            Some(PacketView::Connack { session_present, code }) => Some((session_present, code)),
            _ => None,
        }),
{
    match mqttrs::decode_slice(&input[..n]) {
        Ok(Some(P::Connack(c))) => Some((c.session_present, match c.code {
            C::Accepted => ConnectReturnCode::Accepted,
            C::RefusedProtocolVersion => ConnectReturnCode::RefusedProtocolVersion,
            C::RefusedIdentifierRejected => ConnectReturnCode::RefusedIdentifierRejected,
            C::ServerUnavailable => ConnectReturnCode::ServerUnavailable,
            C::BadUsernamePassword => ConnectReturnCode::BadUsernamePassword,
            C::NotAuthorized => ConnectReturnCode::NotAuthorized,
        })),
        _ => None,
    }
}

/// `mqttrs::decode_slice` on the first packet of `input`, a published message
/// of `n` bytes.
/// Claims: a result is what [`mqtt_decode`] names, and its packet identifier is
/// not zero; `None` when it does not name a published message.
#[verifier::external_body]
pub(crate) fn decode_publish<'a>(input: &'a [u8], n: usize) -> (r: Option<Publish<'a>>)
    requires
        mqtt_frame_len(input@) == Some(n as int),
        n <= input.len(),
        decodes_safely(input@.take(n as int)),
    ensures
        r matches Some(p) ==> mqtt_decode(input@.take(n as int)) == Some(p@),
        r matches Some(p) ==> qospid_wf(p.qospid),
        r is None ==> !(mqtt_decode(input@.take(n as int)) matches Some(PacketView::Publish { .. })),
{
    match mqttrs::decode_slice(&input[..n]) {
        Ok(Some(P::Publish(p))) => Some(Publish { dup: p.dup, qospid: match p.qospid {
            MQosPid::AtMostOnce => QosPid::AtMostOnce,
            MQosPid::AtLeastOnce(n) => QosPid::AtLeastOnce(n.get()),
            MQosPid::ExactlyOnce(n) => QosPid::ExactlyOnce(n.get()),
        }, retain: p.retain, topic_name: p.topic_name, payload: p.payload }),
        _ => None,
    }
}

/// The fixed size packet that a packet view stands for, if it is one.
pub open spec fn short_of(v: Option<PacketView>) -> Option<ShortPacket> {
    match v {
        Some(PacketView::Puback(p)) => Some(ShortPacket::Puback(p)),
        Some(PacketView::Pubrec(p)) => Some(ShortPacket::Pubrec(p)),
        Some(PacketView::Pubrel(p)) => Some(ShortPacket::Pubrel(p)),
        Some(PacketView::Pubcomp(p)) => Some(ShortPacket::Pubcomp(p)),
        Some(PacketView::Unsuback(p)) => Some(ShortPacket::Unsuback(p)),
        Some(PacketView::Pingreq) => Some(ShortPacket::Pingreq),
        Some(PacketView::Pingresp) => Some(ShortPacket::Pingresp),
        Some(PacketView::Disconnect) => Some(ShortPacket::Disconnect),
        _ => None,
    }
}

/// `mqttrs::decode_slice` on the first packet of `input`, a fixed size packet
/// of `n` bytes.
/// Claims: the result is the fixed size packet that [`mqtt_decode`] names, if
/// any; its packet identifiers are not zero, as decoding rejects zero.
#[verifier::external_body]
pub(crate) fn decode_short(input: &[u8], n: usize) -> (r: Option<ShortPacket>)
    requires
        mqtt_frame_len(input@) == Some(n as int),
        n <= input.len(),
        decodes_safely(input@.take(n as int)),
    ensures
        r == short_of(mqtt_decode(input@.take(n as int))),
        r matches Some(s) ==> s.wf(),
{
    let packet = match mqttrs::decode_slice(&input[..n]) {
        Ok(Some(packet)) => packet,
        _ => return None,
    };
    Some(match packet {
        P::Puback(p) => ShortPacket::Puback(p.get()),
        P::Pubrec(p) => ShortPacket::Pubrec(p.get()),
        P::Pubrel(p) => ShortPacket::Pubrel(p.get()),
        P::Pubcomp(p) => ShortPacket::Pubcomp(p.get()),
        P::Unsuback(p) => ShortPacket::Unsuback(p.get()),
        P::Pingreq => ShortPacket::Pingreq,
        P::Pingresp => ShortPacket::Pingresp,
        P::Disconnect => ShortPacket::Disconnect,
        _ => return None,
    })
}

/// `mqttrs::decode_slice` on the first packet of `input`, a subscription
/// acknowledgement of `n` bytes.
/// Claims: a result is what [`mqtt_decode`] names, and its packet identifier is
/// not zero; `None` when it does not name a subscription acknowledgement.
#[verifier::external_body]
pub(crate) fn decode_suback(input: &[u8], n: usize) -> (r: Option<(u16, Vec<SubscribeReturnCode>)>)
    requires
        mqtt_frame_len(input@) == Some(n as int),
        n <= input.len(),
        decodes_safely(input@.take(n as int)),
    ensures
        r matches Some((pid, codes)) ==> mqtt_decode(input@.take(n as int)) == Some(
            PacketView::Suback { pid, return_codes: codes@ },
        ),
        r matches Some((pid, _)) ==> pid != 0,
        r is None ==> !(mqtt_decode(input@.take(n as int)) matches Some(PacketView::Suback { .. })),
{
    let q = |q: MQoS| match q {
        MQoS::AtMostOnce => QoS::AtMostOnce,
        MQoS::AtLeastOnce => QoS::AtLeastOnce,
        MQoS::ExactlyOnce => QoS::ExactlyOnce,
    };
    match mqttrs::decode_slice(&input[..n]) {
        Ok(Some(P::Suback(s))) => Some((s.pid.get(), s.return_codes.iter().map(|c| match c {
            mqttrs::SubscribeReturnCodes::Success(x) => SubscribeReturnCode::Success(q(*x)),
            mqttrs::SubscribeReturnCodes::Failure => SubscribeReturnCode::Failure,
        }).collect())),
        _ => None,
    }
}

/// `mqttrs::decode_slice` on the first packet of `input`, `n` bytes long.
/// Claims: the result is whether [`mqtt_decode`] names a packet for it, that
/// is whether decoding succeeds.
#[verifier::external_body]
pub(crate) fn decodes(input: &[u8], n: usize) -> (r: bool)
    requires
        mqtt_frame_len(input@) == Some(n as int),
        n <= input.len(),
        decodes_safely(input@.take(n as int)),
    ensures
        r == (mqtt_decode(input@.take(n as int)) is Some),
{
    matches!(mqttrs::decode_slice(&input[..n]), Ok(Some(_)))
}

/// `mqttrs::Pid::new() + n`: adding `n` to the first identifier, 1, wraps
/// around and skips 0. Claims that arithmetic, as the `Add` impl in `mqttrs`
/// writes it.
#[verifier::external_body]
pub(crate) fn pid_after_first(n: u16) -> (r: u16)
    ensures
        r == (if n == 65535 {
            1u16
        } else {
            (n + 1) as u16
        }),
{
    (Pid::new() + n).get()
}

} // verus!
