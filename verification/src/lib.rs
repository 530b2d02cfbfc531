//! A simple MQTT client for embedded devices, with support for Home
//! Assistant's device auto-discovery. The protocol logic lives here; the
//! networking that drives it is left to the caller.
use vstd::prelude::*;

pub mod buffer;
pub mod builder;
pub mod homeassistant;
pub mod hstring;
pub mod io;
pub mod mqtt;
pub mod network;
pub mod pipe;
pub mod publish;
pub mod queue;
pub mod topic;

pub use crate::buffer::Buffer;
pub use crate::hstring::TopicString;
pub use crate::mqtt::QoS;
pub use crate::network::NetworkError;
pub use crate::publish::PublishBytes;
pub use crate::topic::Topic;
use crate::mqtt::SubscribeReturnCode;

verus! {

/// The length of a topic string. This really needs to match that used by mqttrs.
pub const TOPIC_LENGTH: usize = 256;

/// The length of a payload.
pub const PAYLOAD_LENGTH: usize = 2048;

/// A fixed length buffer of 2048 bytes.
pub type Payload = Buffer<2048>;

/// By default in the event of an error connecting to the broker we will wait for 5s.
pub const DEFAULT_BACKOFF: u64 = 5000;

/// If the connection dropped then re-connect more quickly.
pub const RESET_BACKOFF: u64 = 200;

/// How long to wait for the broker to confirm actions.
pub const CONFIRMATION_TIMEOUT: u64 = 2000;

/// Various errors
#[derive(Clone, Copy, PartialEq, Eq, Structural, Debug)]
pub enum Error {
    /// An IO error occured.
    IOError,
    /// The operation timed out.
    TimedOut,
    /// An attempt was made to encode something too large.
    TooLarge,
    /// A packet or payload could not be decoded or encoded.
    PacketError,
}

/// A message from the MQTT broker.
pub enum MqttMessage {
    /// The broker has been connected to successfully. Generally in response to this message a
    /// device should subscribe to topics of interest and send out any device state.
    Connected,
    /// New data received from the broker.
    Publish(Topic<TopicString>, Payload),
    /// The connection to the broker has been dropped.
    Disconnected,
    /// Home Assistant has come online and you should send any discovery messages.
    HomeAssistantOnline,
}

/// A message from the broker as plain values.
pub enum MessageView {
    Connected,
    Publish(Topic<Seq<u8>>, Seq<u8>),
    Disconnected,
    HomeAssistantOnline,
}

impl View for MqttMessage {
    type V = MessageView;

    open spec fn view(&self) -> MessageView {
        match self {
            MqttMessage::Connected => MessageView::Connected,
            MqttMessage::Publish(t, p) => MessageView::Publish(t@, p@),
            MqttMessage::Disconnected => MessageView::Disconnected,
            MqttMessage::HomeAssistantOnline => MessageView::HomeAssistantOnline,
        }
    }
}

/// The receiving end of the client: where the messages from the broker arrive.
pub struct McutieReceiver;

/// An acknowledgement from the broker, passed on to whoever waits for it.
#[derive(Clone, Copy, PartialEq, Eq, Structural, Debug)]
pub enum ControlMessage {
    /// A message with this packet identifier was published.
    Published(u16),
    /// A subscription with this packet identifier was answered.
    Subscribed(u16, SubscribeReturnCode),
    /// An unsubscription with this packet identifier was answered.
    Unsubscribed(u16),
}

} // verus!
