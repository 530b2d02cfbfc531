//! Messages that can be published to the broker.
use vstd::prelude::*;
use vstd::string::StringSliceAdditionalSpecFns;

use crate::hstring::{topic_string_bytes, TopicString};
use crate::mqtt::QoS;
use crate::topic::{push_pieces, topic_path, topic_pieces, Topic, TopicName};
use crate::{Error, Payload};

verus! {

/// A message with a raw byte payload.
pub struct PublishBytes<'a, T> {
    pub topic: &'a Topic<T>,
    pub data: &'a [u8],
    pub qos: QoS,
    pub retain: bool,
}

impl<T> Topic<T> {
    /// Creates a publishable message with a payload of bytes.
    ///
    /// Defaults to non-retained with QoS of 0 (AtMostOnce).
    pub fn with_bytes<'a>(&'a self, data: &'a [u8]) -> (r: PublishBytes<'a, T>)
        ensures
            r.topic == self,
            r.data@ == data@,
            r.qos == QoS::AtMostOnce,
            !r.retain,
    {
        PublishBytes { topic: self, data, qos: QoS::AtMostOnce, retain: false }
    }
}

impl<'a, T: TopicName> PublishBytes<'a, T> {
    /// Sets the QoS level for this message.
    pub fn qos(self, qos: QoS) -> (r: Self)
        ensures
            r.topic == self.topic,
            r.data@ == self.data@,
            r.qos == qos,
            r.retain == self.retain,
    {
        PublishBytes { qos, ..self }
    }

    /// Sets whether the broker should retain this message.
    pub fn retain(self, retain: bool) -> (r: Self)
        ensures
            r.topic == self.topic,
            r.data@ == self.data@,
            r.qos == self.qos,
            r.retain == retain,
    {
        PublishBytes { retain, ..self }
    }

    /// Writes this message's topic into the supplied buffer.
    pub fn write_topic(&self, buffer: &mut TopicString, device_type: &str, device_id: &str) -> (r:
        Result<(), Error>)
        ensures
            r is Ok <==> topic_string_bytes(*old(buffer)).len() + topic_path(
                self.topic@,
                device_type.spec_bytes(),
                device_id.spec_bytes(),
            ).len() <= 256,
            topic_string_bytes(*final(buffer)) == push_pieces(
                topic_string_bytes(*old(buffer)),
                topic_pieces(self.topic@, device_type.spec_bytes(), device_id.spec_bytes()),
            ),
            r is Ok ==> topic_string_bytes(*final(buffer)) == topic_string_bytes(*old(buffer))
                + topic_path(self.topic@, device_type.spec_bytes(), device_id.spec_bytes()),
            r matches Err(e) ==> e == Error::TooLarge,
    {
        self.topic.to_string(buffer, device_type, device_id)
    }

    /// Writes this message's payload into the supplied buffer, failing with
    /// [`Error::TooLarge`] (after writing what fits) when it does not fit.
    pub fn write_payload(&self, buffer: &mut Payload) -> (r: Result<(), Error>)
        ensures
            old(buffer)@.len() + self.data@.len() <= 2048 ==> r is Ok && final(buffer)@ == old(
                buffer,
            )@ + self.data@,
            old(buffer)@.len() + self.data@.len() > 2048 ==> r == Err::<(), Error>(Error::TooLarge)
                && final(buffer)@ == old(buffer)@ + self.data@.take(2048 - old(buffer)@.len()),
    {
        match buffer.write_all(self.data) {
            Ok(()) => Ok(()),
            Err(_) => Err(Error::TooLarge),
        }
    }
}

} // verus!
