//! Configuring the MQTT stack, and the identity of the device it runs on.
use core::str::Utf8Error;
use hex::FromHexError;
use vstd::prelude::*;
use vstd::string::StringSliceAdditionalSpecFns;
use vstd::utf8::{
    is_leading_byte_width_1, partial_valid_utf8, partial_valid_utf8_extend_ascii_block, valid_utf8,
};

use crate::hstring::{
    short_string_bytes, short_string_new, short_string_push_str, ShortString,
};
use crate::topic::Topic;

verus! {

#[verifier::external_type_specification]
#[verifier::external_body]
pub struct ExFromHexError(FromHexError);

#[verifier::external_type_specification]
#[verifier::external_body]
pub struct ExUtf8Error(Utf8Error);

/// The lowercase hexadecimal digit of a number below 16.
pub open spec fn hex_digit(n: u8) -> u8 {
    if n < 10 {
        (48 + n) as u8
    } else {
        (87 + n) as u8
    }
}

/// The lowercase hexadecimal form of some bytes: two digits per byte, the high
/// half first.
pub open spec fn hex_lower(bytes: Seq<u8>) -> Seq<u8> {
    Seq::new(
        (bytes.len() * 2) as nat,
        |i: int|
            if i % 2 == 0 {
                hex_digit(bytes[i / 2] / 16)
            } else {
                hex_digit(bytes[i / 2] % 16)
            },
    )
}

/// `hex::encode_to_slice`: succeeds exactly when `output` is twice as long as
/// `input`, and then fills it with the lowercase hexadecimal form of `input`;
/// on failure `output` is not touched.
#[verifier::external_body]
fn hex_encode_to_slice(input: &[u8], output: &mut [u8]) -> (r: Result<(), FromHexError>)
    ensures
        r is Ok <==> input@.len() * 2 == old(output)@.len(),
        r is Ok ==> final(output)@ == hex_lower(input@),
        r is Err ==> final(output)@ == old(output)@,
{
    hex::encode_to_slice(input, output)
}

/// `core::str::from_utf8`: succeeds exactly on valid UTF-8, with a string of
/// those bytes.
#[verifier::external_body]
pub(crate) fn str_from_utf8(bytes: &[u8]) -> (r: Result<&str, Utf8Error>)
    ensures
        r is Ok <==> valid_utf8(bytes@),
        r matches Ok(s) ==> s.spec_bytes() == bytes@,
{
    core::str::from_utf8(bytes)
}

/// The device type and the unique identifier of the device, as topics and
/// discovery messages use them.
pub struct DeviceIdentity {
    pub device_type: ShortString,
    pub device_id: ShortString,
}

/// The device identifier: the one given, else the lowercase hexadecimal form
/// of the Ethernet address, else empty.
pub open spec fn device_id_of(device_id: Option<Seq<u8>>, mac: Option<Seq<u8>>) -> Seq<u8> {
    match device_id {
        Some(id) => id,
        None => match mac {
            Some(m) => hex_lower(m),
            None => Seq::empty(),
        },
    }
}

/// What the stack is configured with, once the device's identity is set.
pub struct McutieSettings<'t, T, L, const S: usize> {
    pub broker: &'t str,
    pub last_will: Option<L>,
    pub username: Option<&'t str>,
    pub password: Option<&'t str>,
    pub subscriptions: [Topic<T>; S],
}

/// A builder to configure the MQTT stack.
pub struct McutieBuilder<'t, T, L, const S: usize> {
    pub device_type: &'t str,
    pub device_id: Option<&'t str>,
    pub broker: &'t str,
    pub last_will: Option<L>,
    pub username: Option<&'t str>,
    pub password: Option<&'t str>,
    pub subscriptions: [Topic<T>; S],
}

impl<'t, T, L> McutieBuilder<'t, T, L, 0> {
    /// Creates a new builder with the initial required configuration.
    ///
    /// `device_type` is expected to be the same for all devices of the same type.
    /// `broker` may be an IP address or a DNS name for the broker to connect to.
    pub fn new(device_type: &'t str, broker: &'t str) -> (r: Self)
        ensures
            r.device_type == device_type,
            r.broker == broker,
            r.device_id is None,
            r.last_will is None,
            r.username is None,
            r.password is None,
    {
        McutieBuilder {
            device_type,
            broker,
            device_id: None,
            last_will: None,
            username: None,
            password: None,
            subscriptions: [],
        }
    }
}

impl<'t, T, L, const S: usize> McutieBuilder<'t, T, L, S> {
    /// Add some default topics to subscribe to.
    pub fn with_subscriptions<const N: usize>(self, subscriptions: [Topic<T>; N]) -> (r:
        McutieBuilder<'t, T, L, N>)
        ensures
            r.device_type == self.device_type,
            r.broker == self.broker,
            r.device_id == self.device_id,
            r.last_will == self.last_will,
            r.username == self.username,
            r.password == self.password,
            r.subscriptions == subscriptions,
    {
        McutieBuilder {
            device_type: self.device_type,
            broker: self.broker,
            device_id: self.device_id,
            last_will: self.last_will,
            username: self.username,
            password: self.password,
            subscriptions,
        }
    }

    /// Adds authentication for the broker.
    pub fn with_authentication(self, username: &'t str, password: &'t str) -> (r: Self)
        ensures
            r.device_type == self.device_type,
            r.broker == self.broker,
            r.device_id == self.device_id,
            r.last_will == self.last_will,
            r.username == Some(username),
            r.password == Some(password),
            r.subscriptions == self.subscriptions,
    {
        McutieBuilder { username: Some(username), password: Some(password), ..self }
    }

    /// Sets a last will message to be published in the event of disconnection.
    pub fn with_last_will(self, last_will: L) -> (r: Self)
        ensures
            r.device_type == self.device_type,
            r.broker == self.broker,
            r.device_id == self.device_id,
            r.last_will == Some(last_will),
            r.username == self.username,
            r.password == self.password,
            r.subscriptions == self.subscriptions,
    {
        McutieBuilder { last_will: Some(last_will), ..self }
    }

    /// Sets a custom unique device identifier. If none is set then the network
    /// MAC address is used.
    pub fn with_device_id(self, device_id: &'t str) -> (r: Self)
        ensures
            r.device_type == self.device_type,
            r.broker == self.broker,
            r.device_id == Some(device_id),
            r.last_will == self.last_will,
            r.username == self.username,
            r.password == self.password,
            r.subscriptions == self.subscriptions,
    {
        McutieBuilder { device_id: Some(device_id), ..self }
    }

    /// Settles the device's identity and the stack's settings. The device
    /// identifier is the one set, else the hexadecimal form of the network's
    /// Ethernet address `mac` when it has one, else empty.
    pub fn build(self, mac: Option<[u8; 6]>) -> (r: (DeviceIdentity, McutieSettings<'t, T, L, S>))
        requires
            self.device_type.spec_bytes().len() <= 32,
            self.device_id matches Some(id) ==> id.spec_bytes().len() <= 32,
        ensures
            short_string_bytes(r.0.device_type) == self.device_type.spec_bytes(),
            short_string_bytes(r.0.device_id) == device_id_of(
                match self.device_id {
                    Some(id) => Some(id.spec_bytes()),
                    None => None,
                },
                match mac {
                    Some(m) => Some(m@),
                    None => None,
                },
            ),
            r.1.broker == self.broker,
            r.1.last_will == self.last_will,
            r.1.username == self.username,
            r.1.password == self.password,
            r.1.subscriptions == self.subscriptions,
    {
        let mut dtype = short_string_new();
        let _ = short_string_push_str(&mut dtype, self.device_type);
        let mut did = short_string_new();
        match self.device_id {
            Some(device_id) => {
                let _ = short_string_push_str(&mut did, device_id);
            },
            None => match mac {
                Some(address) => {
                    let mut buffer = [0u8; 12];
                    let _ = hex_encode_to_slice(address.as_slice(), &mut buffer);
                    proof {
                        lemma_hex_is_ascii(address@);
                        partial_valid_utf8_extend_ascii_block(buffer@, 0, 12);
                        assert(buffer@.subrange(0, 0) =~= Seq::<u8>::empty());
                        assert(buffer@.subrange(0, 12) =~= buffer@);
                    }
                    match str_from_utf8(buffer.as_slice()) {
                        Ok(s) => {
                            let _ = short_string_push_str(&mut did, s);
                        },
                        Err(_) => {},
                    }
                },
                None => {},
            },
        }
        let identity = DeviceIdentity { device_type: dtype, device_id: did };
        let settings = McutieSettings {
            broker: self.broker,
            last_will: self.last_will,
            username: self.username,
            password: self.password,
            subscriptions: self.subscriptions,
        };
        (identity, settings)
    }
}

/// Hexadecimal digits are ASCII.
proof fn lemma_hex_is_ascii(bytes: Seq<u8>)
    ensures
        forall|i: int| 0 <= i < hex_lower(bytes).len() ==> #[trigger] is_leading_byte_width_1(
            hex_lower(bytes)[i],
        ),
{
}

} // verus!
