//! Fixed-capacity strings from `heapless`, as the library reads and fills them.
use vstd::prelude::*;
use vstd::string::StringSliceAdditionalSpecFns;

verus! {

#[verifier::external_type_specification]
#[verifier::external_body]
pub struct ExHeaplessString<const N: usize>(heapless::String<N>);

/// A fixed length stack allocated string. The length is fixed by the mqttrs crate.
pub type TopicString = heapless::String<256>;

/// A short fixed length string, used for the device type and identifier.
pub type ShortString = heapless::String<32>;

/// The bytes held by a [`TopicString`].
pub uninterp spec fn topic_string_bytes(s: TopicString) -> Seq<u8>;

/// The bytes held by a [`ShortString`].
pub uninterp spec fn short_string_bytes(s: ShortString) -> Seq<u8>;

/// `heapless::String::<256>::new`: an empty string.
#[verifier::external_body]
pub(crate) fn topic_string_new() -> (r: TopicString)
    ensures
        topic_string_bytes(r) == Seq::<u8>::empty(),
{
    heapless::String::new()
}

/// `heapless::String::<256>::push_str`: appends all of `s` when the result fits
/// in 256 bytes, and otherwise leaves the string as it was and fails.
#[verifier::external_body]
pub(crate) fn topic_string_push_str(string: &mut TopicString, s: &str) -> (r: Result<(), ()>)
    ensures
        r is Ok <==> topic_string_bytes(*old(string)).len() + s.spec_bytes().len() <= 256,
        r is Ok ==> topic_string_bytes(*final(string)) == topic_string_bytes(*old(string))
            + s.spec_bytes(),
        r is Err ==> topic_string_bytes(*final(string)) == topic_string_bytes(*old(string)),
{
    string.push_str(s)
}

/// `heapless::String::<256>::as_str`: the string's contents, which never exceed
/// its capacity of 256 bytes.
#[verifier::external_body]
pub(crate) fn topic_string_as_str(string: &TopicString) -> (r: &str)
    ensures
        r.spec_bytes() == topic_string_bytes(*string),
        r.spec_bytes().len() <= 256,
{
    string.as_str()
}

/// `heapless::String::<32>::new`: an empty string.
#[verifier::external_body]
pub(crate) fn short_string_new() -> (r: ShortString)
    ensures
        short_string_bytes(r) == Seq::<u8>::empty(),
{
    heapless::String::new()
}

/// `heapless::String::<32>::push_str`: appends all of `s` when the result fits
/// in 32 bytes, and otherwise leaves the string as it was and fails.
#[verifier::external_body]
pub(crate) fn short_string_push_str(string: &mut ShortString, s: &str) -> (r: Result<(), ()>)
    ensures
        r is Ok <==> short_string_bytes(*old(string)).len() + s.spec_bytes().len() <= 32,
        r is Ok ==> short_string_bytes(*final(string)) == short_string_bytes(*old(string))
            + s.spec_bytes(),
        r is Err ==> short_string_bytes(*final(string)) == short_string_bytes(*old(string)),
{
    string.push_str(s)
}

} // verus!
