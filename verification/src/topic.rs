//! MQTT topics that are optionally prefixed with the device type and unique ID.
use vstd::prelude::*;
use vstd::string::StringSliceAdditionalSpecFns;
use vstd::utf8::is_char_boundary;

use crate::hstring::{
    topic_string_as_str, topic_string_bytes, topic_string_new, topic_string_push_str, TopicString,
};
use crate::Error;

verus! {

/// Something that holds the name of a topic as a string.
pub trait TopicName {
    /// The UTF-8 bytes of the name.
    spec fn name_bytes(&self) -> Seq<u8>;

    /// The name as a string slice.
    fn name_str(&self) -> (r: &str)
        ensures
            r.spec_bytes() == self.name_bytes(),
    ;
}

impl<'a> TopicName for &'a str {
    open spec fn name_bytes(&self) -> Seq<u8> {
        (*self).spec_bytes()
    }

    fn name_str(&self) -> (r: &str) {
        *self
    }
}

impl TopicName for TopicString {
    open spec fn name_bytes(&self) -> Seq<u8> {
        topic_string_bytes(*self)
    }

    fn name_str(&self) -> (r: &str) {
        topic_string_as_str(self)
    }
}

/// An MQTT topic that is optionally prefixed with the device type and unique ID.
/// Normally you will define all your application's topics as consts with static
/// lifetimes.
///
/// A [`Topic`] is the main entry to publishing messages to the broker.
#[derive(Clone, Copy)]
pub enum Topic<T> {
    /// A topic that is prefixed with the device type.
    DeviceType(T),
    /// A topic that is prefixed with the device type and unique ID.
    Device(T),
    /// Any topic.
    General(T),
}

impl<T> Topic<T> {
    /// The name that the topic carries, whatever its kind.
    pub open spec fn name(self) -> T {
        match self {
            Topic::DeviceType(s) => s,
            Topic::Device(s) => s,
            Topic::General(s) => s,
        }
    }
}

impl<T: TopicName> View for Topic<T> {
    type V = Topic<Seq<u8>>;

    open spec fn view(&self) -> Topic<Seq<u8>> {
        match self {
            Topic::DeviceType(s) => Topic::DeviceType(s.name_bytes()),
            Topic::Device(s) => Topic::Device(s.name_bytes()),
            Topic::General(s) => Topic::General(s.name_bytes()),
        }
    }
}

/// The byte of a `/`.
pub open spec fn slash() -> Seq<u8> {
    seq![47u8]
}

/// The pieces that make up a topic's full path, in order.
pub open spec fn topic_pieces(t: Topic<Seq<u8>>, device_type: Seq<u8>, device_id: Seq<u8>) -> Seq<
    Seq<u8>,
> {
    match t {
        Topic::Device(s) => seq![device_type, slash(), device_id, slash(), s],
        Topic::DeviceType(s) => seq![device_type, slash(), s],
        Topic::General(s) => seq![s],
    }
}

/// The full path of a topic: `<device type>/<device id>/<name>` for a device
/// topic, `<device type>/<name>` for a device type topic, the name otherwise.
pub open spec fn topic_path(t: Topic<Seq<u8>>, device_type: Seq<u8>, device_id: Seq<u8>) -> Seq<
    u8,
> {
    match t {
        Topic::Device(s) => device_type + slash() + device_id + slash() + s,
        Topic::DeviceType(s) => device_type + slash() + s,
        Topic::General(s) => s,
    }
}

/// Appends the pieces one by one to `acc` while they fit in a topic string,
/// stopping at the first that does not.
pub open spec fn push_pieces(acc: Seq<u8>, pieces: Seq<Seq<u8>>) -> Seq<u8>
    decreases pieces.len(),
{
    if pieces.len() == 0 {
        acc
    } else if acc.len() + pieces[0].len() <= 256 {
        push_pieces(acc + pieces[0], pieces.drop_first())
    } else {
        acc
    }
}

/// `st` begins with `pr` followed by a `/`; the rest of `st` when it does.
pub open spec fn strip(st: Seq<u8>, pr: Seq<u8>) -> Option<Seq<u8>> {
    if pr.len() < st.len() && st.take(pr.len() as int) == pr && st[pr.len() as int] == 47u8 {
        Some(st.skip(pr.len() + 1int))
    } else {
        None
    }
}

/// Looking for `pr` followed by a `/` at the start of `st` cuts `st` where no
/// character starts: `st` begins with `pr` but has no whole character after it.
pub open spec fn strip_breaks(st: Seq<u8>, pr: Seq<u8>) -> bool {
    &&& pr.len() <= st.len()
    &&& st.take(pr.len() as int) == pr
    &&& !(pr.len() + 1 <= st.len() && is_char_boundary(st, pr.len() as int) && is_char_boundary(
        st,
        pr.len() + 1int,
    ))
}

/// Reading a topic path stops at a cut that is not on a character boundary.
pub open spec fn parse_breaks(st: Seq<u8>, device_type: Seq<u8>, device_id: Seq<u8>) -> bool {
    ||| strip_breaks(st, device_type)
    ||| (strip(st, device_type) matches Some(r) && strip_breaks(r, device_id))
}

/// The topic that a full path stands for: the device type and then the device
/// identifier, each followed by a `/`, are taken off the front where present.
pub open spec fn parse_topic(st: Seq<u8>, device_type: Seq<u8>, device_id: Seq<u8>) -> Topic<
    Seq<u8>,
> {
    match strip(st, device_type) {
        Some(r) => match strip(r, device_id) {
            Some(r2) => Topic::Device(r2),
            None => Topic::DeviceType(r),
        },
        None => Topic::General(st),
    }
}

/// What separates the pieces of a topic path.
pub const SEPARATOR: &'static str = "/";

/// The separator is the single byte of a `/`.
pub proof fn lemma_separator_bytes()
    ensures
        SEPARATOR.spec_bytes() == slash(),
{
    reveal_strlit("/");
    assert(vstd::string::is_ascii(SEPARATOR));
    vstd::string::is_ascii_spec_bytes(SEPARATOR);
    assert(SEPARATOR.spec_bytes() =~= slash());
}

/// Appends `s` to a topic string, failing with [`Error::TooLarge`] when it
/// does not fit.
fn push_piece(result: &mut TopicString, s: &str) -> (r: Result<(), Error>)
    ensures
        r is Ok <==> topic_string_bytes(*old(result)).len() + s.spec_bytes().len() <= 256,
        r is Ok ==> topic_string_bytes(*final(result)) == topic_string_bytes(*old(result))
            + s.spec_bytes(),
        r is Err ==> topic_string_bytes(*final(result)) == topic_string_bytes(*old(result)),
        r matches Err(e) ==> e == Error::TooLarge,
{
    match topic_string_push_str(result, s) {
        Ok(()) => Ok(()),
        Err(()) => Err(Error::TooLarge),
    }
}

/// Whether `st` begins with the bytes of `pr`.
pub fn starts_with(st: &[u8], pr: &[u8]) -> (r: bool)
    ensures
        r == (pr@.len() <= st@.len() && st@.take(pr@.len() as int) == pr@),
{
    if pr.len() > st.len() {
        return false;
    }
    let mut i: usize = 0;
    while i < pr.len()
        invariant
            pr@.len() <= st@.len(),
            i <= pr@.len(),
            st@.take(i as int) == pr@.take(i as int),
        decreases pr@.len() - i,
    {
        if st[i] != pr[i] {
            assert(st@.take(pr@.len() as int)[i as int] != pr@[i as int]);
            return false;
        }
        i = i + 1;
        assert(st@.take(i as int) =~= pr@.take(i as int));
    }
    assert(pr@.take(pr@.len() as int) =~= pr@);
    true
}

/// Whether two byte strings are equal.
pub fn bytes_eq(a: &[u8], b: &[u8]) -> (r: bool)
    ensures
        r == (a@ == b@),
{
    if a.len() != b.len() {
        return false;
    }
    let r = starts_with(a, b);
    proof {
        if a@ == b@ {
            assert(a@.take(b@.len() as int) =~= b@);
        }
        if r {
            assert(a@ =~= a@.take(b@.len() as int));
        }
    }
    r
}

/// Takes `pr` followed by a `/` off the front of `st` where it is there.
fn strip_prefix<'s>(st: &'s str, pr: &str) -> (r: Option<&'s str>)
    requires
        !strip_breaks(st.spec_bytes(), pr.spec_bytes()),
    ensures
        r matches Some(rest) ==> strip(st.spec_bytes(), pr.spec_bytes()) == Some(
            rest.spec_bytes(),
        ),
        r is None ==> strip(st.spec_bytes(), pr.spec_bytes()) is None,
{
    let sb = st.as_bytes();
    let pb = pr.as_bytes();
    if starts_with(sb, pb) && sb[pb.len()] == 47u8 {
        let (_, rest) = st.split_at(pb.len() + 1);
        assert(rest.spec_bytes() =~= st.spec_bytes().skip(pr.spec_bytes().len() + 1int));
        Some(rest)
    } else {
        None
    }
}

impl Topic<TopicString> {
    /// Reads a full topic path back into a topic: the device type and then the
    /// device identifier, each followed by a `/`, are taken off its front where
    /// present. Fails when the rest does not fit in a topic string.
    pub fn from_str(st: &str, device_type: &str, device_id: &str) -> (r: Result<Self, ()>)
        requires
            !parse_breaks(st.spec_bytes(), device_type.spec_bytes(), device_id.spec_bytes()),
        ensures
            r is Ok <==> parse_topic(
                st.spec_bytes(),
                device_type.spec_bytes(),
                device_id.spec_bytes(),
            ).name().len() <= 256,
            r matches Ok(t) ==> t@ == parse_topic(
                st.spec_bytes(),
                device_type.spec_bytes(),
                device_id.spec_bytes(),
            ),
    {
        match strip_prefix(st, device_type) {
            Some(rest) => match strip_prefix(rest, device_id) {
                Some(rest2) => {
                    let mut topic = topic_string_new();
                    match topic_string_push_str(&mut topic, rest2) {
                        Ok(()) => Ok(Topic::Device(topic)),
                        Err(()) => Err(()),
                    }
                },
                None => {
                    let mut topic = topic_string_new();
                    match topic_string_push_str(&mut topic, rest) {
                        Ok(()) => Ok(Topic::DeviceType(topic)),
                        Err(()) => Err(()),
                    }
                },
            },
            None => {
                let mut topic = topic_string_new();
                match topic_string_push_str(&mut topic, st) {
                    Ok(()) => Ok(Topic::General(topic)),
                    Err(()) => Err(()),
                }
            },
        }
    }
}

impl<T: TopicName> Topic<T> {
    /// Writes the full path of this topic after what `result` holds: the device
    /// type and identifier are put in front as the kind of topic asks. Each
    /// piece that fits is appended in turn; when one does not, the call fails
    /// with [`Error::TooLarge`].
    pub fn to_string(&self, result: &mut TopicString, device_type: &str, device_id: &str) -> (r:
        Result<(), Error>)
        ensures
            r is Ok <==> topic_string_bytes(*old(result)).len() + topic_path(
                self@,
                device_type.spec_bytes(),
                device_id.spec_bytes(),
            ).len() <= 256,
            topic_string_bytes(*final(result)) == push_pieces(
                topic_string_bytes(*old(result)),
                topic_pieces(self@, device_type.spec_bytes(), device_id.spec_bytes()),
            ),
            r is Ok ==> topic_string_bytes(*final(result)) == topic_string_bytes(*old(result))
                + topic_path(self@, device_type.spec_bytes(), device_id.spec_bytes()),
            r matches Err(e) ==> e == Error::TooLarge,
    {
        let ghost acc = topic_string_bytes(*result);
        let ghost dt = device_type.spec_bytes();
        let ghost did = device_id.spec_bytes();
        proof {
            lemma_separator_bytes();
            reveal_with_fuel(push_pieces, 6);
        }
        match self {
            Topic::Device(st) => {
                let ghost s = st.name_bytes();
                let ghost pieces = topic_pieces(self@, dt, did);
                assert(pieces.drop_first() =~= seq![slash(), did, slash(), s]);
                assert(pieces.drop_first().drop_first() =~= seq![did, slash(), s]);
                assert(pieces.drop_first().drop_first().drop_first() =~= seq![slash(), s]);
                assert(pieces.drop_first().drop_first().drop_first().drop_first() =~= seq![s]);
                assert(seq![s].drop_first() =~= Seq::<Seq<u8>>::empty());
                assert(acc + dt + slash() + did + slash() + s =~= acc + (dt + slash() + did
                    + slash() + s));
                push_piece(result, device_type)?;
                push_piece(result, SEPARATOR)?;
                push_piece(result, device_id)?;
                push_piece(result, SEPARATOR)?;
                push_piece(result, st.name_str())?;
            },
            Topic::DeviceType(st) => {
                let ghost s = st.name_bytes();
                let ghost pieces = topic_pieces(self@, dt, did);
                assert(pieces.drop_first() =~= seq![slash(), s]);
                assert(pieces.drop_first().drop_first() =~= seq![s]);
                assert(seq![s].drop_first() =~= Seq::<Seq<u8>>::empty());
                assert(acc + dt + slash() + s =~= acc + (dt + slash() + s));
                push_piece(result, device_type)?;
                push_piece(result, SEPARATOR)?;
                push_piece(result, st.name_str())?;
            },
            Topic::General(st) => {
                let ghost s = st.name_bytes();
                assert(seq![s].drop_first() =~= Seq::<Seq<u8>>::empty());
                push_piece(result, st.name_str())?;
            },
        }
        Ok(())
    }

    /// Converts to a topic containing an [`str`]. Particularly useful for
    /// converting from an owned string for match patterns.
    pub fn as_ref(&self) -> (r: Topic<&str>)
        ensures
            r@ == self@,
    {
        match self {
            Topic::DeviceType(st) => Topic::DeviceType(st.name_str()),
            Topic::Device(st) => Topic::Device(st.name_str()),
            Topic::General(st) => Topic::General(st.name_str()),
        }
    }

    /// Whether two topics are of the same kind and carry the same name.
    pub fn eq<U: TopicName>(&self, other: &Topic<U>) -> (r: bool)
        ensures
            r == (self@ == other@),
    {
        match (self, other) {
            (Topic::DeviceType(a), Topic::DeviceType(b)) => bytes_eq(
                a.name_str().as_bytes(),
                b.name_str().as_bytes(),
            ),
            (Topic::Device(a), Topic::Device(b)) => bytes_eq(
                a.name_str().as_bytes(),
                b.name_str().as_bytes(),
            ),
            (Topic::General(a), Topic::General(b)) => bytes_eq(
                a.name_str().as_bytes(),
                b.name_str().as_bytes(),
            ),
            _ => false,
        }
    }
}

/// Writing a topic's full path and reading it back gives the same topic,
/// unless the name of a general topic itself begins with the device type and a
/// `/`, or the name of a device type topic begins with the device identifier
/// and a `/`.
pub proof fn lemma_path_parses_back(t: Topic<Seq<u8>>, device_type: Seq<u8>, device_id: Seq<u8>)
    requires
        t is General ==> strip(t.name(), device_type) is None,
        t is DeviceType ==> strip(t.name(), device_id) is None,
    ensures
        parse_topic(topic_path(t, device_type, device_id), device_type, device_id) == t,
{
    let path = topic_path(t, device_type, device_id);
    let n = device_type.len();
    match t {
        Topic::Device(s) => {
            assert(path.take(n as int) =~= device_type);
            assert(path.skip(n + 1int) =~= device_id + slash() + s);
            let r = path.skip(n + 1int);
            assert(r.take(device_id.len() as int) =~= device_id);
            assert(r.skip(device_id.len() + 1int) =~= s);
        },
        Topic::DeviceType(s) => {
            assert(path.take(n as int) =~= device_type);
            assert(path.skip(n + 1int) =~= s);
        },
        Topic::General(s) => {},
    }
}

/// A topic's full path, when it fits in a topic string.
pub open spec fn path_of(t: Topic<Seq<u8>>, device_type: Seq<u8>, device_id: Seq<u8>) -> Option<
    Seq<u8>,
> {
    if topic_path(t, device_type, device_id).len() <= 256 {
        Some(topic_path(t, device_type, device_id))
    } else {
        None
    }
}

/// Writes a topic's full path into a new topic string, failing with
/// [`Error::TooLarge`] when it does not fit.
pub fn topic_path_string<T: TopicName>(t: &Topic<T>, device_type: &str, device_id: &str) -> (r:
    Result<TopicString, Error>)
    ensures
        r matches Ok(s) ==> path_of(t@, device_type.spec_bytes(), device_id.spec_bytes()) == Some(
            topic_string_bytes(s),
        ),
        r is Err ==> path_of(t@, device_type.spec_bytes(), device_id.spec_bytes()) is None,
        r matches Err(e) ==> e == Error::TooLarge,
{
    let mut s = topic_string_new();
    match t.to_string(&mut s, device_type, device_id) {
        Ok(()) => {
            assert(Seq::<u8>::empty() + topic_path(
                t@,
                device_type.spec_bytes(),
                device_id.spec_bytes(),
            ) =~= topic_path(t@, device_type.spec_bytes(), device_id.spec_bytes()));
            Ok(s)
        },
        Err(e) => Err(e),
    }
}

} // verus!
