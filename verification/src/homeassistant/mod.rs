//! Home Assistant auto-discovery and related messages.
//!
//! Normally you would declare your entities statically in your binary. It is
//! then trivial to send out discovery messages or state changes. The discovery
//! message of an entity is described here as a list of JSON fields; turning
//! that list into JSON text is left to a serializer.
use vstd::prelude::*;
use vstd::string::StringSliceAdditionalSpecFns;

use crate::hstring::{
    topic_string_bytes, topic_string_new, topic_string_push_str, TopicString,
};
use crate::io::{STATE_OFFLINE, STATE_ONLINE};
use crate::topic::{path_of, topic_path, topic_path_string, Topic, TopicName};
use crate::Error;

pub mod binary_sensor;
pub mod light;
pub mod sensor;

verus! {

/// A JSON value of a discovery message.
pub enum Value<'a> {
    /// `null`.
    Null,
    /// `true` or `false`.
    Bool(bool),
    /// A string.
    Str(&'a str),
    /// A string holding a topic's full path.
    Path(TopicString),
    /// An object whose fields all hold strings.
    Object(Vec<(&'static str, &'a str)>),
    /// A list of strings.
    StrList(Vec<&'a str>),
    /// A list of objects, each with one field `topic` that holds a topic's
    /// full path.
    TopicList(Vec<TopicString>),
}

/// A JSON value as plain values; strings are given by their UTF-8 bytes.
pub enum ValueView {
    Null,
    Bool(bool),
    Str(Seq<u8>),
    Path(Seq<u8>),
    Object(Seq<(Seq<u8>, Seq<u8>)>),
    StrList(Seq<Seq<u8>>),
    TopicList(Seq<Seq<u8>>),
}

/// The views of the fields of a string object.
pub open spec fn object_view(v: Seq<(&'static str, &str)>) -> Seq<(Seq<u8>, Seq<u8>)> {
    v.map_values(|p: (&'static str, &str)| (p.0.spec_bytes(), p.1.spec_bytes()))
}

/// The views of a list of strings.
pub open spec fn str_list_view(v: Seq<&str>) -> Seq<Seq<u8>> {
    v.map_values(|s: &str| s.spec_bytes())
}

/// The views of a list of topic strings.
pub open spec fn topic_list_view(v: Seq<TopicString>) -> Seq<Seq<u8>> {
    v.map_values(|s: TopicString| topic_string_bytes(s))
}

impl<'a> View for Value<'a> {
    type V = ValueView;

    open spec fn view(&self) -> ValueView {
        match self {
            Value::Null => ValueView::Null,
            Value::Bool(b) => ValueView::Bool(*b),
            Value::Str(s) => ValueView::Str(s.spec_bytes()),
            Value::Path(p) => ValueView::Path(topic_string_bytes(*p)),
            Value::Object(v) => ValueView::Object(object_view(v@)),
            Value::StrList(v) => ValueView::StrList(str_list_view(v@)),
            Value::TopicList(v) => ValueView::TopicList(topic_list_view(v@)),
        }
    }
}

/// One field of a JSON object: its key and its value.
pub struct Field<'a> {
    pub key: &'static str,
    pub value: Value<'a>,
}

/// The views of a list of fields.
pub open spec fn fields_view(v: Seq<Field>) -> Seq<(Seq<u8>, ValueView)> {
    v.map_values(|f: Field| (f.key.spec_bytes(), f.value@))
}

/// A field as plain values.
pub open spec fn field(key: &'static str, value: ValueView) -> (Seq<u8>, ValueView) {
    (key.spec_bytes(), value)
}

/// A trait representing a specific type of entity in Home Assistant.
pub trait Component {
    /// The name of the entity's platform, as bytes.
    spec fn platform_spec() -> Seq<u8>;

    /// The fields that this component adds to a discovery message; `None`
    /// when one of them cannot be written.
    spec fn fields_spec(&self, device_type: Seq<u8>, device_id: Seq<u8>) -> Option<
        Seq<(Seq<u8>, ValueView)>,
    >;

    /// The name of the entity's platform.
    fn platform() -> (r: &'static str)
        ensures
            r.spec_bytes() == Self::platform_spec(),
    ;

    /// The fields that this component adds to a discovery message.
    fn fields<'a>(&'a self, device_type: &'a str, device_id: &'a str) -> (r: Result<
        Vec<Field<'a>>,
        Error,
    >)
        ensures
            r matches Ok(v) ==> self.fields_spec(device_type.spec_bytes(), device_id.spec_bytes())
                == Some(fields_view(v@)),
            r is Err ==> self.fields_spec(device_type.spec_bytes(), device_id.spec_bytes()) is None,
    ;
}

/// Represents the device in Home Assistant.
///
/// Can just be the default in which case useful properties such as the ID are
/// automatically included.
#[derive(Clone, Copy)]
pub struct Device<'a> {
    pub name: Option<&'a str>,
    pub configuration_url: Option<&'a str>,
}

/// The fields of a device: its name (the device type when it has none), the
/// device identifier and, when set, its configuration URL.
pub open spec fn device_object(
    name: Option<Seq<u8>>,
    configuration_url: Option<Seq<u8>>,
    device_type: Seq<u8>,
    device_id: Seq<u8>,
) -> Seq<(Seq<u8>, Seq<u8>)> {
    let n = match name {
        Some(n) => n,
        None => device_type,
    };
    let base = seq![("name".spec_bytes(), n), ("ids".spec_bytes(), device_id)];
    match configuration_url {
        Some(cu) => base.push(("cu".spec_bytes(), cu)),
        None => base,
    }
}

/// The bytes of an optional string.
pub open spec fn opt_bytes(s: Option<&str>) -> Option<Seq<u8>> {
    match s {
        Some(s) => Some(s.spec_bytes()),
        None => None,
    }
}

impl<'a> Default for Device<'a> {
    fn default() -> (r: Self)
        ensures
            r.name is None,
            r.configuration_url is None,
    {
        Self::new()
    }
}

impl<'a> Device<'a> {
    /// A device with no name and no configuration URL.
    pub fn new() -> (r: Self)
        ensures
            r.name is None,
            r.configuration_url is None,
    {
        Self { name: None, configuration_url: None }
    }

    /// The device as a JSON object.
    pub fn object(&self, device_type: &'a str, device_id: &'a str) -> (r: Vec<(&'static str, &'a str)>)
        ensures
            object_view(r@) == device_object(
                opt_bytes(self.name),
                opt_bytes(self.configuration_url),
                device_type.spec_bytes(),
                device_id.spec_bytes(),
            ),
    {
        let mut v: Vec<(&'static str, &'a str)> = Vec::new();
        let name = match self.name {
            Some(n) => n,
            None => device_type,
        };
        v.push(("name", name));
        v.push(("ids", device_id));
        match self.configuration_url {
            Some(cu) => v.push(("cu", cu)),
            None => {},
        }
        assert(object_view(v@) =~= device_object(
            opt_bytes(self.name),
            opt_bytes(self.configuration_url),
            device_type.spec_bytes(),
            device_id.spec_bytes(),
        ));
        v
    }
}

/// Represents the device's origin in Home Assistant.
///
/// Can just be the default in which case useful properties are automatically
/// included.
#[derive(Clone, Copy)]
pub struct Origin<'a> {
    pub name: Option<&'a str>,
}

impl<'a> Default for Origin<'a> {
    fn default() -> (r: Self)
        ensures
            r.name is None,
    {
        Self::new()
    }
}

impl<'a> Origin<'a> {
    /// An origin with no name.
    pub fn new() -> (r: Self)
        ensures
            r.name is None,
    {
        Self { name: None }
    }

    /// The origin as a JSON object: its name, the device type when it has none.
    pub fn object(&self, device_type: &'a str) -> (r: Vec<(&'static str, &'a str)>)
        ensures
            object_view(r@) == seq![
                (
                    "name".spec_bytes(),
                    match self.name {
                        Some(n) => n.spec_bytes(),
                        None => device_type.spec_bytes(),
                    },
                ),
            ],
    {
        let mut v: Vec<(&'static str, &'a str)> = Vec::new();
        let name = match self.name {
            Some(n) => n,
            None => device_type,
        };
        v.push(("name", name));
        assert(object_view(v@) =~= seq![
            (
                "name".spec_bytes(),
                match self.name {
                    Some(n) => n.spec_bytes(),
                    None => device_type.spec_bytes(),
                },
            ),
        ]);
        v
    }
}

/// A payload representing a device or entity's availability.
#[derive(Clone, Copy, PartialEq, Eq, Structural, Debug)]
pub enum AvailabilityState {
    Online,
    Offline,
}

impl AvailabilityState {
    /// The payload: `online` or `offline`.
    pub fn as_bytes(&self) -> (r: &'static [u8])
        ensures
            r@ == match self {
                AvailabilityState::Online => STATE_ONLINE.spec_bytes(),
                AvailabilityState::Offline => STATE_OFFLINE.spec_bytes(),
            },
    {
        match self {
            AvailabilityState::Online => STATE_ONLINE.as_bytes(),
            AvailabilityState::Offline => STATE_OFFLINE.as_bytes(),
        }
    }
}

/// The availiabity topics that home assistant will use to determine an entity's
/// availability.
pub enum AvailabilityTopics<'a, const A: usize> {
    /// The entity is always available.
    Always,
    /// The entity is available if all of the topics are publishes as online.
    All([Topic<&'a str>; A]),
    /// The entity is available if any of the topics are publishes as online.
    Any([Topic<&'a str>; A]),
    /// The entity is available based on the most recent of the topics to
    /// publish state.
    Latest([Topic<&'a str>; A]),
}

/// The full paths of a list of topics, when all of them fit.
pub open spec fn paths_of(ts: Seq<Topic<Seq<u8>>>, device_type: Seq<u8>, device_id: Seq<u8>) -> Option<
    Seq<Seq<u8>>,
> {
    if forall|i: int| 0 <= i < ts.len() ==> #[trigger] path_of(ts[i], device_type, device_id) is Some {
        Some(ts.map_values(|t: Topic<Seq<u8>>| topic_path(t, device_type, device_id)))
    } else {
        None
    }
}

/// The views of the topics of an availability list.
pub open spec fn topics_view<'a, const A: usize>(ts: [Topic<&'a str>; A]) -> Seq<Topic<Seq<u8>>> {
    ts@.map_values(|t: Topic<&'a str>| t@)
}

/// The availability fields: none for an entity that is always available,
/// otherwise the mode (`all`, `any` or `latest`) and the list of topics.
pub open spec fn availability_fields<'a, const A: usize>(
    a: AvailabilityTopics<'a, A>,
    device_type: Seq<u8>,
    device_id: Seq<u8>,
) -> Option<Seq<(Seq<u8>, ValueView)>> {
    let (mode, ts) = match a {
        AvailabilityTopics::Always => (Seq::<u8>::empty(), Seq::<Topic<Seq<u8>>>::empty()),
        AvailabilityTopics::All(ts) => ("all".spec_bytes(), topics_view(ts)),
        AvailabilityTopics::Any(ts) => ("any".spec_bytes(), topics_view(ts)),
        AvailabilityTopics::Latest(ts) => ("latest".spec_bytes(), topics_view(ts)),
    };
    if a is Always {
        Some(Seq::empty())
    } else {
        match paths_of(ts, device_type, device_id) {
            Some(paths) => Some(
                seq![
                    field("avty_mode", ValueView::Str(mode)),
                    field("avty", ValueView::TopicList(paths)),
                ],
            ),
            None => None,
        }
    }
}

/// Writes the full paths of a list of topics.
fn topic_list<'a, const A: usize>(ts: &[Topic<&'a str>; A], device_type: &str, device_id: &str) -> (r:
    Result<Vec<TopicString>, Error>)
    ensures
        r matches Ok(v) ==> paths_of(topics_view(*ts), device_type.spec_bytes(), device_id.spec_bytes())
            == Some(topic_list_view(v@)),
        r is Err ==> paths_of(topics_view(*ts), device_type.spec_bytes(), device_id.spec_bytes()) is None,
{
    let ghost dt = device_type.spec_bytes();
    let ghost did = device_id.spec_bytes();
    let ghost tv = topics_view(*ts);
    let mut v: Vec<TopicString> = Vec::new();
    let mut i: usize = 0;
    while i < A
        invariant
            i <= A,
            ts@.len() == A,
            tv == topics_view(*ts),
            dt == device_type.spec_bytes(),
            did == device_id.spec_bytes(),
            v@.len() == i,
            forall|k: int| 0 <= k < i ==> path_of(#[trigger] tv[k], dt, did) == Some(
                topic_string_bytes(v@[k]),
            ),
        decreases A - i,
    {
        match topic_path_string(&ts[i], device_type, device_id) {
            Ok(s) => {
                v.push(s);
            },
            Err(e) => {
                assert(path_of(tv[i as int], dt, did) is None);
                return Err(e);
            },
        }
        i = i + 1;
    }
    assert(topic_list_view(v@) =~= tv.map_values(|t: Topic<Seq<u8>>| topic_path(t, dt, did)));
    Ok(v)
}

/// A single entity for Home Assistant.
///
/// Its discovery message lets Home Assistant detect the entity. Read the
/// [Home Assistant MQTT docs](https://www.home-assistant.io/integrations/mqtt/)
/// for information on what some of these properties mean.
pub struct Entity<'a, const A: usize, C: Component> {
    pub device: Device<'a>,
    pub origin: Origin<'a>,
    pub object_id: &'a str,
    pub unique_id: Option<&'a str>,
    pub name: &'a str,
    /// Specifies the availability topics that Home Assistant will listen to to
    /// determine this entity's availability.
    pub availability: AvailabilityTopics<'a, A>,
    /// The state topic that this entity's state is published to.
    pub state_topic: Topic<&'a str>,
    /// The specific entity.
    pub component: C,
}

/// The pieces of the topic that a discovery message goes to:
/// `<prefix>/<platform>/<object id>/config`.
pub open spec fn discovery_topic_bytes(prefix: Seq<u8>, platform: Seq<u8>, object_id: Seq<u8>) -> Seq<
    u8,
> {
    prefix + "/".spec_bytes() + platform + "/".spec_bytes() + object_id + "/config".spec_bytes()
}

impl<'a, const A: usize, C: Component> Entity<'a, A, C> {
    /// The fields of the discovery message, in order: device, origin,
    /// platform, object id, name, state topic, the availability, the unique id
    /// when set, then the component's own; `None` when one cannot be written.
    pub open spec fn discovery_spec(&self, device_type: Seq<u8>, device_id: Seq<u8>) -> Option<
        Seq<(Seq<u8>, ValueView)>,
    > {
        let head = seq![
            field(
                "dev",
                ValueView::Object(
                    device_object(
                        opt_bytes(self.device.name),
                        opt_bytes(self.device.configuration_url),
                        device_type,
                        device_id,
                    ),
                ),
            ),
            field(
                "o",
                ValueView::Object(
                    seq![
                        (
                            "name".spec_bytes(),
                            match self.origin.name {
                                Some(n) => n.spec_bytes(),
                                None => device_type,
                            },
                        ),
                    ],
                ),
            ),
            field("p", ValueView::Str(C::platform_spec())),
            field("obj_id", ValueView::Str(self.object_id.spec_bytes())),
            field("name", ValueView::Str(self.name.spec_bytes())),
        ];
        let unique = match self.unique_id {
            Some(u) => seq![field("uniq_id", ValueView::Str(u.spec_bytes()))],
            None => Seq::empty(),
        };
        match (
            path_of(self.state_topic@, device_type, device_id),
            availability_fields(self.availability, device_type, device_id),
            self.component.fields_spec(device_type, device_id),
        ) {
            (Some(st), Some(av), Some(cf)) => Some(
                head.push(field("stat_t", ValueView::Path(st))) + av + unique + cf,
            ),
            _ => None,
        }
    }

    /// The fields of the discovery message for this entity.
    pub fn discovery_fields(&'a self, device_type: &'a str, device_id: &'a str) -> (r: Result<
        Vec<Field<'a>>,
        Error,
    >)
        ensures
            r matches Ok(v) ==> self.discovery_spec(device_type.spec_bytes(), device_id.spec_bytes())
                == Some(fields_view(v@)),
            r is Err ==> self.discovery_spec(device_type.spec_bytes(), device_id.spec_bytes()) is None,
    {
        let ghost dt = device_type.spec_bytes();
        let ghost did = device_id.spec_bytes();
        let mut v: Vec<Field<'a>> = Vec::new();
        v.push(Field { key: "dev", value: Value::Object(self.device.object(device_type, device_id)) });
        v.push(Field { key: "o", value: Value::Object(self.origin.object(device_type)) });
        v.push(Field { key: "p", value: Value::Str(C::platform()) });
        v.push(Field { key: "obj_id", value: Value::Str(self.object_id) });
        v.push(Field { key: "name", value: Value::Str(self.name) });
        let st = topic_path_string(&self.state_topic, device_type, device_id)?;
        v.push(Field { key: "stat_t", value: Value::Path(st) });
        let ghost head = fields_view(v@);
        match &self.availability {
            AvailabilityTopics::Always => {},
            AvailabilityTopics::All(ts) => {
                let list = topic_list(ts, device_type, device_id)?;
                v.push(Field { key: "avty_mode", value: Value::Str("all") });
                v.push(Field { key: "avty", value: Value::TopicList(list) });
            },
            AvailabilityTopics::Any(ts) => {
                let list = topic_list(ts, device_type, device_id)?;
                v.push(Field { key: "avty_mode", value: Value::Str("any") });
                v.push(Field { key: "avty", value: Value::TopicList(list) });
            },
            AvailabilityTopics::Latest(ts) => {
                let list = topic_list(ts, device_type, device_id)?;
                v.push(Field { key: "avty_mode", value: Value::Str("latest") });
                v.push(Field { key: "avty", value: Value::TopicList(list) });
            },
        }
        let ghost with_avail = fields_view(v@);
        assert(with_avail =~= head + availability_fields(self.availability, dt, did).unwrap());
        match self.unique_id {
            Some(u) => v.push(Field { key: "uniq_id", value: Value::Str(u) }),
            None => {},
        }
        let ghost with_unique = fields_view(v@);
        let mut cf = self.component.fields(device_type, device_id)?;
        let ghost cfv = fields_view(cf@);
        v.append(&mut cf);
        assert(fields_view(v@) =~= with_unique + cfv);
        assert(fields_view(v@) =~= self.discovery_spec(dt, did).unwrap());
        Ok(v)
    }

    /// The topic that this entity's discovery message goes to:
    /// `<prefix>/<platform>/<object id>/config`. Fails with
    /// [`Error::TooLarge`] when it does not fit in a topic string.
    pub fn discovery_topic(&self, prefix: &str) -> (r: Result<TopicString, Error>)
        ensures
            r is Ok <==> discovery_topic_bytes(
                prefix.spec_bytes(),
                C::platform_spec(),
                self.object_id.spec_bytes(),
            ).len() <= 256,
            r matches Ok(t) ==> topic_string_bytes(t) == discovery_topic_bytes(
                prefix.spec_bytes(),
                C::platform_spec(),
                self.object_id.spec_bytes(),
            ),
            r matches Err(e) ==> e == Error::TooLarge,
    {
        let mut topic = topic_string_new();
        let ghost pieces = seq![
            prefix.spec_bytes(),
            "/".spec_bytes(),
            C::platform_spec(),
            "/".spec_bytes(),
            self.object_id.spec_bytes(),
            "/config".spec_bytes(),
        ];
        let ghost whole = discovery_topic_bytes(
            prefix.spec_bytes(),
            C::platform_spec(),
            self.object_id.spec_bytes(),
        );
        assert(whole == Seq::<u8>::empty() + pieces[0] + pieces[1] + pieces[2] + pieces[3]
            + pieces[4] + pieces[5]) by {
            assert(whole =~= Seq::<u8>::empty() + pieces[0] + pieces[1] + pieces[2] + pieces[3]
                + pieces[4] + pieces[5]);
        }
        if topic_string_push_str(&mut topic, prefix).is_err() {
            return Err(Error::TooLarge);
        }
        if topic_string_push_str(&mut topic, "/").is_err() {
            return Err(Error::TooLarge);
        }
        if topic_string_push_str(&mut topic, C::platform()).is_err() {
            return Err(Error::TooLarge);
        }
        if topic_string_push_str(&mut topic, "/").is_err() {
            return Err(Error::TooLarge);
        }
        if topic_string_push_str(&mut topic, self.object_id).is_err() {
            return Err(Error::TooLarge);
        }
        if topic_string_push_str(&mut topic, "/config").is_err() {
            return Err(Error::TooLarge);
        }
        Ok(topic)
    }
}

/// The availability mode an entity's availability writes, if any.
pub open spec fn availability_mode<'a, const A: usize>(a: AvailabilityTopics<'a, A>) -> Option<Seq<u8>> {
    match a {
        AvailabilityTopics::Always => None,
        AvailabilityTopics::All(_) => Some("all".spec_bytes()),
        AvailabilityTopics::Any(_) => Some("any".spec_bytes()),
        AvailabilityTopics::Latest(_) => Some("latest".spec_bytes()),
    }
}

/// A discovery message says what the entity is: it holds the platform of its
/// component, its object id, its name, the full path of its state topic, its
/// availability mode when it has one and its unique id when it has one, each
/// under its key; and it ends with the component's own fields.
pub proof fn lemma_discovery_fields<'a, const A: usize, C: Component>(
    e: Entity<'a, A, C>,
    device_type: Seq<u8>,
    device_id: Seq<u8>,
)
    ensures
        e.discovery_spec(device_type, device_id) matches Some(fs) ==> {
            &&& fs.contains(field("p", ValueView::Str(C::platform_spec())))
            &&& fs.contains(field("obj_id", ValueView::Str(e.object_id.spec_bytes())))
            &&& fs.contains(field("name", ValueView::Str(e.name.spec_bytes())))
            &&& fs.contains(
                field("stat_t", ValueView::Path(topic_path(e.state_topic@, device_type, device_id))),
            )
            &&& (availability_mode(e.availability) matches Some(m) ==> fs.contains(
                field("avty_mode", ValueView::Str(m)),
            ))
            &&& (e.unique_id matches Some(u) ==> fs.contains(
                field("uniq_id", ValueView::Str(u.spec_bytes())),
            ))
            &&& (e.component.fields_spec(device_type, device_id) matches Some(cf) ==> fs.len()
                >= cf.len() && fs.skip(fs.len() - cf.len()) == cf)
        },
{
    match e.discovery_spec(device_type, device_id) {
        Some(fs) => {
            let st = path_of(e.state_topic@, device_type, device_id).unwrap();
            let av = availability_fields(e.availability, device_type, device_id).unwrap();
            let cf = e.component.fields_spec(device_type, device_id).unwrap();
            let unique = match e.unique_id {
                Some(u) => seq![field("uniq_id", ValueView::Str(u.spec_bytes()))],
                None => Seq::empty(),
            };
            let head = seq![
                field(
                    "dev",
                    ValueView::Object(
                        device_object(
                            opt_bytes(e.device.name),
                            opt_bytes(e.device.configuration_url),
                            device_type,
                            device_id,
                        ),
                    ),
                ),
                field(
                    "o",
                    ValueView::Object(
                        seq![
                            (
                                "name".spec_bytes(),
                                match e.origin.name {
                                    Some(n) => n.spec_bytes(),
                                    None => device_type,
                                },
                            ),
                        ],
                    ),
                ),
                field("p", ValueView::Str(C::platform_spec())),
                field("obj_id", ValueView::Str(e.object_id.spec_bytes())),
                field("name", ValueView::Str(e.name.spec_bytes())),
            ].push(field("stat_t", ValueView::Path(st)));
            assert(fs == head + av + unique + cf);
            assert(st == topic_path(e.state_topic@, device_type, device_id));
            assert(fs[2] == head[2]);
            assert(fs[3] == head[3]);
            assert(fs[4] == head[4]);
            assert(fs[5] == head[5]);
            if availability_mode(e.availability) is Some {
                assert(fs[6] == av[0]);
            }
            if e.unique_id is Some {
                assert(fs[6 + av.len() as int] == unique[0]);
            }
            assert(fs.skip(fs.len() - cf.len()) =~= cf);
        },
        None => {},
    }
}

/// A discovery message opens with the device (its name, else the device
/// type; the device identifier; its configuration URL when set) and then the
/// origin (its name, else the device type).
pub proof fn lemma_discovery_device<'a, const A: usize, C: Component>(
    e: Entity<'a, A, C>,
    device_type: Seq<u8>,
    device_id: Seq<u8>,
)
    ensures
        e.discovery_spec(device_type, device_id) matches Some(fs) ==> {
            &&& fs[0].0 == "dev".spec_bytes()
            &&& fs[0].1 matches ValueView::Object(d) && d.contains(
                (
                    "name".spec_bytes(),
                    match e.device.name {
                        Some(n) => n.spec_bytes(),
                        None => device_type,
                    },
                ),
            ) && d.contains(("ids".spec_bytes(), device_id)) && (e.device.configuration_url matches Some(
                u,
            ) ==> d.contains(("cu".spec_bytes(), u.spec_bytes())))
            &&& fs[1].0 == "o".spec_bytes()
            &&& fs[1].1 matches ValueView::Object(o) && o.contains(
                (
                    "name".spec_bytes(),
                    match e.origin.name {
                        Some(n) => n.spec_bytes(),
                        None => device_type,
                    },
                ),
            )
        },
{
    match e.discovery_spec(device_type, device_id) {
        Some(fs) => {
            let d = device_object(
                opt_bytes(e.device.name),
                opt_bytes(e.device.configuration_url),
                device_type,
                device_id,
            );
            let o = seq![
                (
                    "name".spec_bytes(),
                    match e.origin.name {
                        Some(n) => n.spec_bytes(),
                        None => device_type,
                    },
                ),
            ];
            assert(fs[0] == field("dev", ValueView::Object(d)));
            assert(fs[1] == field("o", ValueView::Object(o)));
            assert(d[0].0 == "name".spec_bytes());
            assert(d[1] == ("ids".spec_bytes(), device_id));
            if e.device.configuration_url is Some {
                assert(d[2].0 == "cu".spec_bytes());
            }
            assert(o[0] == o[0]);
        },
        None => {},
    }
}

} // verus!
