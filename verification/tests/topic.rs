use mcutie::topic::{bytes_eq, starts_with, topic_path_string};
use mcutie::{Error, Topic, TopicString};

fn path_of(t: &Topic<&str>) -> TopicString {
    let mut s = TopicString::new();
    t.to_string(&mut s, "sensor", "a1b2").unwrap();
    s
}

#[test]
fn device_topic_path() {
    assert_eq!(path_of(&Topic::Device("motion")).as_str(), "sensor/a1b2/motion");
}

#[test]
fn device_type_topic_path() {
    assert_eq!(path_of(&Topic::DeviceType("cmd")).as_str(), "sensor/cmd");
}

#[test]
fn general_topic_path() {
    assert_eq!(
        path_of(&Topic::General("homeassistant/status")).as_str(),
        "homeassistant/status"
    );
}

#[test]
fn to_string_appends_after_existing_contents() {
    let mut s = TopicString::new();
    s.push_str("x:").unwrap();
    Topic::Device("t").to_string(&mut s, "d", "i").unwrap();
    assert_eq!(s.as_str(), "x:d/i/t");
}

#[test]
fn to_string_too_large_writes_what_fits() {
    let long = "a".repeat(251);
    let mut s = TopicString::new();
    let r = Topic::Device(long.as_str()).to_string(&mut s, "dt", "id");
    assert!(matches!(r, Err(Error::TooLarge)));
    // "dt", "/", "id", "/" fit, the name does not.
    assert_eq!(s.as_str(), "dt/id/");
}

#[test]
fn topic_path_string_fails_when_too_large() {
    let long = "b".repeat(257);
    let t = Topic::General(long.as_str());
    assert!(matches!(topic_path_string(&t, "dt", "id"), Err(Error::TooLarge)));
    let ok = topic_path_string(&Topic::DeviceType("x"), "dt", "id").unwrap();
    assert_eq!(ok.as_str(), "dt/x");
}

#[test]
fn from_str_reads_device_topic() {
    let t = Topic::from_str("sensor/a1b2/motion", "sensor", "a1b2").unwrap();
    match t.as_ref() {
        Topic::Device(s) => assert_eq!(s, "motion"),
        _ => panic!("expected a device topic"),
    }
}

#[test]
fn from_str_reads_device_type_topic() {
    let t = Topic::from_str("sensor/other/motion", "sensor", "a1b2").unwrap();
    match t.as_ref() {
        Topic::DeviceType(s) => assert_eq!(s, "other/motion"),
        _ => panic!("expected a device type topic"),
    }
}

#[test]
fn from_str_reads_general_topic() {
    let t = Topic::from_str("homeassistant/status", "sensor", "a1b2").unwrap();
    match t.as_ref() {
        Topic::General(s) => assert_eq!(s, "homeassistant/status"),
        _ => panic!("expected a general topic"),
    }
    // A prefix without the separator is not taken off.
    let t = Topic::from_str("sensorx", "sensor", "a1b2").unwrap();
    assert!(t.eq(&Topic::General("sensorx")));
}

#[test]
fn path_parses_back_to_same_topic() {
    let topics = [
        Topic::Device("motion/status"),
        Topic::DeviceType("config"),
        Topic::General("other/place"),
    ];
    for t in topics.iter() {
        let p = path_of(t);
        let back = Topic::from_str(p.as_str(), "sensor", "a1b2").unwrap();
        assert!(back.eq(t));
    }
}

#[test]
fn topics_compare_by_kind_and_name() {
    let mut owned = TopicString::new();
    owned.push_str("state").unwrap();
    let a: Topic<TopicString> = Topic::Device(owned);
    assert!(a.eq(&Topic::Device("state")));
    assert!(!a.eq(&Topic::DeviceType("state")));
    assert!(!a.eq(&Topic::Device("stat")));
}

#[test]
fn byte_helpers() {
    assert!(starts_with(b"abc", b"ab"));
    assert!(starts_with(b"abc", b""));
    assert!(!starts_with(b"ab", b"abc"));
    assert!(!starts_with(b"abc", b"ac"));
    assert!(bytes_eq(b"abc", b"abc"));
    assert!(!bytes_eq(b"abc", b"abd"));
    assert!(!bytes_eq(b"abc", b"ab"));
}
