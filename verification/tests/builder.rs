use mcutie::builder::McutieBuilder;
use mcutie::network::NetworkError;
use mcutie::{Error, Topic};

type Builder = McutieBuilder<'static, &'static str, (), 0>;

#[test]
fn device_id_from_mac_address() {
    let b: Builder = McutieBuilder::new("sensor", "mqtt.local");
    let (identity, settings) = b.build(Some([0x00, 0x1a, 0x2b, 0xfc, 0xde, 0x09]));
    assert_eq!(identity.device_type.as_str(), "sensor");
    assert_eq!(identity.device_id.as_str(), "001a2bfcde09");
    assert_eq!(settings.broker, "mqtt.local");
    assert!(settings.username.is_none());
}

#[test]
fn device_id_given_wins_over_mac() {
    let b: Builder = McutieBuilder::new("sensor", "broker").with_device_id("kitchen");
    let (identity, _) = b.build(Some([1, 2, 3, 4, 5, 6]));
    assert_eq!(identity.device_id.as_str(), "kitchen");
}

#[test]
fn device_id_empty_without_mac() {
    let b: Builder = McutieBuilder::new("sensor", "broker");
    let (identity, _) = b.build(None);
    assert_eq!(identity.device_id.as_str(), "");
}

#[test]
fn builder_keeps_settings() {
    let b = McutieBuilder::<'static, &'static str, u8, 0>::new("t", "broker")
        .with_authentication("user", "pass")
        .with_last_will(3u8)
        .with_subscriptions([Topic::Device("cmd"), Topic::General("all")]);
    let (_, settings) = b.build(None);
    assert_eq!(settings.username, Some("user"));
    assert_eq!(settings.password, Some("pass"));
    assert_eq!(settings.last_will, Some(3u8));
    assert_eq!(settings.subscriptions.len(), 2);
    assert!(settings.subscriptions[0].eq(&Topic::Device("cmd")));
}

#[test]
fn network_error_messages() {
    assert_eq!(NetworkError::DnsError.message(), "The DNS Lookup failed");
    assert_eq!(NetworkError::HostNotFound.message(), "The host was not found");
    assert_eq!(NetworkError::ConnectionFailed.message(), "tcp connect failed");
}

#[test]
fn errors_compare() {
    assert_eq!(Error::TooLarge, Error::TooLarge);
    assert_ne!(Error::IOError, Error::TimedOut);
}
