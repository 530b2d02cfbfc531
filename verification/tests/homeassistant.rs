use mcutie::homeassistant::binary_sensor::{BinarySensor, BinarySensorClass, BinarySensorState};
use mcutie::homeassistant::light::{
    Color, ColorFields, Light, LightCommand, LightState, StateValue, SupportedColorMode,
};
use mcutie::homeassistant::sensor::{Sensor, SensorClass, SensorStateClass};
use mcutie::homeassistant::{
    AvailabilityState, AvailabilityTopics, Component, Device, Entity, Field, Origin, Value,
};
use mcutie::{Error, Topic};

fn key_list(fields: &[Field]) -> Vec<&'static str> {
    fields.iter().map(|f| f.key).collect()
}

fn str_value<'a>(fields: &'a [Field], key: &str) -> &'a str {
    match &fields.iter().find(|f| f.key == key).unwrap().value {
        Value::Str(s) => s,
        Value::Path(p) => p.as_str(),
        _ => panic!("not a string field"),
    }
}

fn motion_sensor() -> Entity<'static, 1, BinarySensor> {
    Entity {
    device: Device { name: None, configuration_url: None },
    origin: Origin { name: None },
    object_id: "motion",
    unique_id: Some("motion"),
    name: "Motion",
    availability: AvailabilityTopics::All([Topic::Device("status")]),
    state_topic: Topic::Device("motion/status"),
    component: BinarySensor { device_class: Some(BinarySensorClass::Motion) },
    }
}

#[test]
fn discovery_fields_of_binary_sensor() {
    let sensor = motion_sensor();
    let fields = sensor.discovery_fields("sensor", "a1b2").ok().unwrap();
    assert_eq!(
        key_list(&fields),
        vec![
            "dev", "o", "p", "obj_id", "name", "stat_t", "avty_mode", "avty", "uniq_id",
            "device_class"
        ]
    );
    assert_eq!(str_value(&fields, "p"), "binary_sensor");
    assert_eq!(str_value(&fields, "obj_id"), "motion");
    assert_eq!(str_value(&fields, "stat_t"), "sensor/a1b2/motion/status");
    assert_eq!(str_value(&fields, "avty_mode"), "all");
    assert_eq!(str_value(&fields, "device_class"), "motion");
    match &fields[0].value {
        Value::Object(o) => assert_eq!(o, &vec![("name", "sensor"), ("ids", "a1b2")]),
        _ => panic!("device should be an object"),
    }
    match &fields[1].value {
        Value::Object(o) => assert_eq!(o, &vec![("name", "sensor")]),
        _ => panic!("origin should be an object"),
    }
    match &fields[7].value {
        Value::TopicList(l) => {
            assert_eq!(l.len(), 1);
            assert_eq!(l[0].as_str(), "sensor/a1b2/status");
        }
        _ => panic!("availability should be a list of topics"),
    }
}

#[test]
fn discovery_topic_of_entity() {
    let sensor = motion_sensor();
    let t = sensor.discovery_topic("homeassistant").unwrap();
    assert_eq!(t.as_str(), "homeassistant/binary_sensor/motion/config");
    let long = "p".repeat(250);
    assert!(matches!(sensor.discovery_topic(&long), Err(Error::TooLarge)));
}

#[test]
fn always_available_entity_has_no_availability_fields() {
    let e: Entity<'static, 0, Sensor> = Entity {
        device: Device { name: Some("Kitchen"), configuration_url: Some("http://x") },
        origin: Origin { name: Some("app") },
        object_id: "temp",
        unique_id: None,
        name: "Temperature",
        availability: AvailabilityTopics::Always,
        state_topic: Topic::General("kitchen/temp"),
        component: Sensor {
            device_class: Some(SensorClass::Temperature),
            state_class: Some(SensorStateClass::Measurement),
            unit_of_measurement: Some("°C"),
        },
    };
    let fields = e.discovery_fields("dt", "id").ok().unwrap();
    assert_eq!(
        key_list(&fields),
        vec![
            "dev", "o", "p", "obj_id", "name", "stat_t", "device_class", "state_class",
            "unit_of_measurement"
        ]
    );
    match &fields[0].value {
        Value::Object(o) => {
            assert_eq!(o, &vec![("name", "Kitchen"), ("ids", "id"), ("cu", "http://x")])
        }
        _ => panic!("device should be an object"),
    }
    assert_eq!(str_value(&fields, "stat_t"), "kitchen/temp");
    assert_eq!(str_value(&fields, "state_class"), "measurement");
    assert_eq!(str_value(&fields, "unit_of_measurement"), "°C");
}

#[test]
fn discovery_fails_when_a_topic_is_too_large() {
    let long = "s".repeat(300);
    let e: Entity<'_, 0, BinarySensor> = Entity {
        device: Device::new(),
        origin: Origin::new(),
        object_id: "x",
        unique_id: None,
        name: "X",
        availability: AvailabilityTopics::Always,
        state_topic: Topic::General(long.as_str()),
        component: BinarySensor { device_class: None },
    };
    assert!(matches!(e.discovery_fields("dt", "id"), Err(Error::TooLarge)));
}

#[test]
fn binary_sensor_without_class_is_null() {
    let s = BinarySensor { device_class: None };
    let fields = s.fields("dt", "id").ok().unwrap();
    assert_eq!(fields.len(), 1);
    assert!(matches!(fields[0].value, Value::Null));
    assert_eq!(BinarySensor::platform(), "binary_sensor");
}

#[test]
fn light_fields() {
    let light: Light<'static, 2, 1> = Light {
        command_topic: Some(Topic::Device("light/set")),
        supported_color_modes: [SupportedColorMode::Brightness, SupportedColorMode::Rgb],
        effects: ["rainbow"],
    };
    let fields = light.fields("dt", "id").ok().unwrap();
    assert_eq!(key_list(&fields), vec!["cmd_t", "schema", "sup_clrm", "effect", "fx_list"]);
    assert_eq!(str_value(&fields, "cmd_t"), "dt/id/light/set");
    assert_eq!(str_value(&fields, "schema"), "json");
    match &fields[2].value {
        Value::StrList(l) => assert_eq!(l, &vec!["brightness", "rgb"]),
        _ => panic!("color modes should be a list"),
    }
    assert!(matches!(fields[3].value, Value::Bool(true)));
    assert_eq!(Light::<'static, 2, 1>::platform(), "light");

    let plain: Light<'static, 0, 0> =
        Light { command_topic: None, supported_color_modes: [], effects: [] };
    let fields = plain.fields("dt", "id").ok().unwrap();
    assert_eq!(key_list(&fields), vec!["cmd_t", "schema"]);
    assert!(matches!(fields[0].value, Value::Null));
}

#[test]
fn state_payloads() {
    assert_eq!(BinarySensorState::On.as_bytes(), b"ON");
    assert_eq!(BinarySensorState::Off.as_bytes(), b"OFF");
    assert_eq!(AvailabilityState::Online.as_bytes(), b"online");
    assert_eq!(AvailabilityState::Offline.as_bytes(), b"offline");
}

#[test]
fn binary_state_converts_to_and_from_bool() {
    assert_eq!(BinarySensorState::from(true), BinarySensorState::On);
    assert_eq!(BinarySensorState::from(false), BinarySensorState::Off);
    assert!(bool::from(BinarySensorState::On));
    assert!(!bool::from(BinarySensorState::Off));
    for b in [true, false] {
        assert_eq!(bool::from(BinarySensorState::from(b)), b);
    }
    for s in [BinarySensorState::On, BinarySensorState::Off] {
        assert_eq!(BinarySensorState::from(bool::from(s)), s);
    }
}

#[test]
fn class_names() {
    assert_eq!(BinarySensorClass::Motion.name(), "motion");
    assert_eq!(BinarySensorClass::BatteryCharging.name(), "battery_charging");
    assert_eq!(SensorClass::Temperature.name(), "temperature");
    assert_eq!(SensorStateClass::TotalIncreasing.name(), "total_increasing");
    assert_eq!(SupportedColorMode::ColorTemp.name(), "color_temp");
}

#[test]
fn defaults_have_no_names() {
    let d = Device::default();
    assert!(d.name.is_none() && d.configuration_url.is_none());
    assert!(Origin::default().name.is_none());
}

fn command(color: Option<ColorFields>, color_temp: Option<u32>, brightness: Option<u8>) -> LightCommand<'static> {
    LightCommand { state: BinarySensorState::On, brightness, color_temp, color, effect: Some("rainbow") }
}

const NO_CHANNELS: ColorFields =
    ColorFields { h: None, s: None, x: None, y: None, r: None, g: None, b: None, w: None, c: None };

#[test]
fn light_command_picks_color() {
    let xy = ColorFields { x: Some(1.5f32.to_bits()), h: Some(7), ..NO_CHANNELS };
    let s = LightState::from_command(&command(Some(xy), Some(300), Some(9)));
    assert_eq!(s.color, Color::Xy { x: 1.5f32.to_bits(), y: 0 });
    assert_eq!(s.state, BinarySensorState::On);
    assert_eq!(s.effect, Some("rainbow"));

    let hs = ColorFields { h: Some(3), s: Some(4), c: Some(1), ..NO_CHANNELS };
    let s = LightState::from_command(&command(Some(hs), None, None));
    assert_eq!(s.color, Color::Hs { hue: 3, saturation: 4 });

    let rgbww = ColorFields { r: Some(1), c: Some(2), w: Some(3), ..NO_CHANNELS };
    let s = LightState::from_command(&command(Some(rgbww), None, None));
    assert_eq!(
        s.color,
        Color::Rgbww { red: 1, green: 0, blue: 0, cool_white: 2, warm_white: 3 }
    );

    let rgbw = ColorFields { g: Some(5), w: Some(6), ..NO_CHANNELS };
    let s = LightState::from_command(&command(Some(rgbw), None, None));
    assert_eq!(s.color, Color::Rgbw { red: 0, green: 5, blue: 0, white: 6 });

    let s = LightState::from_command(&command(Some(NO_CHANNELS), None, None));
    assert_eq!(s.color, Color::Rgb { red: 0, green: 0, blue: 0 });

    let s = LightState::from_command(&command(None, Some(300), Some(9)));
    assert_eq!(s.color, Color::ColorTemp(300));
    let s = LightState::from_command(&command(None, None, Some(9)));
    assert_eq!(s.color, Color::Brightness(9));
    let s = LightState::from_command(&command(None, None, None));
    assert_eq!(s.color, Color::Unspecified);
}

fn keys(fields: &[(&'static str, StateValue)]) -> Vec<&'static str> {
    fields.iter().map(|f| f.0).collect()
}

#[test]
fn light_state_fields_in_order() {
    let s = LightState {
        state: BinarySensorState::Off,
        color: Color::Rgbww { red: 1, green: 2, blue: 3, cool_white: 4, warm_white: 5 },
        effect: Some("fire"),
    };
    let fields = s.fields();
    assert_eq!(keys(&fields), vec!["state", "effect", "color_mode", "color"]);
    assert!(matches!(fields[0].1, StateValue::Str("OFF")));
    assert!(matches!(fields[2].1, StateValue::Str("rgbww")));
    match &fields[3].1 {
        StateValue::Color(c) => assert_eq!(
            *c,
            ColorFields { r: Some(1), g: Some(2), b: Some(3), w: Some(5), c: Some(4), ..NO_CHANNELS }
        ),
        _ => panic!("expected a color object"),
    }

    let s = LightState {
        state: BinarySensorState::On,
        color: Color::Hs { hue: 10, saturation: 20 },
        effect: None,
    };
    let fields = s.fields();
    assert_eq!(keys(&fields), vec!["state", "color_mode", "color"]);
    assert!(matches!(fields[1].1, StateValue::Str("hs")));
    match &fields[2].1 {
        StateValue::Color(c) => {
            assert_eq!(*c, ColorFields { h: Some(10), s: Some(20), ..NO_CHANNELS });
            // Read back as a command, the same color comes out.
            let cmd = LightCommand {
                state: BinarySensorState::On,
                brightness: None,
                color_temp: None,
                color: Some(*c),
                effect: None,
            };
            assert_eq!(LightState::from_command(&cmd).color, Color::Hs { hue: 10, saturation: 20 });
        }
        _ => panic!("expected a color object"),
    }

    let s = LightState { state: BinarySensorState::On, color: Color::Brightness(7), effect: None };
    let fields = s.fields();
    assert_eq!(keys(&fields), vec!["state", "brightness"]);
    assert!(matches!(fields[1].1, StateValue::Number(7)));

    let s = LightState { state: BinarySensorState::On, color: Color::Unspecified, effect: None };
    assert_eq!(keys(&s.fields()), vec!["state"]);
}
