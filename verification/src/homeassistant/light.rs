//! Tools for publishing a [Home Assistant light](https://www.home-assistant.io/integrations/light.mqtt/).
use vstd::prelude::*;
use vstd::string::StringSliceAdditionalSpecFns;

use crate::homeassistant::binary_sensor::BinarySensorState;
use crate::homeassistant::{field, Component, Field, Value, ValueView};
use crate::Error;
use crate::homeassistant::{fields_view, str_list_view};
use crate::topic::{path_of, topic_path, topic_path_string};
use crate::topic::Topic;

verus! {

/// A color mode that a light supports.
#[derive(Clone, Copy, PartialEq, Eq, Structural, Debug)]
pub enum SupportedColorMode {
    OnOff,
    Brightness,
    ColorTemp,
    Hs,
    Xy,
    Rgb,
    Rgbw,
    Rgbww,
    White,
}

impl SupportedColorMode {
    /// The name that the discovery message uses.
    pub open spec fn name_spec(&self) -> Seq<u8> {
        match self {
            SupportedColorMode::OnOff => "onoff".spec_bytes(),
            SupportedColorMode::Brightness => "brightness".spec_bytes(),
            SupportedColorMode::ColorTemp => "color_temp".spec_bytes(),
            SupportedColorMode::Hs => "hs".spec_bytes(),
            SupportedColorMode::Xy => "xy".spec_bytes(),
            SupportedColorMode::Rgb => "rgb".spec_bytes(),
            SupportedColorMode::Rgbw => "rgbw".spec_bytes(),
            SupportedColorMode::Rgbww => "rgbww".spec_bytes(),
            SupportedColorMode::White => "white".spec_bytes(),
        }
    }

    /// The name that the discovery message uses.
    pub fn name(&self) -> (r: &'static str)
        ensures
            r.spec_bytes() == self.name_spec(),
    {
        match self {
            SupportedColorMode::OnOff => "onoff",
            SupportedColorMode::Brightness => "brightness",
            SupportedColorMode::ColorTemp => "color_temp",
            SupportedColorMode::Hs => "hs",
            SupportedColorMode::Xy => "xy",
            SupportedColorMode::Rgb => "rgb",
            SupportedColorMode::Rgbw => "rgbw",
            SupportedColorMode::Rgbww => "rgbww",
            SupportedColorMode::White => "white",
        }
    }
}

/// The names of a list of color modes.
pub open spec fn mode_names(modes: Seq<SupportedColorMode>) -> Seq<Seq<u8>> {
    modes.map_values(|m: SupportedColorMode| m.name_spec())
}

/// A light entity
pub struct Light<'a, const C: usize, const E: usize> {
    /// A command topic that Home Assistant can use to control the light.
    pub command_topic: Option<Topic<&'a str>>,
    /// The color modes supported by the light.
    pub supported_color_modes: [SupportedColorMode; C],
    /// Any effects that can be used.
    pub effects: [&'a str; E],
}

impl<'b, const C: usize, const E: usize> Component for Light<'b, C, E> {
    open spec fn platform_spec() -> Seq<u8> {
        "light".spec_bytes()
    }

    /// The command topic (`null` when there is none), the JSON schema, the
    /// supported color modes when there are any, and the effects when there
    /// are any.
    open spec fn fields_spec(&self, device_type: Seq<u8>, device_id: Seq<u8>) -> Option<
        Seq<(Seq<u8>, ValueView)>,
    > {
        let cmd = match self.command_topic {
            Some(t) => match path_of(t@, device_type, device_id) {
                Some(p) => Some(ValueView::Path(p)),
                None => None,
            },
            None => Some(ValueView::Null),
        };
        let modes = if C > 0 {
            seq![field("sup_clrm", ValueView::StrList(mode_names(self.supported_color_modes@)))]
        } else {
            Seq::empty()
        };
        let effects = if E > 0 {
            seq![
                field("effect", ValueView::Bool(true)),
                field("fx_list", ValueView::StrList(str_list_view(self.effects@))),
            ]
        } else {
            Seq::empty()
        };
        match cmd {
            Some(c) => Some(
                seq![field("cmd_t", c), field("schema", ValueView::Str("json".spec_bytes()))]
                    + modes + effects,
            ),
            None => None,
        }
    }

    fn platform() -> (r: &'static str) {
        "light"
    }

    fn fields<'a>(&'a self, device_type: &'a str, device_id: &'a str) -> (r: Result<
        Vec<Field<'a>>,
        Error,
    >) {
        let ghost dt = device_type.spec_bytes();
        let ghost did = device_id.spec_bytes();
        let mut v: Vec<Field<'a>> = Vec::new();
        let cmd = match &self.command_topic {
            Some(t) => Value::Path(topic_path_string(t, device_type, device_id)?),
            None => Value::Null,
        };
        v.push(Field { key: "cmd_t", value: cmd });
        v.push(Field { key: "schema", value: Value::Str("json") });
        if C > 0 {
            let mut names: Vec<&'a str> = Vec::new();
            let mut i: usize = 0;
            while i < C
                invariant
                    i <= C,
                    self.supported_color_modes@.len() == C,
                    names@.len() == i,
                    forall|k: int| 0 <= k < i ==> (#[trigger] names@[k]).spec_bytes()
                        == self.supported_color_modes@[k].name_spec(),
                decreases C - i,
            {
                names.push(self.supported_color_modes[i].name());
                i = i + 1;
            }
            assert(str_list_view(names@) =~= mode_names(self.supported_color_modes@));
            v.push(Field { key: "sup_clrm", value: Value::StrList(names) });
        }
        let ghost with_modes = fields_view(v@);
        if E > 0 {
            let mut effects: Vec<&'a str> = Vec::new();
            let mut i: usize = 0;
            while i < E
                invariant
                    i <= E,
                    self.effects@.len() == E,
                    effects@ == self.effects@.take(i as int),
                decreases E - i,
            {
                effects.push(self.effects[i]);
                i = i + 1;
                assert(effects@ =~= self.effects@.take(i as int));
            }
            assert(self.effects@.take(E as int) =~= self.effects@);
            v.push(Field { key: "effect", value: Value::Bool(true) });
            v.push(Field { key: "fx_list", value: Value::StrList(effects) });
        }
        assert(fields_view(v@) =~= self.fields_spec(dt, did).unwrap());
        Ok(v)
    }
}

/// The color part of a light command, as Home Assistant sends it. Hue,
/// saturation and the `x`/`y` coordinates are carried as the 32-bit patterns
/// of the numbers received; the channels are levels.
#[derive(Clone, Copy, PartialEq, Eq, Structural, Debug)]
pub struct ColorFields {
    pub h: Option<u32>,
    pub s: Option<u32>,
    pub x: Option<u32>,
    pub y: Option<u32>,
    pub r: Option<u8>,
    pub g: Option<u8>,
    pub b: Option<u8>,
    pub w: Option<u8>,
    pub c: Option<u8>,
}

/// A command for the light, with the fields Home Assistant may send.
pub struct LightCommand<'a> {
    pub state: BinarySensorState,
    pub brightness: Option<u8>,
    pub color_temp: Option<u32>,
    pub color: Option<ColorFields>,
    pub effect: Option<&'a str>,
}

/// The color of the light in various forms. Hue, saturation and the `x`/`y`
/// coordinates are 32-bit patterns, as in [`ColorFields`].
#[derive(Clone, Copy, PartialEq, Eq, Structural, Debug)]
pub enum Color {
    /// No color was given.
    Unspecified,
    Brightness(u8),
    ColorTemp(u32),
    Hs { hue: u32, saturation: u32 },
    Xy { x: u32, y: u32 },
    Rgb { red: u8, green: u8, blue: u8 },
    Rgbw { red: u8, green: u8, blue: u8, white: u8 },
    Rgbww { red: u8, green: u8, blue: u8, cool_white: u8, warm_white: u8 },
}

/// The state of the light. This can be sent to the broker and received as a
/// command from Home Assistant.
pub struct LightState<'a> {
    /// Whether the light is on or off.
    pub state: BinarySensorState,
    /// The color of the light.
    pub color: Color,
    /// Any effect that is applied.
    pub effect: Option<&'a str>,
}

/// A level that was not sent counts as zero.
pub open spec fn level(v: Option<u8>) -> u8 {
    match v {
        Some(v) => v,
        None => 0,
    }
}

/// A coordinate that was not sent counts as zero, whose pattern is all zero bits.
pub open spec fn coordinate(v: Option<u32>) -> u32 {
    match v {
        Some(v) => v,
        None => 0,
    }
}

/// The color that a command asks for. A color object decides by the first of
/// `x`, `h`, `c` and `w` that is present (in that order), and is plain RGB
/// otherwise; without one, a color temperature, then a brightness, is used.
pub open spec fn command_color(cmd_color: Option<ColorFields>, color_temp: Option<u32>, brightness: Option<u8>) -> Color {
    match cmd_color {
        Some(c) => if c.x is Some {
            Color::Xy { x: c.x.unwrap(), y: coordinate(c.y) }
        } else if c.h is Some {
            Color::Hs { hue: c.h.unwrap(), saturation: coordinate(c.s) }
        } else if c.c is Some {
            Color::Rgbww {
                red: level(c.r),
                green: level(c.g),
                blue: level(c.b),
                cool_white: c.c.unwrap(),
                warm_white: level(c.w),
            }
        } else if c.w is Some {
            Color::Rgbw { red: level(c.r), green: level(c.g), blue: level(c.b), white: c.w.unwrap() }
        } else {
            Color::Rgb { red: level(c.r), green: level(c.g), blue: level(c.b) }
        },
        None => match color_temp {
            Some(t) => Color::ColorTemp(t),
            None => match brightness {
                Some(b) => Color::Brightness(b),
                None => Color::Unspecified,
            },
        },
    }
}

/// A JSON value of a light state.
pub enum StateValue<'a> {
    /// A string.
    Str(&'a str),
    /// A whole number.
    Number(u32),
    /// A color object: its fields that are present, in the order `h`, `s`,
    /// `x`, `y`, `r`, `g`, `b`, `w`, `c`.
    Color(ColorFields),
}

/// A JSON value of a light state as plain values.
pub enum StateValueView {
    Str(Seq<u8>),
    Number(u32),
    Color(ColorFields),
}

impl<'a> View for StateValue<'a> {
    type V = StateValueView;

    open spec fn view(&self) -> StateValueView {
        match self {
            StateValue::Str(s) => StateValueView::Str(s.spec_bytes()),
            StateValue::Number(n) => StateValueView::Number(*n),
            StateValue::Color(c) => StateValueView::Color(*c),
        }
    }
}

/// The views of the fields of a light state.
pub open spec fn state_fields_view(v: Seq<(&'static str, StateValue)>) -> Seq<(Seq<u8>, StateValueView)> {
    v.map_values(|p: (&'static str, StateValue)| (p.0.spec_bytes(), p.1@))
}

/// A color object with none of its fields present.
pub open spec fn no_color_fields() -> ColorFields {
    ColorFields { h: None, s: None, x: None, y: None, r: None, g: None, b: None, w: None, c: None }
}

/// The color object that a color writes: the fields of its form, present.
pub open spec fn color_object(color: Color) -> ColorFields {
    let none = no_color_fields();
    match color {
        Color::Hs { hue, saturation } => ColorFields { h: Some(hue), s: Some(saturation), ..none },
        Color::Xy { x, y } => ColorFields { x: Some(x), y: Some(y), ..none },
        Color::Rgb { red, green, blue } => ColorFields { r: Some(red), g: Some(green), b: Some(blue), ..none },
        Color::Rgbw { red, green, blue, white } => ColorFields {
            r: Some(red),
            g: Some(green),
            b: Some(blue),
            w: Some(white),
            ..none
        },
        Color::Rgbww { red, green, blue, cool_white, warm_white } => ColorFields {
            r: Some(red),
            g: Some(green),
            b: Some(blue),
            w: Some(warm_white),
            c: Some(cool_white),
            ..none
        },
        _ => none,
    }
}

/// The name of the color mode that a color is written in.
pub open spec fn color_mode_name(color: Color) -> Seq<u8> {
    match color {
        Color::Hs { .. } => "hs".spec_bytes(),
        Color::Xy { .. } => "xy".spec_bytes(),
        Color::Rgb { .. } => "rgb".spec_bytes(),
        Color::Rgbw { .. } => "rgbw".spec_bytes(),
        Color::Rgbww { .. } => "rgbww".spec_bytes(),
        _ => Seq::empty(),
    }
}

/// The fields that a color adds to a light state: none, a brightness or a
/// color temperature, or the color mode and then the color object.
pub open spec fn color_fields(color: Color) -> Seq<(Seq<u8>, StateValueView)> {
    match color {
        Color::Unspecified => Seq::empty(),
        Color::Brightness(b) => seq![("brightness".spec_bytes(), StateValueView::Number(b as u32))],
        Color::ColorTemp(t) => seq![("color_temp".spec_bytes(), StateValueView::Number(t))],
        _ => seq![
            ("color_mode".spec_bytes(), StateValueView::Str(color_mode_name(color))),
            ("color".spec_bytes(), StateValueView::Color(color_object(color))),
        ],
    }
}

/// The fields of a light state, in order: the on/off state, the effect when
/// there is one, then the color's.
pub open spec fn light_state_fields(state: BinarySensorState, color: Color, effect: Option<Seq<u8>>) -> Seq<(Seq<u8>, StateValueView)> {
    let st = match state {
        BinarySensorState::On => "ON".spec_bytes(),
        BinarySensorState::Off => "OFF".spec_bytes(),
    };
    let eff = match effect {
        Some(e) => seq![("effect".spec_bytes(), StateValueView::Str(e))],
        None => Seq::empty(),
    };
    seq![("state".spec_bytes(), StateValueView::Str(st))] + eff + color_fields(color)
}

impl<'a> LightState<'a> {
    /// The state that a command from Home Assistant asks for.
    pub fn from_command(cmd: &LightCommand<'a>) -> (r: LightState<'a>)
        ensures
            r.state == cmd.state,
            r.color == command_color(cmd.color, cmd.color_temp, cmd.brightness),
            r.effect == cmd.effect,
    {
        let color = match cmd.color {
            Some(c) => match (c.x, c.h, c.c, c.w) {
                (Some(x), _, _, _) => Color::Xy { x, y: or_zero32(c.y) },
                (None, Some(h), _, _) => Color::Hs { hue: h, saturation: or_zero32(c.s) },
                (None, None, Some(cw), _) => Color::Rgbww {
                    red: or_zero8(c.r),
                    green: or_zero8(c.g),
                    blue: or_zero8(c.b),
                    cool_white: cw,
                    warm_white: or_zero8(c.w),
                },
                (None, None, None, Some(w)) => Color::Rgbw {
                    red: or_zero8(c.r),
                    green: or_zero8(c.g),
                    blue: or_zero8(c.b),
                    white: w,
                },
                (None, None, None, None) => Color::Rgb {
                    red: or_zero8(c.r),
                    green: or_zero8(c.g),
                    blue: or_zero8(c.b),
                },
            },
            None => match cmd.color_temp {
                Some(t) => Color::ColorTemp(t),
                None => match cmd.brightness {
                    Some(b) => Color::Brightness(b),
                    None => Color::Unspecified,
                },
            },
        };
        LightState { state: cmd.state, color, effect: cmd.effect }
    }

    /// The fields of this state as a JSON object.
    pub fn fields(&self) -> (r: Vec<(&'static str, StateValue<'a>)>)
        ensures
            state_fields_view(r@) == light_state_fields(
                self.state,
                self.color,
                match self.effect {
                    Some(e) => Some(e.spec_bytes()),
                    None => None,
                },
            ),
    {
        let mut v: Vec<(&'static str, StateValue<'a>)> = Vec::new();
        let st = match self.state {
            BinarySensorState::On => "ON",
            BinarySensorState::Off => "OFF",
        };
        v.push(("state", StateValue::Str(st)));
        match self.effect {
            Some(e) => v.push(("effect", StateValue::Str(e))),
            None => {},
        }
        let ghost eff = match self.effect {
            Some(e) => Some(e.spec_bytes()),
            None => None,
        };
        let ghost head = state_fields_view(v@);
        assert(head =~= light_state_fields(self.state, Color::Unspecified, eff));
        let none = ColorFields { h: None, s: None, x: None, y: None, r: None, g: None, b: None, w: None, c: None };
        let (mode, object) = match self.color {
            Color::Unspecified => (None, None),
            Color::Brightness(b) => {
                v.push(("brightness", StateValue::Number(b as u32)));
                (None, None)
            },
            Color::ColorTemp(t) => {
                v.push(("color_temp", StateValue::Number(t)));
                (None, None)
            },
            Color::Hs { hue, saturation } => (Some("hs"), Some(ColorFields { h: Some(hue), s: Some(saturation), ..none })),
            Color::Xy { x, y } => (Some("xy"), Some(ColorFields { x: Some(x), y: Some(y), ..none })),
            Color::Rgb { red, green, blue } => (Some("rgb"), Some(ColorFields { r: Some(red), g: Some(green), b: Some(blue), ..none })),
            Color::Rgbw { red, green, blue, white } => (
                Some("rgbw"),
                Some(ColorFields { r: Some(red), g: Some(green), b: Some(blue), w: Some(white), ..none }),
            ),
            Color::Rgbww { red, green, blue, cool_white, warm_white } => (
                Some("rgbww"),
                Some(ColorFields {
                    r: Some(red),
                    g: Some(green),
                    b: Some(blue),
                    w: Some(warm_white),
                    c: Some(cool_white),
                    ..none
                }),
            ),
        };
        match (mode, object) {
            (Some(m), Some(o)) => {
                v.push(("color_mode", StateValue::Str(m)));
                v.push(("color", StateValue::Color(o)));
            },
            _ => {},
        }
        assert(state_fields_view(v@) =~= head + color_fields(self.color));
        v
    }
}

/// A level that was not sent counts as zero.
fn or_zero8(v: Option<u8>) -> (r: u8)
    ensures
        r == level(v),
{
    match v {
        Some(v) => v,
        None => 0,
    }
}

/// A coordinate that was not sent counts as zero.
fn or_zero32(v: Option<u32>) -> (r: u32)
    ensures
        r == coordinate(v),
{
    match v {
        Some(v) => v,
        None => 0,
    }
}

/// The value of the first field with this key, if any.
pub open spec fn lookup<V>(fields: Seq<(Seq<u8>, V)>, key: Seq<u8>) -> Option<V>
    decreases fields.len(),
{
    if fields.len() == 0 {
        None
    } else if fields[0].0 == key {
        Some(fields[0].1)
    } else {
        lookup(fields.drop_first(), key)
    }
}

/// Looking a key up in two lists one after the other: the first list's
/// field wins.
proof fn lemma_lookup_append<V>(a: Seq<(Seq<u8>, V)>, b: Seq<(Seq<u8>, V)>, key: Seq<u8>)
    ensures
        lookup(a + b, key) == (match lookup(a, key) {
            Some(v) => Some(v),
            None => lookup(b, key),
        }),
    decreases a.len(),
{
    if a.len() > 0 {
        assert((a + b).drop_first() =~= a.drop_first() + b);
        lemma_lookup_append(a.drop_first(), b, key);
    } else {
        assert(a + b =~= b);
    }
}

/// Looking a key up in a list of one field.
proof fn lemma_lookup_one<V>(k: Seq<u8>, v: V, key: Seq<u8>)
    ensures
        lookup(seq![(k, v)], key) == (if k == key {
            Some(v)
        } else {
            None::<V>
        }),
{
    reveal_with_fuel(lookup, 2);
}

/// The on/off state that a command's fields carry.
pub open spec fn read_state(fields: Seq<(Seq<u8>, StateValueView)>) -> Option<BinarySensorState> {
    match lookup(fields, "state".spec_bytes()) {
        Some(StateValueView::Str(s)) => if s == "ON".spec_bytes() {
            Some(BinarySensorState::On)
        } else if s == "OFF".spec_bytes() {
            Some(BinarySensorState::Off)
        } else {
            None
        },
        _ => None,
    }
}

/// The effect that a command's fields carry.
pub open spec fn read_effect(fields: Seq<(Seq<u8>, StateValueView)>) -> Option<Seq<u8>> {
    match lookup(fields, "effect".spec_bytes()) {
        Some(StateValueView::Str(e)) => Some(e),
        _ => None,
    }
}

/// The color that a command made of these fields asks for.
pub open spec fn read_command_color(fields: Seq<(Seq<u8>, StateValueView)>) -> Color {
    let color = match lookup(fields, "color".spec_bytes()) {
        Some(StateValueView::Color(c)) => Some(c),
        _ => None,
    };
    let color_temp = match lookup(fields, "color_temp".spec_bytes()) {
        Some(StateValueView::Number(n)) => Some(n),
        _ => None,
    };
    let brightness = match lookup(fields, "brightness".spec_bytes()) {
        Some(StateValueView::Number(n)) => if n < 256 {
            Some(n as u8)
        } else {
            None
        },
        _ => None,
    };
    command_color(color, color_temp, brightness)
}

/// The bytes of an ASCII string are its characters.
proof fn lemma_ascii_bytes(s: &str)
    requires
        vstd::string::is_ascii(s),
    ensures
        s.spec_bytes().len() == s@.len(),
        forall|i: int| 0 <= i < s@.len() ==> #[trigger] s.spec_bytes()[i] == s@[i] as u8,
{
    vstd::string::is_ascii_spec_bytes(s);
}

/// The keys and values that light states use are told apart by their bytes.
proof fn lemma_light_keys()
    ensures
        "state".spec_bytes() != "effect".spec_bytes(),
        "state".spec_bytes() != "color".spec_bytes(),
        "state".spec_bytes() != "color_mode".spec_bytes(),
        "state".spec_bytes() != "color_temp".spec_bytes(),
        "state".spec_bytes() != "brightness".spec_bytes(),
        "effect".spec_bytes() != "color".spec_bytes(),
        "effect".spec_bytes() != "color_mode".spec_bytes(),
        "effect".spec_bytes() != "color_temp".spec_bytes(),
        "effect".spec_bytes() != "brightness".spec_bytes(),
        "color_mode".spec_bytes() != "color".spec_bytes(),
        "color_mode".spec_bytes() != "color_temp".spec_bytes(),
        "color_mode".spec_bytes() != "brightness".spec_bytes(),
        "color".spec_bytes() != "color_temp".spec_bytes(),
        "color".spec_bytes() != "brightness".spec_bytes(),
        "color_temp".spec_bytes() != "brightness".spec_bytes(),
        "ON".spec_bytes() != "OFF".spec_bytes(),
{
    reveal_strlit("state");
    reveal_strlit("effect");
    reveal_strlit("color");
    reveal_strlit("color_mode");
    reveal_strlit("color_temp");
    reveal_strlit("brightness");
    reveal_strlit("ON");
    reveal_strlit("OFF");
    lemma_ascii_bytes("state");
    lemma_ascii_bytes("effect");
    lemma_ascii_bytes("color");
    lemma_ascii_bytes("color_mode");
    lemma_ascii_bytes("color_temp");
    lemma_ascii_bytes("brightness");
    lemma_ascii_bytes("ON");
    lemma_ascii_bytes("OFF");
    assert("state".spec_bytes()[0] != "color".spec_bytes()[0]);
    assert("color_mode".spec_bytes()[0] != "brightness".spec_bytes()[0]);
    assert("color_temp".spec_bytes()[0] != "brightness".spec_bytes()[0]);
    assert("color_mode".spec_bytes()[6] != "color_temp".spec_bytes()[6]);
}

/// The color fields of a color, read back as a command, give the same color.
proof fn lemma_color_read_back(color: Color)
    ensures
        read_command_color(color_fields(color)) == color,
{
    lemma_light_keys();
    let color_key = "color".spec_bytes();
    let temp_key = "color_temp".spec_bytes();
    let bright_key = "brightness".spec_bytes();
    let mode_key = "color_mode".spec_bytes();
    let cf = color_fields(color);
    match color {
        Color::Unspecified => {},
        Color::Brightness(b) => {
            lemma_lookup_one(bright_key, StateValueView::Number(b as u32), color_key);
            lemma_lookup_one(bright_key, StateValueView::Number(b as u32), temp_key);
            lemma_lookup_one(bright_key, StateValueView::Number(b as u32), bright_key);
        },
        Color::ColorTemp(t) => {
            lemma_lookup_one(temp_key, StateValueView::Number(t), color_key);
            lemma_lookup_one(temp_key, StateValueView::Number(t), temp_key);
        },
        _ => {
            let m = (mode_key, StateValueView::Str(color_mode_name(color)));
            let o = (color_key, StateValueView::Color(color_object(color)));
            assert(cf =~= seq![m] + seq![o]);
            lemma_lookup_append(seq![m], seq![o], color_key);
            lemma_lookup_one(m.0, m.1, color_key);
            lemma_lookup_one(o.0, o.1, color_key);
        },
    }
}

/// The fields that a color adds hold no effect.
proof fn lemma_color_fields_no_effect(color: Color)
    ensures
        lookup(color_fields(color), "effect".spec_bytes()) is None,
{
    lemma_light_keys();
    let key = "effect".spec_bytes();
    match color {
        Color::Unspecified => {},
        Color::Brightness(b) => {
            lemma_lookup_one("brightness".spec_bytes(), StateValueView::Number(b as u32), key);
        },
        Color::ColorTemp(t) => {
            lemma_lookup_one("color_temp".spec_bytes(), StateValueView::Number(t), key);
        },
        _ => {
            let m = ("color_mode".spec_bytes(), StateValueView::Str(color_mode_name(color)));
            let o = ("color".spec_bytes(), StateValueView::Color(color_object(color)));
            assert(color_fields(color) =~= seq![m] + seq![o]);
            lemma_lookup_append(seq![m], seq![o], key);
            lemma_lookup_one(m.0, m.1, key);
            lemma_lookup_one(o.0, o.1, key);
        },
    }
}

/// Looking a key up in the fields of a light state: the on/off state, then
/// the effect when there is one, then the color's fields.
proof fn lemma_lookup_fields(
    st: Seq<u8>,
    effect: Option<Seq<u8>>,
    cf: Seq<(Seq<u8>, StateValueView)>,
    key: Seq<u8>,
)
    ensures
        ({
            let eff = match effect {
                Some(e) => seq![("effect".spec_bytes(), StateValueView::Str(e))],
                None => Seq::<(Seq<u8>, StateValueView)>::empty(),
            };
            lookup(seq![("state".spec_bytes(), StateValueView::Str(st))] + eff + cf, key) == (
            if key == "state".spec_bytes() {
                Some(StateValueView::Str(st))
            } else if key == "effect".spec_bytes() && effect is Some {
                Some(StateValueView::Str(effect.unwrap()))
            } else {
                lookup(cf, key)
            })
        }),
{
    let head = seq![("state".spec_bytes(), StateValueView::Str(st))];
    let eff = match effect {
        Some(e) => seq![("effect".spec_bytes(), StateValueView::Str(e))],
        None => Seq::<(Seq<u8>, StateValueView)>::empty(),
    };
    lemma_lookup_append(head + eff, cf, key);
    lemma_lookup_append(head, eff, key);
    lemma_lookup_one("state".spec_bytes(), StateValueView::Str(st), key);
    match effect {
        Some(e) => lemma_lookup_one("effect".spec_bytes(), StateValueView::Str(e), key),
        None => {
            reveal_with_fuel(lookup, 1);
        },
    }
}

/// A light state written out as fields and read back as a command gives the
/// same state: the same on/off state, the same effect and the same color.
pub proof fn lemma_light_state_read_back(state: BinarySensorState, color: Color, effect: Option<Seq<u8>>)
    ensures
        read_state(light_state_fields(state, color, effect)) == Some(state),
        read_effect(light_state_fields(state, color, effect)) == effect,
        read_command_color(light_state_fields(state, color, effect)) == color,
{
    lemma_light_keys();
    let st = match state {
        BinarySensorState::On => "ON".spec_bytes(),
        BinarySensorState::Off => "OFF".spec_bytes(),
    };
    let state_key = "state".spec_bytes();
    let effect_key = "effect".spec_bytes();
    let head = seq![(state_key, StateValueView::Str(st))];
    let eff = match effect {
        Some(e) => seq![(effect_key, StateValueView::Str(e))],
        None => Seq::<(Seq<u8>, StateValueView)>::empty(),
    };
    let pre = head + eff;
    let cf = color_fields(color);
    let f = light_state_fields(state, color, effect);
    assert(f == pre + cf);
    lemma_lookup_fields(st, effect, cf, state_key);
    lemma_lookup_fields(st, effect, cf, effect_key);
    lemma_lookup_fields(st, effect, cf, "color".spec_bytes());
    lemma_lookup_fields(st, effect, cf, "color_temp".spec_bytes());
    lemma_lookup_fields(st, effect, cf, "brightness".spec_bytes());
    assert(read_command_color(f) == read_command_color(cf));
    lemma_color_read_back(color);
    lemma_color_fields_no_effect(color);
}

/// The supported color mode that a color is in, for the colors written in a
/// color mode.
pub open spec fn mode_of_color(color: Color) -> Option<SupportedColorMode> {
    match color {
        Color::Hs { .. } => Some(SupportedColorMode::Hs),
        Color::Xy { .. } => Some(SupportedColorMode::Xy),
        Color::Rgb { .. } => Some(SupportedColorMode::Rgb),
        Color::Rgbw { .. } => Some(SupportedColorMode::Rgbw),
        Color::Rgbww { .. } => Some(SupportedColorMode::Rgbww),
        _ => None,
    }
}

/// A light state's fields say the state in its own terms: the on/off state as
/// `ON` or `OFF`; a color in a color mode under the name of that very mode (as
/// a light announces it among its supported color modes); a brightness or a
/// color temperature as its number; the effect when there is one.
pub proof fn lemma_light_state_fields(state: BinarySensorState, color: Color, effect: Option<Seq<u8>>)
    ensures
        ({
            let f = light_state_fields(state, color, effect);
            &&& f.contains(
                (
                    "state".spec_bytes(),
                    StateValueView::Str(
                        if state == BinarySensorState::On {
                            "ON".spec_bytes()
                        } else {
                            "OFF".spec_bytes()
                        },
                    ),
                ),
            )
            &&& (mode_of_color(color) matches Some(m) ==> f.contains(
                ("color_mode".spec_bytes(), StateValueView::Str(m.name_spec())),
            ))
            &&& (color matches Color::Brightness(b) ==> f.contains(
                ("brightness".spec_bytes(), StateValueView::Number(b as u32)),
            ))
            &&& (color matches Color::ColorTemp(t) ==> f.contains(
                ("color_temp".spec_bytes(), StateValueView::Number(t)),
            ))
            &&& (effect matches Some(e) ==> f.contains(("effect".spec_bytes(), StateValueView::Str(e))))
        }),
{
    let st = match state {
        BinarySensorState::On => "ON".spec_bytes(),
        BinarySensorState::Off => "OFF".spec_bytes(),
    };
    let head = seq![("state".spec_bytes(), StateValueView::Str(st))];
    let eff = match effect {
        Some(e) => seq![("effect".spec_bytes(), StateValueView::Str(e))],
        None => Seq::<(Seq<u8>, StateValueView)>::empty(),
    };
    let cf = color_fields(color);
    let f = light_state_fields(state, color, effect);
    assert(f == head + eff + cf);
    assert(f[0] == head[0]);
    if effect is Some {
        assert(f[1] == eff[0]);
    }
    if color !is Unspecified {
        assert(f[1 + eff.len() as int] == cf[0]);
    }
}

/// A light announces what it is configured with: the full path of its
/// command topic (or null without one), the JSON schema, every supported color
/// mode by name and in order when it has any, and every effect in order when
/// it has any.
pub proof fn lemma_light_fields<'b, const C: usize, const E: usize>(
    light: Light<'b, C, E>,
    device_type: Seq<u8>,
    device_id: Seq<u8>,
)
    ensures
        light.fields_spec(device_type, device_id) matches Some(fs) ==> {
            &&& fs.contains(
                field(
                    "cmd_t",
                    match light.command_topic {
                        Some(t) => ValueView::Path(topic_path(t@, device_type, device_id)),
                        None => ValueView::Null,
                    },
                ),
            )
            &&& fs.contains(field("schema", ValueView::Str("json".spec_bytes())))
            &&& (C > 0 ==> fs.contains(
                field(
                    "sup_clrm",
                    ValueView::StrList(
                        Seq::new(C as nat, |i: int| light.supported_color_modes@[i].name_spec()),
                    ),
                ),
            ))
            &&& (E > 0 ==> fs.contains(field("effect", ValueView::Bool(true))))
            &&& (E > 0 ==> fs.contains(
                field("fx_list", ValueView::StrList(Seq::new(E as nat, |i: int| light.effects@[i].spec_bytes()))),
            ))
        },
{
    match light.fields_spec(device_type, device_id) {
        Some(fs) => {
            let modes = if C > 0 {
                seq![field("sup_clrm", ValueView::StrList(mode_names(light.supported_color_modes@)))]
            } else {
                Seq::empty()
            };
            let effects = if E > 0 {
                seq![
                    field("effect", ValueView::Bool(true)),
                    field("fx_list", ValueView::StrList(str_list_view(light.effects@))),
                ]
            } else {
                Seq::empty()
            };
            let cmd = match light.command_topic {
                Some(t) => ValueView::Path(topic_path(t@, device_type, device_id)),
                None => ValueView::Null,
            };
            assert(fs == seq![field("cmd_t", cmd), field("schema", ValueView::Str("json".spec_bytes()))] + modes + effects);
            assert(fs[0] == field("cmd_t", cmd));
            assert(fs[1] == field("schema", ValueView::Str("json".spec_bytes())));
            if C > 0 {
                assert(mode_names(light.supported_color_modes@) =~= Seq::new(
                    C as nat,
                    |i: int| light.supported_color_modes@[i].name_spec(),
                ));
                assert(fs[2] == modes[0]);
            }
            if E > 0 {
                assert(str_list_view(light.effects@) =~= Seq::new(
                    E as nat,
                    |i: int| light.effects@[i].spec_bytes(),
                ));
                assert(fs[2 + modes.len() as int] == effects[0]);
                assert(fs[3 + modes.len() as int] == effects[1]);
            }
        },
        None => {},
    }
}

} // verus!
