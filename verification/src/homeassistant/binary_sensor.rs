//! Tools for publishing a [Home Assistant binary sensor](https://www.home-assistant.io/integrations/binary_sensor.mqtt/).
use vstd::prelude::*;
use vstd::string::StringSliceAdditionalSpecFns;

use crate::homeassistant::{field, Component, Field, Value, ValueView};
use crate::Error;

verus! {

/// The state of the sensor. Can be easily converted to or from a [`bool`].
#[derive(Clone, Copy, PartialEq, Eq, Structural, Debug)]
pub enum BinarySensorState {
    On,
    Off,
}

impl From<bool> for BinarySensorState {
    fn from(val: bool) -> (r: Self)
        ensures
            r == state_of(val),
    {
        if val {
            BinarySensorState::On
        } else {
            BinarySensorState::Off
        }
    }
}

impl vstd::std_specs::convert::FromSpecImpl<bool> for BinarySensorState {
    open spec fn obeys_from_spec() -> bool {
        true
    }

    open spec fn from_spec(val: bool) -> Self {
        if val {
            BinarySensorState::On
        } else {
            BinarySensorState::Off
        }
    }
}

impl From<BinarySensorState> for bool {
    fn from(val: BinarySensorState) -> (r: bool)
        ensures
            r == bool_of(val),
    {
        match val {
            BinarySensorState::On => true,
            BinarySensorState::Off => false,
        }
    }
}

impl vstd::std_specs::convert::FromSpecImpl<BinarySensorState> for bool {
    open spec fn obeys_from_spec() -> bool {
        true
    }

    open spec fn from_spec(val: BinarySensorState) -> bool {
        val == BinarySensorState::On
    }
}

/// The state that a boolean stands for: `true` is on.
pub open spec fn state_of(b: bool) -> BinarySensorState {
    if b {
        BinarySensorState::On
    } else {
        BinarySensorState::Off
    }
}

/// The boolean that a state stands for: on is `true`.
pub open spec fn bool_of(s: BinarySensorState) -> bool {
    s == BinarySensorState::On
}

/// Converting a boolean to a state and back gives the same boolean, and
/// converting a state to a boolean and back gives the same state.
pub proof fn lemma_state_bool_roundtrip(b: bool, s: BinarySensorState)
    ensures
        bool_of(state_of(b)) == b,
        state_of(bool_of(s)) == s,
{
}

impl BinarySensorState {
    /// The payload of the state: `ON` or `OFF`.
    pub fn as_bytes(&self) -> (r: &'static [u8])
        ensures
            r@ == match self {
                BinarySensorState::On => "ON".spec_bytes(),
                BinarySensorState::Off => "OFF".spec_bytes(),
            },
    {
        match self {
            BinarySensorState::On => "ON".as_bytes(),
            BinarySensorState::Off => "OFF".as_bytes(),
        }
    }
}

/// The type of sensor.
#[derive(Clone, Copy, PartialEq, Eq, Structural, Debug)]
pub enum BinarySensorClass {
    Battery,
    BatteryCharging,
    CarbonMonoxide,
    Cold,
    Connectivity,
    Door,
    GarageDoor,
    Gas,
    Heat,
    Light,
    Lock,
    Moisture,
    Motion,
    Moving,
    Occupancy,
    Opening,
    Plug,
    Power,
    Presence,
    Problem,
    Running,
    Safety,
    Smoke,
    Sound,
    Tamper,
    Update,
    Vibration,
    Window,
}

impl BinarySensorClass {
    /// The name that the discovery message uses.
    pub open spec fn name_spec(&self) -> Seq<u8> {
        match self {
            BinarySensorClass::Battery => "battery".spec_bytes(),
            BinarySensorClass::BatteryCharging => "battery_charging".spec_bytes(),
            BinarySensorClass::CarbonMonoxide => "carbon_monoxide".spec_bytes(),
            BinarySensorClass::Cold => "cold".spec_bytes(),
            BinarySensorClass::Connectivity => "connectivity".spec_bytes(),
            BinarySensorClass::Door => "door".spec_bytes(),
            BinarySensorClass::GarageDoor => "garage_door".spec_bytes(),
            BinarySensorClass::Gas => "gas".spec_bytes(),
            BinarySensorClass::Heat => "heat".spec_bytes(),
            BinarySensorClass::Light => "light".spec_bytes(),
            BinarySensorClass::Lock => "lock".spec_bytes(),
            BinarySensorClass::Moisture => "moisture".spec_bytes(),
            BinarySensorClass::Motion => "motion".spec_bytes(),
            BinarySensorClass::Moving => "moving".spec_bytes(),
            BinarySensorClass::Occupancy => "occupancy".spec_bytes(),
            BinarySensorClass::Opening => "opening".spec_bytes(),
            BinarySensorClass::Plug => "plug".spec_bytes(),
            BinarySensorClass::Power => "power".spec_bytes(),
            BinarySensorClass::Presence => "presence".spec_bytes(),
            BinarySensorClass::Problem => "problem".spec_bytes(),
            BinarySensorClass::Running => "running".spec_bytes(),
            BinarySensorClass::Safety => "safety".spec_bytes(),
            BinarySensorClass::Smoke => "smoke".spec_bytes(),
            BinarySensorClass::Sound => "sound".spec_bytes(),
            BinarySensorClass::Tamper => "tamper".spec_bytes(),
            BinarySensorClass::Update => "update".spec_bytes(),
            BinarySensorClass::Vibration => "vibration".spec_bytes(),
            BinarySensorClass::Window => "window".spec_bytes(),
        }
    }

    /// The name that the discovery message uses.
    pub fn name(&self) -> (r: &'static str)
        ensures
            r.spec_bytes() == self.name_spec(),
    {
        match self {
            BinarySensorClass::Battery => "battery",
            BinarySensorClass::BatteryCharging => "battery_charging",
            BinarySensorClass::CarbonMonoxide => "carbon_monoxide",
            BinarySensorClass::Cold => "cold",
            BinarySensorClass::Connectivity => "connectivity",
            BinarySensorClass::Door => "door",
            BinarySensorClass::GarageDoor => "garage_door",
            BinarySensorClass::Gas => "gas",
            BinarySensorClass::Heat => "heat",
            BinarySensorClass::Light => "light",
            BinarySensorClass::Lock => "lock",
            BinarySensorClass::Moisture => "moisture",
            BinarySensorClass::Motion => "motion",
            BinarySensorClass::Moving => "moving",
            BinarySensorClass::Occupancy => "occupancy",
            BinarySensorClass::Opening => "opening",
            BinarySensorClass::Plug => "plug",
            BinarySensorClass::Power => "power",
            BinarySensorClass::Presence => "presence",
            BinarySensorClass::Problem => "problem",
            BinarySensorClass::Running => "running",
            BinarySensorClass::Safety => "safety",
            BinarySensorClass::Smoke => "smoke",
            BinarySensorClass::Sound => "sound",
            BinarySensorClass::Tamper => "tamper",
            BinarySensorClass::Update => "update",
            BinarySensorClass::Vibration => "vibration",
            BinarySensorClass::Window => "window",
        }
    }
}

/// A binary sensor that can publish a [`BinarySensorState`] status.
pub struct BinarySensor {
    pub device_class: Option<BinarySensorClass>,
}

/// An optional name: `null` when absent.
pub open spec fn optional_name(n: Option<Seq<u8>>) -> ValueView {
    match n {
        Some(n) => ValueView::Str(n),
        None => ValueView::Null,
    }
}

impl Component for BinarySensor {
    open spec fn platform_spec() -> Seq<u8> {
        "binary_sensor".spec_bytes()
    }

    open spec fn fields_spec(&self, device_type: Seq<u8>, device_id: Seq<u8>) -> Option<
        Seq<(Seq<u8>, ValueView)>,
    > {
        Some(
            seq![
                field(
                    "device_class",
                    optional_name(
                        match self.device_class {
                            Some(c) => Some(c.name_spec()),
                            None => None,
                        },
                    ),
                ),
            ],
        )
    }

    fn platform() -> (r: &'static str) {
        "binary_sensor"
    }

    fn fields<'a>(&'a self, device_type: &'a str, device_id: &'a str) -> (r: Result<
        Vec<Field<'a>>,
        Error,
    >) {
        let mut v: Vec<Field<'a>> = Vec::new();
        let value = match self.device_class {
            Some(c) => Value::Str(c.name()),
            None => Value::Null,
        };
        v.push(Field { key: "device_class", value });
        assert(crate::homeassistant::fields_view(v@) =~= self.fields_spec(
            device_type.spec_bytes(),
            device_id.spec_bytes(),
        ).unwrap());
        Ok(v)
    }
}

} // verus!
