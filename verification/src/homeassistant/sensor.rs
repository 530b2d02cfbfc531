//! Tools for publishing a [Home Assistant sensor](https://www.home-assistant.io/integrations/sensor.mqtt/).
use vstd::prelude::*;
use vstd::string::StringSliceAdditionalSpecFns;

use crate::homeassistant::{field, Component, Field, Value, ValueView};
use crate::Error;
use crate::homeassistant::binary_sensor::optional_name;

verus! {

/// The type of sensor.
#[derive(Clone, Copy, PartialEq, Eq, Structural, Debug)]
pub enum SensorClass {
    ApparentPower,
    Aqi,
    AtmosphericPressure,
    Battery,
    CarbonDioxide,
    CarbonMonoxide,
    Current,
    DataRate,
    DataSize,
    Date,
    Distance,
    Duration,
    Energy,
    EnergyStorage,
    Enum,
    Frequency,
    Gas,
    Humidity,
    Illuminance,
    Irradiance,
    Moisture,
    Monetary,
    NitrogenDioxide,
    NitrogenMonoxide,
    NitrousOxide,
    Ozone,
    Ph,
    Pm1,
    Pm25,
    Pm10,
    PowerFactor,
    Power,
    Precipitation,
    PrecipitationIntensity,
    Pressure,
    ReactivePower,
    SignalStrength,
    SoundPressure,
    Speed,
    SulphurDioxide,
    Temperature,
    Timestamp,
    VolatileOrganicCompounds,
    VolatileOrganicCompoundsParts,
    Voltage,
    Volume,
    VolumeFlowRate,
    VolumeStorage,
    Water,
    Weight,
    WindSpeed,
}

impl SensorClass {
    /// The name that the discovery message uses.
    pub open spec fn name_spec(&self) -> Seq<u8> {
        match self {
            SensorClass::ApparentPower => "apparent_power".spec_bytes(),
            SensorClass::Aqi => "aqi".spec_bytes(),
            SensorClass::AtmosphericPressure => "atmospheric_pressure".spec_bytes(),
            SensorClass::Battery => "battery".spec_bytes(),
            SensorClass::CarbonDioxide => "carbon_dioxide".spec_bytes(),
            SensorClass::CarbonMonoxide => "carbon_monoxide".spec_bytes(),
            SensorClass::Current => "current".spec_bytes(),
            SensorClass::DataRate => "data_rate".spec_bytes(),
            SensorClass::DataSize => "data_size".spec_bytes(),
            SensorClass::Date => "date".spec_bytes(),
            SensorClass::Distance => "distance".spec_bytes(),
            SensorClass::Duration => "duration".spec_bytes(),
            SensorClass::Energy => "energy".spec_bytes(),
            SensorClass::EnergyStorage => "energy_storage".spec_bytes(),
            SensorClass::Enum => "enum".spec_bytes(),
            SensorClass::Frequency => "frequency".spec_bytes(),
            SensorClass::Gas => "gas".spec_bytes(),
            SensorClass::Humidity => "humidity".spec_bytes(),
            SensorClass::Illuminance => "illuminance".spec_bytes(),
            SensorClass::Irradiance => "irradiance".spec_bytes(),
            SensorClass::Moisture => "moisture".spec_bytes(),
            SensorClass::Monetary => "monetary".spec_bytes(),
            SensorClass::NitrogenDioxide => "nitrogen_dioxide".spec_bytes(),
            SensorClass::NitrogenMonoxide => "nitrogen_monoxide".spec_bytes(),
            SensorClass::NitrousOxide => "nitrous_oxide".spec_bytes(),
            SensorClass::Ozone => "ozone".spec_bytes(),
            SensorClass::Ph => "ph".spec_bytes(),
            SensorClass::Pm1 => "pm1".spec_bytes(),
            SensorClass::Pm25 => "pm25".spec_bytes(),
            SensorClass::Pm10 => "pm10".spec_bytes(),
            SensorClass::PowerFactor => "power_factor".spec_bytes(),
            SensorClass::Power => "power".spec_bytes(),
            SensorClass::Precipitation => "precipitation".spec_bytes(),
            SensorClass::PrecipitationIntensity => "precipitation_intensity".spec_bytes(),
            SensorClass::Pressure => "pressure".spec_bytes(),
            SensorClass::ReactivePower => "reactive_power".spec_bytes(),
            SensorClass::SignalStrength => "signal_strength".spec_bytes(),
            SensorClass::SoundPressure => "sound_pressure".spec_bytes(),
            SensorClass::Speed => "speed".spec_bytes(),
            SensorClass::SulphurDioxide => "sulphur_dioxide".spec_bytes(),
            SensorClass::Temperature => "temperature".spec_bytes(),
            SensorClass::Timestamp => "timestamp".spec_bytes(),
            SensorClass::VolatileOrganicCompounds => "volatile_organic_compounds".spec_bytes(),
            SensorClass::VolatileOrganicCompoundsParts => "volatile_organic_compounds_parts".spec_bytes(),
            SensorClass::Voltage => "voltage".spec_bytes(),
            SensorClass::Volume => "volume".spec_bytes(),
            SensorClass::VolumeFlowRate => "volume_flow_rate".spec_bytes(),
            SensorClass::VolumeStorage => "volume_storage".spec_bytes(),
            SensorClass::Water => "water".spec_bytes(),
            SensorClass::Weight => "weight".spec_bytes(),
            SensorClass::WindSpeed => "wind_speed".spec_bytes(),
        }
    }

    /// The name that the discovery message uses.
    pub fn name(&self) -> (r: &'static str)
        ensures
            r.spec_bytes() == self.name_spec(),
    {
        match self {
            SensorClass::ApparentPower => "apparent_power",
            SensorClass::Aqi => "aqi",
            SensorClass::AtmosphericPressure => "atmospheric_pressure",
            SensorClass::Battery => "battery",
            SensorClass::CarbonDioxide => "carbon_dioxide",
            SensorClass::CarbonMonoxide => "carbon_monoxide",
            SensorClass::Current => "current",
            SensorClass::DataRate => "data_rate",
            SensorClass::DataSize => "data_size",
            SensorClass::Date => "date",
            SensorClass::Distance => "distance",
            SensorClass::Duration => "duration",
            SensorClass::Energy => "energy",
            SensorClass::EnergyStorage => "energy_storage",
            SensorClass::Enum => "enum",
            SensorClass::Frequency => "frequency",
            SensorClass::Gas => "gas",
            SensorClass::Humidity => "humidity",
            SensorClass::Illuminance => "illuminance",
            SensorClass::Irradiance => "irradiance",
            SensorClass::Moisture => "moisture",
            SensorClass::Monetary => "monetary",
            SensorClass::NitrogenDioxide => "nitrogen_dioxide",
            SensorClass::NitrogenMonoxide => "nitrogen_monoxide",
            SensorClass::NitrousOxide => "nitrous_oxide",
            SensorClass::Ozone => "ozone",
            SensorClass::Ph => "ph",
            SensorClass::Pm1 => "pm1",
            SensorClass::Pm25 => "pm25",
            SensorClass::Pm10 => "pm10",
            SensorClass::PowerFactor => "power_factor",
            SensorClass::Power => "power",
            SensorClass::Precipitation => "precipitation",
            SensorClass::PrecipitationIntensity => "precipitation_intensity",
            SensorClass::Pressure => "pressure",
            SensorClass::ReactivePower => "reactive_power",
            SensorClass::SignalStrength => "signal_strength",
            SensorClass::SoundPressure => "sound_pressure",
            SensorClass::Speed => "speed",
            SensorClass::SulphurDioxide => "sulphur_dioxide",
            SensorClass::Temperature => "temperature",
            SensorClass::Timestamp => "timestamp",
            SensorClass::VolatileOrganicCompounds => "volatile_organic_compounds",
            SensorClass::VolatileOrganicCompoundsParts => "volatile_organic_compounds_parts",
            SensorClass::Voltage => "voltage",
            SensorClass::Volume => "volume",
            SensorClass::VolumeFlowRate => "volume_flow_rate",
            SensorClass::VolumeStorage => "volume_storage",
            SensorClass::Water => "water",
            SensorClass::Weight => "weight",
            SensorClass::WindSpeed => "wind_speed",
        }
    }
}

/// The type of measurement that this entity publishes.
#[derive(Clone, Copy, PartialEq, Eq, Structural, Debug)]
pub enum SensorStateClass {
    Measurement,
    Total,
    TotalIncreasing,
}

impl SensorStateClass {
    /// The name that the discovery message uses.
    pub open spec fn name_spec(&self) -> Seq<u8> {
        match self {
            SensorStateClass::Measurement => "measurement".spec_bytes(),
            SensorStateClass::Total => "total".spec_bytes(),
            SensorStateClass::TotalIncreasing => "total_increasing".spec_bytes(),
        }
    }

    /// The name that the discovery message uses.
    pub fn name(&self) -> (r: &'static str)
        ensures
            r.spec_bytes() == self.name_spec(),
    {
        match self {
            SensorStateClass::Measurement => "measurement",
            SensorStateClass::Total => "total",
            SensorStateClass::TotalIncreasing => "total_increasing",
        }
    }
}

/// A sensor that publishes a number.
pub struct Sensor<'u> {
    pub device_class: Option<SensorClass>,
    pub state_class: Option<SensorStateClass>,
    pub unit_of_measurement: Option<&'u str>,
}

impl<'u> Component for Sensor<'u> {
    open spec fn platform_spec() -> Seq<u8> {
        "sensor".spec_bytes()
    }

    open spec fn fields_spec(&self, device_type: Seq<u8>, device_id: Seq<u8>) -> Option<
        Seq<(Seq<u8>, ValueView)>,
    > {
        Some(
            seq![
                field(
                    "device_class",
                    optional_name(
                        match self.device_class {
                            Some(c) => Some(c.name_spec()),
                            None => None,
                        },
                    ),
                ),
                field(
                    "state_class",
                    optional_name(
                        match self.state_class {
                            Some(c) => Some(c.name_spec()),
                            None => None,
                        },
                    ),
                ),
                field(
                    "unit_of_measurement",
                    optional_name(
                        match self.unit_of_measurement {
                            Some(u) => Some(u.spec_bytes()),
                            None => None,
                        },
                    ),
                ),
            ],
        )
    }

    fn platform() -> (r: &'static str) {
        "sensor"
    }

    fn fields<'a>(&'a self, device_type: &'a str, device_id: &'a str) -> (r: Result<
        Vec<Field<'a>>,
        Error,
    >) {
        let mut v: Vec<Field<'a>> = Vec::new();
        let value = match self.device_class {
            Some(c) => Value::Str(c.name()),
            None => Value::Null,
        };
        v.push(Field { key: "device_class", value });
        let value = match self.state_class {
            Some(c) => Value::Str(c.name()),
            None => Value::Null,
        };
        v.push(Field { key: "state_class", value });
        let value = match self.unit_of_measurement {
            Some(u) => Value::Str(u),
            None => Value::Null,
        };
        v.push(Field { key: "unit_of_measurement", value });
        assert(crate::homeassistant::fields_view(v@) =~= self.fields_spec(
            device_type.spec_bytes(),
            device_id.spec_bytes(),
        ).unwrap());
        Ok(v)
    }
}

} // verus!
