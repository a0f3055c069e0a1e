//! Ambient sensor: classification of temperature, humidity and pressure
//! readings, and the sampling profile the sensor is configured with.
//! Readings arrive as plain integers in hundredths of a unit (centi-degrees
//! Celsius, centi-percent relative humidity, centi-hectopascal); the driver
//! that talks I2C lives outside this crate and hands the values over.

use vstd::prelude::*;

verus! {

/// Why the ambient sensor could not be brought up.
#[derive(Clone, Copy, Debug, PartialEq, Eq, Structural)]
pub enum Bme280Error {
    SensorInitError(),
}

/// Ambient temperature bands, in degrees Celsius.
#[derive(Clone, Copy, Debug, PartialEq, Eq, Structural)]
pub enum TempStatus {
    Freezing,
    Cold,
    Optimal,
    Hot,
}

/// Ambient relative-humidity bands, in percent.
#[derive(Clone, Copy, Debug, PartialEq, Eq, Structural)]
pub enum HumidityStatus {
    Dry,
    Optimal,
    Moist,
    Wet,
}

/// Ambient pressure bands, in hectopascal.
#[derive(Clone, Copy, Debug, PartialEq, Eq, Structural)]
pub enum PressureStatus {
    Low,
    Optimal,
    High,
}

/// Band for a temperature in hundredths of a degree Celsius: freezing
/// under 0, cold under 18, optimal under 25, hot from there on.
pub open spec fn temp_status_of(centi_celsius: int) -> TempStatus {
    if centi_celsius < 0 {
        TempStatus::Freezing
    } else if centi_celsius < 1800 {
        TempStatus::Cold
    } else if centi_celsius < 2500 {
        TempStatus::Optimal
    } else {
        TempStatus::Hot
    }
}

/// Band for a relative humidity in hundredths of a percent: dry under 30,
/// optimal under 50, moist under 70, wet from there on.
pub open spec fn humidity_status_of(centi_percent: int) -> HumidityStatus {
    if centi_percent < 3000 {
        HumidityStatus::Dry
    } else if centi_percent < 5000 {
        HumidityStatus::Optimal
    } else if centi_percent < 7000 {
        HumidityStatus::Moist
    } else {
        HumidityStatus::Wet
    }
}

/// Band for a pressure in hundredths of a hectopascal: low under 1000,
/// optimal under 1013, high from there on.
pub open spec fn pressure_status_of(centi_hpa: int) -> PressureStatus {
    if centi_hpa < 100000 {
        PressureStatus::Low
    } else if centi_hpa < 101300 {
        PressureStatus::Optimal
    } else {
        PressureStatus::High
    }
}

/// Classify a temperature reading; a missing reading has no band.
pub fn read_temperature_status(reading: Option<i32>) -> (r: Option<TempStatus>)
    ensures
        reading matches Some(c) ==> r == Some(temp_status_of(c as int)),
        reading is None ==> r is None,
{
    match reading {
        Some(c) => {
            if c < 0 {
                Some(TempStatus::Freezing)
            } else if c < 1800 {
                Some(TempStatus::Cold)
            } else if c < 2500 {
                Some(TempStatus::Optimal)
            } else {
                Some(TempStatus::Hot)
            }
        },
        None => None,
    }
}

/// Classify a humidity reading; a missing reading has no band.
pub fn read_humidity_status(reading: Option<i32>) -> (r: Option<HumidityStatus>)
    ensures
        reading matches Some(h) ==> r == Some(humidity_status_of(h as int)),
        reading is None ==> r is None,
{
    match reading {
        Some(h) => {
            if h < 3000 {
                Some(HumidityStatus::Dry)
            } else if h < 5000 {
                Some(HumidityStatus::Optimal)
            } else if h < 7000 {
                Some(HumidityStatus::Moist)
            } else {
                Some(HumidityStatus::Wet)
            }
        },
        None => None,
    }
}

/// Classify a pressure reading; a missing reading has no band.
pub fn read_pressure_status(reading: Option<i32>) -> (r: Option<PressureStatus>)
    ensures
        reading matches Some(p) ==> r == Some(pressure_status_of(p as int)),
        reading is None ==> r is None,
{
    match reading {
        Some(p) => {
            if p < 100000 {
                Some(PressureStatus::Low)
            } else if p < 101300 {
                Some(PressureStatus::Optimal)
            } else {
                Some(PressureStatus::High)
            }
        },
        None => None,
    }
}

/// Sampling configuration the ambient sensor is given at start-up, as
/// plain values: oversampling factors and whether the sensor samples
/// continuously.
pub struct SamplingProfile {
    pub temperature_oversampling: u8,
    pub pressure_oversampling: u8,
    pub humidity_oversampling: u8,
    pub continuous: bool,
}

/// The node's fixed profile: single oversampling on every channel, and
/// continuous (normal-mode) sampling.
pub fn default_sampling_profile() -> (p: SamplingProfile)
    ensures
        p.temperature_oversampling == 1,
        p.pressure_oversampling == 1,
        p.humidity_oversampling == 1,
        p.continuous,
{
    SamplingProfile {
        temperature_oversampling: 1,
        pressure_oversampling: 1,
        humidity_oversampling: 1,
        continuous: true,
    }
}

} // verus!
