//! Sensor sampling cycle: once per interval the node reads the ambient
//! sensor and the soil probe and classifies every reading it got. A failed
//! read is a missing value for that cycle, never a stopped loop. Each
//! cycle's record is built fresh and consumed in the same cycle.

use vstd::prelude::*;
use crate::ambient::{
    humidity_status_of,
    pressure_status_of,
    read_humidity_status,
    read_pressure_status,
    read_temperature_status,
    temp_status_of,
    HumidityStatus,
    PressureStatus,
    TempStatus,
};
use crate::moisture::{
    moisture_percent_hundredths,
    soil_status_of,
    SoilMoisture,
    SoilStatus,
    NOT_CONNECTED_LIMIT,
};

verus! {

/// One-time settle delay after sensor initialization, in seconds.
pub const SETTLE_SECS: u64 = 5;

/// Pause between two sampling cycles, in seconds.
pub const SAMPLE_INTERVAL_SECS: u64 = 10;

/// Everything one sampling cycle produced. Readings are in hundredths of a
/// unit; a field is `None` when the read failed or the probe is absent.
pub struct SensorReading {
    pub temperature: Option<i32>,
    pub humidity: Option<i32>,
    pub pressure: Option<i32>,
    pub temperature_status: Option<TempStatus>,
    pub humidity_status: Option<HumidityStatus>,
    pub pressure_status: Option<PressureStatus>,
    /// Soil moisture in hundredths of a percent; `None` when the probe is
    /// disconnected or gave no conversion.
    pub soil_moisture: Option<u16>,
    pub soil_status: Option<SoilStatus>,
}

/// Build the record of one sampling cycle from what the drivers handed
/// over: each ambient reading is kept and classified, and the soil probe's
/// current conversion is mapped to a percentage and a soil band — unless
/// the probe is disconnected, in which case no percentage is reported at
/// all.
pub fn sample_cycle(
    temperature: Option<i32>,
    humidity: Option<i32>,
    pressure: Option<i32>,
    soil: &SoilMoisture,
) -> (r: SensorReading)
    ensures
        r.temperature == temperature,
        r.humidity == humidity,
        r.pressure == pressure,
        temperature matches Some(t) ==> r.temperature_status == Some(temp_status_of(t as int)),
        temperature is None ==> r.temperature_status is None,
        humidity matches Some(h) ==> r.humidity_status == Some(humidity_status_of(h as int)),
        humidity is None ==> r.humidity_status is None,
        pressure matches Some(p) ==> r.pressure_status == Some(pressure_status_of(p as int)),
        pressure is None ==> r.pressure_status is None,
        soil.reading() matches Some(raw) ==> raw >= NOT_CONNECTED_LIMIT ==> (r.soil_moisture
            matches Some(pct) && pct == moisture_percent_hundredths(raw) && r.soil_status == Some(
            soil_status_of(moisture_percent_hundredths(raw)),
        )),
        soil.reading() matches Some(raw) ==> raw < NOT_CONNECTED_LIMIT ==> r.soil_moisture is None
            && r.soil_status is None,
        soil.reading() is None ==> r.soil_moisture is None && r.soil_status is None,
{
    let soil_moisture = match soil.get_moisture_precentage() {
        Ok(pct) => Some(pct),
        Err(_) => None,
    };
    SensorReading {
        temperature,
        humidity,
        pressure,
        temperature_status: read_temperature_status(temperature),
        humidity_status: read_humidity_status(humidity),
        pressure_status: read_pressure_status(pressure),
        soil_moisture,
        soil_status: soil.get_soil_status(),
    }
}

} // verus!
