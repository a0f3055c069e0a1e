//! Soil-moisture probe: mapping of the raw analog reading to a moisture
//! percentage and classification of the percentage into a soil status.

use vstd::prelude::*;

verus! {

/// Raw analog reading at (or above) which the soil counts as fully wet.
pub const MAX_WET: u16 = 2800;
/// Raw analog reading at (or below) which the soil counts as fully dry.
pub const MAX_DRY: u16 = 1300;
/// Raw readings under this level are hardware noise: the probe is not wired up.
pub const NOT_CONNECTED_LIMIT: u16 = 1000;

/// Soil condition bands over the moisture percentage.
#[derive(Clone, Copy, Debug, PartialEq, Eq, Structural)]
pub enum SoilStatus {
    Dry,
    Optimal,
    Damp,
    Wet,
}

/// Why no moisture percentage could be produced this cycle.
#[derive(Clone, Copy, Debug, PartialEq, Eq, Structural)]
pub enum MoistureError {
    SensorNotConnected(),
    EspError(),
}

pub type MoistureResult<T> = Result<T, MoistureError>;

/// Moisture percentage in hundredths of a percent (5000 stands for 50.00 %):
/// 0 under the dry bound, 100.00 % over the wet bound, and a linear map of
/// the raw reading in between.
pub open spec fn moisture_percent_hundredths(raw: u16) -> int {
    if raw < MAX_DRY {
        0
    } else if raw > MAX_WET {
        10000
    } else {
        (raw - MAX_DRY) * 100 / 15
    }
}

/// Soil condition for a percentage given in hundredths of a percent.
/// A value exactly on a band boundary belongs to the higher band.
pub open spec fn soil_status_of(percent_hundredths: int) -> SoilStatus {
    if percent_hundredths < 2000 {
        SoilStatus::Dry
    } else if percent_hundredths < 4000 {
        SoilStatus::Optimal
    } else if percent_hundredths < 5500 {
        SoilStatus::Damp
    } else {
        SoilStatus::Wet
    }
}

impl SoilStatus {
    /// Short label for logs, in place of a display formatter.
    pub fn label(&self) -> (s: &'static str)
        ensures
            *self == SoilStatus::Dry ==> s@ == "Dry"@,
            *self == SoilStatus::Optimal ==> s@ == "Optimal"@,
            *self == SoilStatus::Damp ==> s@ == "Damp"@,
            *self == SoilStatus::Wet ==> s@ == "Wet"@,
    {
        match self {
            SoilStatus::Dry => "Dry",
            SoilStatus::Optimal => "Optimal",
            SoilStatus::Damp => "Damp",
            SoilStatus::Wet => "Wet",
        }
    }
}

/// The soil-moisture probe as the core sees it: the latest raw analog
/// conversion, supplied by whoever drives the ADC. Absent until the first
/// conversion is handed over.
pub struct SoilMoisture {
    last_raw: Option<u16>,
}

impl SoilMoisture {
    /// The raw conversion the probe currently holds, if any.
    pub closed spec fn reading(self) -> Option<u16> {
        self.last_raw
    }

    pub fn new() -> (r: MoistureResult<SoilMoisture>)
        ensures
            r matches Ok(m) && m.reading() is None,
    {
        Ok(SoilMoisture { last_raw: None })
    }

    /// Record the latest analog conversion taken from the probe.
    pub fn supply_raw(&mut self, raw: u16)
        ensures
            final(self).reading() == Some(raw),
    {
        self.last_raw = Some(raw);
    }

    /// The raw analog reading; an error when no conversion has been supplied.
    pub fn get_raw_moisture(&self) -> (r: MoistureResult<u16>)
        ensures
            self.reading() matches Some(raw) ==> r == Ok::<u16, MoistureError>(raw),
            self.reading() is None ==> r == Err::<u16, MoistureError>(MoistureError::EspError()),
    {
        match self.last_raw {
            Some(raw) => Ok(raw),
            None => Err(MoistureError::EspError()),
        }
    }

    /// Moisture percentage in hundredths of a percent. Readings under the
    /// noise floor are rejected as a disconnected probe, never as 0 %.
    pub fn get_moisture_precentage(&self) -> (r: MoistureResult<u16>)
        ensures
            self.reading() is None ==> r == Err::<u16, MoistureError>(MoistureError::EspError()),
            self.reading() matches Some(raw) ==> raw < NOT_CONNECTED_LIMIT ==> r == Err::<
                u16,
                MoistureError,
            >(MoistureError::SensorNotConnected()),
            self.reading() matches Some(raw) ==> raw >= NOT_CONNECTED_LIMIT ==> (r matches Ok(p)
                && p == moisture_percent_hundredths(raw)),
    {
        let raw = match self.get_raw_moisture() {
            Ok(v) => v,
            Err(e) => {
                return Err(e);
            },
        };
        if raw < NOT_CONNECTED_LIMIT {
            return Err(MoistureError::SensorNotConnected());
        }
        if raw < MAX_DRY {
            return Ok(0);
        }
        if raw > MAX_WET {
            return Ok(10000);
        }
        let diff: u32 = (raw - MAX_DRY) as u32;
        proof {
            vstd::arithmetic::div_mod::lemma_div_is_ordered((diff * 100) as int, 150000, 15);
        }
        Ok(((diff * 100) / 15) as u16)
    }

    /// Soil condition band for the current reading; nothing when the probe
    /// is disconnected or no conversion has been supplied.
    pub fn get_soil_status(&self) -> (r: Option<SoilStatus>)
        ensures
            self.reading() matches Some(raw) ==> raw >= NOT_CONNECTED_LIMIT ==> r == Some(
                soil_status_of(moisture_percent_hundredths(raw)),
            ),
            (self.reading() is None || (self.reading() matches Some(raw) && raw
                < NOT_CONNECTED_LIMIT)) ==> r is None,
    {
        let percent = match self.get_moisture_precentage() {
            Ok(p) => p,
            Err(_) => {
                return None;
            },
        };
        if percent < 2000 {
            Some(SoilStatus::Dry)
        } else if percent < 4000 {
            Some(SoilStatus::Optimal)
        } else if percent < 5500 {
            Some(SoilStatus::Damp)
        } else {
            Some(SoilStatus::Wet)
        }
    }
}

/// The percentage map never leaves 0 ..= 100.00 % and is monotone in the
/// raw reading: wetter soil never reports a lower percentage.
pub proof fn lemma_moisture_percent_monotone(r1: u16, r2: u16)
    requires
        r1 <= r2,
    ensures
        0 <= moisture_percent_hundredths(r1) <= 10000,
        moisture_percent_hundredths(r1) <= moisture_percent_hundredths(r2),
{
    lemma_moisture_percent_range(r1);
    lemma_moisture_percent_range(r2);
    if MAX_DRY <= r1 <= MAX_WET && MAX_DRY <= r2 <= MAX_WET {
        vstd::arithmetic::div_mod::lemma_div_is_ordered(
            (r1 - MAX_DRY) * 100,
            (r2 - MAX_DRY) * 100,
            15,
        );
    }
}

/// The percentage map stays within 0 ..= 100.00 %.
pub proof fn lemma_moisture_percent_range(raw: u16)
    ensures
        0 <= moisture_percent_hundredths(raw) <= 10000,
{
    if MAX_DRY <= raw <= MAX_WET {
        vstd::arithmetic::div_mod::lemma_div_is_ordered(0, (raw - MAX_DRY) * 100, 15);
        vstd::arithmetic::div_mod::lemma_div_is_ordered((raw - MAX_DRY) * 100, 150000, 15);
    }
}

/// Band boundaries are inclusive below: a percentage exactly on a boundary
/// belongs to the higher band (20.00 % is already Optimal, 40.00 % already
/// Damp, 55.00 % already Wet).
pub proof fn lemma_soil_status_boundaries()
    ensures
        soil_status_of(1999) == SoilStatus::Dry,
        soil_status_of(2000) == SoilStatus::Optimal,
        soil_status_of(3999) == SoilStatus::Optimal,
        soil_status_of(4000) == SoilStatus::Damp,
        soil_status_of(5499) == SoilStatus::Damp,
        soil_status_of(5500) == SoilStatus::Wet,
{
}

} // verus!
