use vstd::prelude::*;

use crate::text::{occurs_in, str_contains};

verus! {

/// Column of the timestamp in an exported history file.
pub const MEASURED_AT_INDEX: usize = 0;

pub const TEMPERATURE_CELSIUS_INDEX: usize = 1;

pub const HUMIDITY_PERCENT_INDEX: usize = 2;

pub const CO2_PPM_INDEX: usize = 3;

pub const LIGHT_LEVEL_INDEX: usize = 6;

/// The column layouts of an exported history file.
#[derive(Debug, Clone, Copy, PartialEq, Eq, Structural)]
pub enum CsvFormat {
    TemperatureHumidity,
    TemperatureHumidityCo2,
    TemperatureHumidityLightLevel,
}

/// The layout that a header line announces: a CO2 column, else a light
/// column, else temperature and humidity alone.
pub open spec fn format_of(header: Seq<char>) -> CsvFormat {
    if occurs_in(header, "Co2"@) {
        CsvFormat::TemperatureHumidityCo2
    } else if occurs_in(header, "Light_Value"@) {
        CsvFormat::TemperatureHumidityLightLevel
    } else {
        CsvFormat::TemperatureHumidity
    }
}

pub fn detect_format(header: &str) -> (r: CsvFormat)
    ensures
        r == format_of(header@),
{
    if str_contains(header, "Co2") {
        return CsvFormat::TemperatureHumidityCo2;
    }
    if str_contains(header, "Light_Value") {
        return CsvFormat::TemperatureHumidityLightLevel;
    }
    CsvFormat::TemperatureHumidity
}

impl CsvFormat {
    /// The column holding CO2, where the layout has one.
    pub fn co2_column(&self) -> (r: Option<usize>)
        ensures
            r == (if *self == CsvFormat::TemperatureHumidityCo2 {
                Some(CO2_PPM_INDEX)
            } else {
                None::<usize>
            }),
    {
        match self {
            CsvFormat::TemperatureHumidityCo2 => Some(CO2_PPM_INDEX),
            _ => None,
        }
    }

    /// The column holding the light level, where the layout has one.
    pub fn light_level_column(&self) -> (r: Option<usize>)
        ensures
            r == (if *self == CsvFormat::TemperatureHumidityLightLevel {
                Some(LIGHT_LEVEL_INDEX)
            } else {
                None::<usize>
            }),
    {
        match self {
            CsvFormat::TemperatureHumidityLightLevel => Some(LIGHT_LEVEL_INDEX),
            _ => None,
        }
    }
}

} // verus!
