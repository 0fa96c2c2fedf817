//! Conversions from the sensor's raw numbers to weather units.

use vstd::prelude::*;

verus! {

/// A heat index in whole degrees.
#[derive(Clone, Copy, Debug, PartialEq, Eq, Structural)]
pub struct HeatIndex {
    pub fahrenheit: i16,
    pub celsius: i16,
}

/// A wind chill in whole degrees.
#[derive(Clone, Copy, Debug, PartialEq, Eq, Structural)]
pub struct Windchill {
    pub fahrenheit: i16,
    pub celsius: i16,
}

/// A dew point in whole degrees.
#[derive(Clone, Copy, Debug, PartialEq, Eq, Structural)]
pub struct Dewpoint {
    pub fahrenheit: i16,
    pub celsius: i16,
}

/// An outdoor temperature in whole degrees.
#[derive(Clone, Copy, Debug, PartialEq, Eq, Structural)]
pub struct OutdoorTemperature {
    pub fahrenheit: i16,
    pub celsius: i16,
}

/// Status value that a sensor with a good battery reports.
pub const STATUS_BATTERY_OK: u8 = 7;

/// The quotient of `a` by a positive `b`, rounded towards zero.
pub open spec fn div_toward_zero(a: int, b: int) -> int
    recommends
        b > 0,
{
    if a >= 0 {
        a / b
    } else {
        -((-a) / b)
    }
}

/// Wind speed in miles per hour: zero for a raw zero, and for any other raw
/// value the whole part of `(raw * 0.23 + 0.23) * 2.23694`. In whole
/// numbers that product is `(raw + 1) * 23 * 223694` ten-millionths.
pub open spec fn spec_wind_speed_mph(raw_wind_speed: u8) -> int {
    if raw_wind_speed == 0 {
        0
    } else {
        ((raw_wind_speed + 1) * 23 * 223694) / 10_000_000
    }
}

/// Converts a raw wind speed to miles per hour.
pub fn convert_raw_wind_speed(raw_wind_speed: u8) -> (mph: u8)
    ensures
        mph == spec_wind_speed_mph(raw_wind_speed),
        mph <= 131,
{
    if raw_wind_speed == 0 {
        0
    } else {
        let steps: u32 = raw_wind_speed as u32 + 1;
        let ten_millionths: u32 = steps * 23 * 223694;
        (ten_millionths / 10_000_000) as u8
    }
}

/// Rainfall in hundredths of an inch for a number of tips of the bucket:
/// one tip is a hundredth of an inch.
pub open spec fn spec_rainfall_hundredths(rain_bucket_tips: u16) -> int {
    rain_bucket_tips as int
}

/// Converts a number of bucket tips to rainfall in hundredths of an inch.
pub fn convert_raw_rain_bucket_tips(rain_bucket_tips: u16) -> (hundredths: u32)
    ensures
        hundredths == spec_rainfall_hundredths(rain_bucket_tips),
{
    rain_bucket_tips as u32
}

/// The text for the battery: "OK" for status 7, else "REPLACE".
pub open spec fn spec_battery_status(status: u8) -> Seq<char> {
    if status == STATUS_BATTERY_OK {
        "OK"@
    } else {
        "REPLACE"@
    }
}

/// The text that tells the state of the battery.
pub fn battery_status(status: u8) -> (text: String)
    ensures
        text@ == spec_battery_status(status),
{
    if status == STATUS_BATTERY_OK {
        "OK".to_owned()
    } else {
        "REPLACE".to_owned()
    }
}

/// The compass point for each of the 16 raw wind directions.
pub open spec fn spec_wind_direction(wind_direction: u8) -> Seq<char>
    recommends
        wind_direction < 16,
{
    if wind_direction == 0 {
        "NW"@
    } else if wind_direction == 1 {
        "WSW"@
    } else if wind_direction == 2 {
        "WNW"@
    } else if wind_direction == 3 {
        "W"@
    } else if wind_direction == 4 {
        "NNW"@
    } else if wind_direction == 5 {
        "SW"@
    } else if wind_direction == 6 {
        "N"@
    } else if wind_direction == 7 {
        "SSW"@
    } else if wind_direction == 8 {
        "ENE"@
    } else if wind_direction == 9 {
        "SE"@
    } else if wind_direction == 10 {
        "E"@
    } else if wind_direction == 11 {
        "ESE"@
    } else if wind_direction == 12 {
        "NE"@
    } else if wind_direction == 13 {
        "SSE"@
    } else if wind_direction == 14 {
        "NNE"@
    } else {
        "S"@
    }
}

/// Converts a raw wind direction to its compass point.
pub fn convert_raw_wind_direction(wind_direction: u8) -> (text: String)
    requires
        wind_direction < 16,
    ensures
        text@ == spec_wind_direction(wind_direction),
{
    let direction: [&'static str; 16] = [
        "NW",
        "WSW",
        "WNW",
        "W",
        "NNW",
        "SW",
        "N",
        "SSW",
        "ENE",
        "SE",
        "E",
        "ESE",
        "NE",
        "SSE",
        "NNE",
        "S",
    ];
    direction[wind_direction as usize].to_owned()
}

/// Outdoor temperature in tenths of a degree Fahrenheit: the raw value is
/// in tenths of a degree, 40 degrees above the temperature.
pub open spec fn spec_temperature_tenths(raw_temperature: u16) -> int {
    raw_temperature - 400
}

/// Converts a raw temperature to tenths of a degree Fahrenheit.
pub fn convert_raw_temperature(raw_temperature: u16) -> (tenths: i32)
    ensures
        tenths == spec_temperature_tenths(raw_temperature),
{
    raw_temperature as i32 - 400
}

/// The outdoor temperature in whole degrees, rounded towards zero: in
/// Fahrenheit, and in Celsius as `(fahrenheit - 32) * 0.5556`.
pub open spec fn spec_outdoor_temperature(raw_temperature: u16) -> OutdoorTemperature {
    OutdoorTemperature {
        fahrenheit: div_toward_zero(spec_temperature_tenths(raw_temperature), 10) as i16,
        celsius: div_toward_zero((spec_temperature_tenths(raw_temperature) - 320) * 5556, 100_000)
            as i16,
    }
}

/// Divides by a positive number and rounds towards zero.
fn divide_toward_zero(a: i32, b: i32) -> (q: i32)
    requires
        b > 0,
        a > i32::MIN,
    ensures
        q == div_toward_zero(a as int, b as int),
{
    if a >= 0 {
        a / b
    } else {
        -((-a) / b)
    }
}

/// The outdoor temperature in whole degrees for a raw temperature.
pub fn calculate_outdoor_temperature(raw_temperature: u16) -> (temperature: OutdoorTemperature)
    ensures
        temperature == spec_outdoor_temperature(raw_temperature),
        -40 <= temperature.fahrenheit <= 6513,
{
    let tenths: i32 = convert_raw_temperature(raw_temperature);
    let fahrenheit: i32 = divide_toward_zero(tenths, 10);
    let celsius: i32 = divide_toward_zero((tenths - 320) * 5556, 100_000);
    OutdoorTemperature { fahrenheit: fahrenheit as i16, celsius: celsius as i16 }
}

/// Which formula gives the heat index at a temperature and humidity.
#[derive(Clone, Copy, Debug, PartialEq, Eq, Structural)]
pub enum HeatIndexFormula {
    /// Below 80 degrees Fahrenheit: the simple average formula.
    Simple,
    /// From 80 degrees on: the regression, as it stands.
    Regression,
    /// The regression with the correction for dry air.
    RegressionLowHumidity,
    /// The regression with the correction for humid air.
    RegressionHighHumidity,
}

/// The regression holds from 80 degrees Fahrenheit on; below, the simple
/// formula. The correction for dry air applies up to 112 degrees where the
/// humidity is under 13 percent, the one for humid air up to 87 degrees
/// where the humidity is over 85 percent.
pub open spec fn spec_heat_index_formula(raw_temperature: u16, humidity: u8) -> HeatIndexFormula {
    let tenths = spec_temperature_tenths(raw_temperature);
    if tenths < 800 {
        HeatIndexFormula::Simple
    } else if tenths <= 1120 && humidity < 13 {
        HeatIndexFormula::RegressionLowHumidity
    } else if tenths <= 870 && humidity > 85 {
        HeatIndexFormula::RegressionHighHumidity
    } else {
        HeatIndexFormula::Regression
    }
}

/// Chooses the formula for the heat index.
pub fn heat_index_formula(raw_temperature: u16, humidity: u8) -> (formula: HeatIndexFormula)
    ensures
        formula == spec_heat_index_formula(raw_temperature, humidity),
{
    let tenths: i32 = convert_raw_temperature(raw_temperature);
    if tenths < 800 {
        HeatIndexFormula::Simple
    } else if tenths <= 1120 && humidity < 13 {
        HeatIndexFormula::RegressionLowHumidity
    } else if tenths <= 870 && humidity > 85 {
        HeatIndexFormula::RegressionHighHumidity
    } else {
        HeatIndexFormula::Regression
    }
}

/// Wind chill differs from the temperature only where the wind is over
/// 3 miles per hour and the temperature under 40 degrees Fahrenheit.
pub open spec fn spec_wind_chill_applies(wind_speed_mph: u8, raw_temperature: u16) -> bool {
    wind_speed_mph > 3 && spec_temperature_tenths(raw_temperature) < 400
}

/// Whether the wind chill formula applies.
pub fn wind_chill_applies(wind_speed_mph: u8, raw_temperature: u16) -> (applies: bool)
    ensures
        applies == spec_wind_chill_applies(wind_speed_mph, raw_temperature),
{
    wind_speed_mph > 3 && convert_raw_temperature(raw_temperature) < 400
}

} // verus!
