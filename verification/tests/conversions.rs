use weather_station::conversions::{
    battery_status, calculate_outdoor_temperature, convert_raw_rain_bucket_tips,
    convert_raw_temperature, convert_raw_wind_direction, convert_raw_wind_speed,
    heat_index_formula, wind_chill_applies, HeatIndexFormula, OutdoorTemperature,
};

#[test]
fn wind_speed_of_raw_zero_is_zero() {
    assert_eq!(convert_raw_wind_speed(0), 0);
}

#[test]
fn wind_speed_of_raw_ten_is_five() {
    assert_eq!(convert_raw_wind_speed(10), 5);
}

#[test]
fn wind_speed_exact_values() {
    assert_eq!(convert_raw_wind_speed(1), 1);
    assert_eq!(convert_raw_wind_speed(19), 10);
    assert_eq!(convert_raw_wind_speed(29), 15);
    assert_eq!(convert_raw_wind_speed(255), 131);
}

#[test]
fn wind_speed_agrees_with_the_decimal_formula() {
    for raw in 1..=255u8 {
        let mph = (((raw as f32 * 0.23) + 0.23) * 2.23694) as u8;
        assert_eq!(convert_raw_wind_speed(raw), mph, "raw {}", raw);
    }
}

#[test]
fn one_tip_is_a_hundredth_of_an_inch() {
    assert_eq!(convert_raw_rain_bucket_tips(0), 0);
    assert_eq!(convert_raw_rain_bucket_tips(100), 100);
    assert_eq!(convert_raw_rain_bucket_tips(u16::MAX), 65535);
}

#[test]
fn battery_text() {
    assert_eq!(battery_status(7), "OK");
    assert_eq!(battery_status(0), "REPLACE");
    assert_eq!(battery_status(6), "REPLACE");
    assert_eq!(battery_status(15), "REPLACE");
}

#[test]
fn compass_points() {
    let expected = [
        "NW", "WSW", "WNW", "W", "NNW", "SW", "N", "SSW", "ENE", "SE", "E", "ESE", "NE", "SSE",
        "NNE", "S",
    ];
    for (raw, name) in expected.iter().enumerate() {
        assert_eq!(convert_raw_wind_direction(raw as u8), *name);
    }
}

#[test]
fn raw_temperature_in_tenths() {
    assert_eq!(convert_raw_temperature(0), -400);
    assert_eq!(convert_raw_temperature(400), 0);
    assert_eq!(convert_raw_temperature(1188), 788);
    assert_eq!(convert_raw_temperature(u16::MAX), 65135);
}

#[test]
fn outdoor_temperature_rounds_towards_zero() {
    assert_eq!(
        calculate_outdoor_temperature(1188),
        OutdoorTemperature { fahrenheit: 78, celsius: 26 }
    );
    assert_eq!(
        calculate_outdoor_temperature(395),
        OutdoorTemperature { fahrenheit: 0, celsius: -18 }
    );
    assert_eq!(
        calculate_outdoor_temperature(385),
        OutdoorTemperature { fahrenheit: -1, celsius: -18 }
    );
    assert_eq!(
        calculate_outdoor_temperature(0),
        OutdoorTemperature { fahrenheit: -40, celsius: -40 }
    );
    assert_eq!(
        calculate_outdoor_temperature(720),
        OutdoorTemperature { fahrenheit: 32, celsius: 0 }
    );
}

#[test]
fn outdoor_temperature_agrees_with_the_decimal_formula() {
    for raw in 0..2048u16 {
        let fahrenheit = (raw as f32 / 10.0) - 40.0;
        let celsius = (fahrenheit - 32.0) * 0.5556;
        let temperature = calculate_outdoor_temperature(raw);
        assert_eq!(temperature.fahrenheit, fahrenheit as i16, "raw {}", raw);
        assert_eq!(temperature.celsius, celsius as i16, "raw {}", raw);
    }
}

#[test]
fn heat_index_formula_by_temperature_and_humidity() {
    assert_eq!(heat_index_formula(1199, 50), HeatIndexFormula::Simple);
    assert_eq!(heat_index_formula(1199, 5), HeatIndexFormula::Simple);
    assert_eq!(heat_index_formula(1200, 50), HeatIndexFormula::Regression);
    assert_eq!(heat_index_formula(1300, 50), HeatIndexFormula::Regression);
    assert_eq!(heat_index_formula(1200, 12), HeatIndexFormula::RegressionLowHumidity);
    assert_eq!(heat_index_formula(1520, 12), HeatIndexFormula::RegressionLowHumidity);
    assert_eq!(heat_index_formula(1521, 12), HeatIndexFormula::Regression);
    assert_eq!(heat_index_formula(1200, 13), HeatIndexFormula::Regression);
    assert_eq!(heat_index_formula(1200, 86), HeatIndexFormula::RegressionHighHumidity);
    assert_eq!(heat_index_formula(1270, 86), HeatIndexFormula::RegressionHighHumidity);
    assert_eq!(heat_index_formula(1271, 86), HeatIndexFormula::Regression);
    assert_eq!(heat_index_formula(1270, 85), HeatIndexFormula::Regression);
}

#[test]
fn wind_chill_needs_wind_and_cold() {
    assert!(wind_chill_applies(4, 799));
    assert!(!wind_chill_applies(3, 799));
    assert!(!wind_chill_applies(4, 800));
    assert!(wind_chill_applies(131, 0));
}
