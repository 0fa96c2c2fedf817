//! The measurement engine: it keeps the last raw values, the rainfall
//! totals and the wind samples, and emits a reading for whatever changed.

use vstd::prelude::*;
use crate::conversions::{
    battery_status, calculate_outdoor_temperature, convert_raw_rain_bucket_tips,
    convert_raw_wind_direction, convert_raw_wind_speed, spec_battery_status,
    spec_outdoor_temperature, spec_rainfall_hundredths, spec_wind_chill_applies,
    spec_wind_direction, spec_wind_speed_mph, wind_chill_applies, Dewpoint, HeatIndex, Windchill,
};
use crate::measurement::{emit, views, Measurement, MeasurementView};
use crate::message::{Acurite5n1Message, MessageHeader};
use crate::scheduler::TimeEvent;

verus! {

/// Rainfall totals in hundredths of an inch.
#[derive(Clone, Copy, Debug, PartialEq, Eq, Structural)]
pub struct LastRainfall {
    pub daily: u32,
    pub monthly: u32,
    pub yearly: u32,
}

/// The indoor values that were emitted last, in tenths.
#[derive(Clone, Copy, Debug, PartialEq, Eq, Structural)]
pub struct LastIndoorSample {
    pub temperaturex10: i16,
    pub humidityx10: u16,
    pub pressurex10: u32,
}

/// The raw values that were seen last. A field that was never seen holds
/// the largest value of its type.
#[derive(Clone, Copy, Debug, PartialEq, Eq, Structural)]
pub struct LastRawMeasurement {
    pub channel: u8,
    pub product_id: u16,
    pub status: u8,
    pub wind_speed: u8,
    pub wind_direction: u8,
    pub rain_bucket_tips: u16,
    pub humidity: u8,
    pub temperature: u16,
}

/// The snapshot in which no field was seen yet.
pub open spec fn unseen() -> LastRawMeasurement {
    LastRawMeasurement {
        channel: u8::MAX,
        product_id: u16::MAX,
        status: u8::MAX,
        wind_speed: u8::MAX,
        wind_direction: u8::MAX,
        rain_bucket_tips: u16::MAX,
        humidity: u8::MAX,
        temperature: u16::MAX,
    }
}

impl Default for LastRawMeasurement {
    fn default() -> (raw: LastRawMeasurement)
        ensures
            raw == unseen(),
    {
        LastRawMeasurement {
            channel: u8::MAX,
            product_id: u16::MAX,
            status: u8::MAX,
            wind_speed: u8::MAX,
            wind_direction: u8::MAX,
            rain_bucket_tips: u16::MAX,
            humidity: u8::MAX,
            temperature: u16::MAX,
        }
    }
}

impl Default for LastRainfall {
    fn default() -> (rainfall: LastRainfall)
        ensures
            rainfall == (LastRainfall { daily: 0, monthly: 0, yearly: 0 }),
    {
        LastRainfall { daily: 0, monthly: 0, yearly: 0 }
    }
}

impl Default for LastIndoorSample {
    fn default() -> (sample: LastIndoorSample)
        ensures
            sample == (LastIndoorSample { temperaturex10: 0, humidityx10: 0, pressurex10: 0 }),
    {
        LastIndoorSample { temperaturex10: 0, humidityx10: 0, pressurex10: 0 }
    }
}

/// The indices that are derived from temperature, humidity and wind speed
/// of one wind and climate report.
#[derive(Clone, Copy, Debug, PartialEq, Eq, Structural)]
pub struct OutdoorIndices {
    pub heat_index: HeatIndex,
    pub dew_point: Dewpoint,
    pub wind_chill: Windchill,
}

/// One sample of the indoor sensor: each value in tenths, as it is held
/// against the value emitted last, and as it is emitted. The pressure to
/// emit is the pressure at sea level in thousandths of an inch of mercury.
#[derive(Clone, Copy, Debug, PartialEq, Eq, Structural)]
pub struct IndoorSample {
    pub temperaturex10: i16,
    pub humidityx10: u16,
    pub pressurex10: u32,
    pub temperature_fahrenheit: i16,
    pub humidity: u8,
    pub sea_level_pressure: u32,
}

/// The state of the measurement engine.
#[derive(Debug)]
pub struct WeatherStation {
    pub last_raw_measurement: LastRawMeasurement,
    pub last_peak_wind_speed_mph: u8,
    pub last_rainfall: LastRainfall,
    pub collected_wind_speeds_mph: Vec<u8>,
    pub last_indoor_sample: LastIndoorSample,
}

/// The engine's state as a mathematical value.
pub struct StationView {
    pub raw: LastRawMeasurement,
    pub peak_wind_speed_mph: u8,
    pub rainfall: LastRainfall,
    pub wind_speeds_mph: Seq<u8>,
    pub indoor: LastIndoorSample,
}

impl View for WeatherStation {
    type V = StationView;

    open spec fn view(&self) -> StationView {
        StationView {
            raw: self.last_raw_measurement,
            peak_wind_speed_mph: self.last_peak_wind_speed_mph,
            rainfall: self.last_rainfall,
            wind_speeds_mph: self.collected_wind_speeds_mph@,
            indoor: self.last_indoor_sample,
        }
    }
}

/// The state of a station that has seen nothing yet.
pub open spec fn initial_station() -> StationView {
    StationView {
        raw: unseen(),
        peak_wind_speed_mph: 0,
        rainfall: LastRainfall { daily: 0, monthly: 0, yearly: 0 },
        wind_speeds_mph: Seq::empty(),
        indoor: LastIndoorSample { temperaturex10: 0, humidityx10: 0, pressurex10: 0 },
    }
}

/// The header's part of a report: channel, product id and battery status,
/// each emitted where it differs from the value seen last.
pub open spec fn spec_process_header(s: StationView, header: MessageHeader) -> (
    StationView,
    Seq<MeasurementView>,
) {
    let channel = if header.channel_number != s.raw.channel {
        seq![MeasurementView::ChannelNumber(header.channel_number)]
    } else {
        seq![]
    };
    let product = if header.product_id != s.raw.product_id {
        seq![MeasurementView::ProductId(header.product_id)]
    } else {
        seq![]
    };
    let battery = if header.status != s.raw.status {
        seq![MeasurementView::BatteryStatus(spec_battery_status(header.status))]
    } else {
        seq![]
    };
    (
        StationView {
            raw: LastRawMeasurement {
                channel: header.channel_number,
                product_id: header.product_id,
                status: header.status,
                ..s.raw
            },
            ..s
        },
        channel + product + battery,
    )
}

/// A wind speed that differs from the one seen last is converted, kept for
/// the average, emitted as a new peak where it exceeds the peak, and
/// emitted as the current wind speed.
pub open spec fn spec_process_wind_speed(s: StationView, wind_speed: u8) -> (
    StationView,
    Seq<MeasurementView>,
) {
    if wind_speed != s.raw.wind_speed {
        let mph = spec_wind_speed_mph(wind_speed) as u8;
        let is_peak = mph > s.peak_wind_speed_mph;
        (
            StationView {
                raw: LastRawMeasurement { wind_speed, ..s.raw },
                peak_wind_speed_mph: if is_peak {
                    mph
                } else {
                    s.peak_wind_speed_mph
                },
                wind_speeds_mph: s.wind_speeds_mph.push(mph),
                ..s
            },
            if is_peak {
                seq![
                    MeasurementView::PeakWindSpeedMph(mph),
                    MeasurementView::CurrentWindSpeedMph(mph),
                ]
            } else {
                seq![MeasurementView::CurrentWindSpeedMph(mph)]
            },
        )
    } else {
        (s, seq![])
    }
}

/// A wind direction that differs from the one seen last is emitted as its
/// compass point.
pub open spec fn spec_process_wind_direction(s: StationView, wind_direction: u8) -> (
    StationView,
    Seq<MeasurementView>,
) {
    if s.raw.wind_direction != wind_direction {
        (
            StationView { raw: LastRawMeasurement { wind_direction, ..s.raw }, ..s },
            seq![MeasurementView::WindDirection(spec_wind_direction(wind_direction))],
        )
    } else {
        (s, seq![])
    }
}

/// The tip counter that a new count is held against: the count itself when
/// none was seen before, else the count seen last.
pub open spec fn spec_rain_baseline(s: StationView, rain_bucket_tips: u16) -> u16 {
    if s.raw.rain_bucket_tips == u16::MAX {
        rain_bucket_tips
    } else {
        s.raw.rain_bucket_tips
    }
}

/// The counter did not run backwards, and the totals have room for the
/// rain that fell since the count seen last.
pub open spec fn spec_rain_accepts(s: StationView, rain_bucket_tips: u16) -> bool {
    let baseline = spec_rain_baseline(s, rain_bucket_tips);
    &&& baseline <= rain_bucket_tips
    &&& s.rainfall.daily + (rain_bucket_tips - baseline) <= u32::MAX
    &&& s.rainfall.monthly + (rain_bucket_tips - baseline) <= u32::MAX
    &&& s.rainfall.yearly + (rain_bucket_tips - baseline) <= u32::MAX
}

/// The first count only sets the baseline. A later count that differs adds
/// the rain of the tips since the last count to all three totals, which
/// are emitted.
pub open spec fn spec_process_rain_bucket_tips(s: StationView, rain_bucket_tips: u16) -> (
    StationView,
    Seq<MeasurementView>,
) {
    let baseline = spec_rain_baseline(s, rain_bucket_tips);
    if baseline != rain_bucket_tips {
        let rainfall = spec_rainfall_hundredths((rain_bucket_tips - baseline) as u16);
        let totals = LastRainfall {
            daily: (s.rainfall.daily + rainfall) as u32,
            monthly: (s.rainfall.monthly + rainfall) as u32,
            yearly: (s.rainfall.yearly + rainfall) as u32,
        };
        (
            StationView {
                raw: LastRawMeasurement { rain_bucket_tips, ..s.raw },
                rainfall: totals,
                ..s
            },
            seq![
                MeasurementView::DailyRainfall(totals.daily),
                MeasurementView::MonthlyRainfall(totals.monthly),
                MeasurementView::YearlyRainfall(totals.yearly),
            ],
        )
    } else {
        (StationView { raw: LastRawMeasurement { rain_bucket_tips, ..s.raw }, ..s }, seq![])
    }
}

/// Temperature, humidity and wind speed of a wind and climate report, in
/// this order: a changed temperature and a changed humidity are emitted;
/// the wind speed goes the way of any wind speed; heat index and dew point
/// follow where temperature or humidity changed; the wind chill follows
/// where wind speed or temperature changed, and is the temperature itself
/// unless the wind chill formula applies.
pub open spec fn spec_process_temperature_humidity_wind_speed(
    s: StationView,
    raw_temperature: u16,
    current_humidity: u8,
    raw_wind_speed: u8,
    indices: OutdoorIndices,
) -> (StationView, Seq<MeasurementView>) {
    let temperature_changed = s.raw.temperature != raw_temperature;
    let humidity_changed = s.raw.humidity != current_humidity;
    let wind_speed_changed = s.raw.wind_speed != raw_wind_speed;
    let ambient = spec_outdoor_temperature(raw_temperature).fahrenheit;
    let mph = spec_wind_speed_mph(raw_wind_speed) as u8;
    let seen = StationView {
        raw: LastRawMeasurement {
            temperature: raw_temperature,
            humidity: current_humidity,
            ..s.raw
        },
        ..s
    };
    let wind = spec_process_wind_speed(seen, raw_wind_speed);
    (
        wind.0,
        (if temperature_changed {
            seq![MeasurementView::OutdoorTemperature(ambient)]
        } else {
            seq![]
        }) + (if humidity_changed {
            seq![MeasurementView::OutdoorHumidity(current_humidity)]
        } else {
            seq![]
        }) + wind.1 + (if temperature_changed || humidity_changed {
            seq![
                MeasurementView::OutdoorHeatIndex(indices.heat_index.fahrenheit),
                MeasurementView::OutdoorDewpoint(indices.dew_point.fahrenheit),
            ]
        } else {
            seq![]
        }) + (if wind_speed_changed || temperature_changed {
            seq![
                MeasurementView::OutdoorWindchill(
                    if spec_wind_chill_applies(mph, raw_temperature) {
                        indices.wind_chill.fahrenheit
                    } else {
                        ambient
                    },
                ),
            ]
        } else {
            seq![]
        }),
    )
}

/// The sum of the wind speeds.
pub open spec fn spec_sum(speeds: Seq<u8>) -> int
    decreases speeds.len(),
{
    if speeds.len() == 0 {
        0
    } else {
        spec_sum(speeds.drop_last()) + speeds.last()
    }
}

/// The mean of the wind speeds, rounded down; zero where there is none.
pub open spec fn spec_mean(speeds: Seq<u8>) -> int {
    if speeds.len() == 0 {
        0
    } else {
        spec_sum(speeds) / (speeds.len() as int)
    }
}

/// The mean of the collected wind speeds is emitted, and the collection
/// starts anew.
pub open spec fn spec_update_average_wind_speed(s: StationView) -> (
    StationView,
    Seq<MeasurementView>,
) {
    (
        StationView { wind_speeds_mph: Seq::empty(), ..s },
        seq![MeasurementView::AverageWindSpeedMph(spec_mean(s.wind_speeds_mph) as u8)],
    )
}

/// Of an indoor sample, each of temperature, humidity and pressure is
/// emitted where its tenths differ from those emitted last. Without a
/// sample nothing happens.
pub open spec fn spec_process_bme280(s: StationView, sample: Option<IndoorSample>) -> (
    StationView,
    Seq<MeasurementView>,
) {
    match sample {
        Some(x) => (
            StationView {
                indoor: LastIndoorSample {
                    temperaturex10: x.temperaturex10,
                    humidityx10: x.humidityx10,
                    pressurex10: x.pressurex10,
                },
                ..s
            },
            (if s.indoor.temperaturex10 != x.temperaturex10 {
                seq![MeasurementView::IndoorTemperature(x.temperature_fahrenheit)]
            } else {
                seq![]
            }) + (if s.indoor.humidityx10 != x.humidityx10 {
                seq![MeasurementView::IndoorHumidity(x.humidity)]
            } else {
                seq![]
            }) + (if s.indoor.pressurex10 != x.pressurex10 {
                seq![MeasurementView::IndoorPressure(x.sea_level_pressure)]
            } else {
                seq![]
            }),
        ),
        None => (s, seq![]),
    }
}

/// Every two minutes the average wind speed is emitted and the indoor
/// sample is taken in. Every hour the peak wind speed starts anew from
/// zero, and nothing is emitted. A new day, month or year sets its rainfall
/// total to zero and emits it.
pub open spec fn spec_process_time_event(
    s: StationView,
    event: TimeEvent,
    sample: Option<IndoorSample>,
) -> (StationView, Seq<MeasurementView>) {
    match event {
        TimeEvent::TwoMinutesElapsed => {
            let average = spec_update_average_wind_speed(s);
            let indoor = spec_process_bme280(average.0, sample);
            (indoor.0, average.1 + indoor.1)
        },
        TimeEvent::OneHourElapsed => (StationView { peak_wind_speed_mph: 0, ..s }, seq![]),
        TimeEvent::NewDay => (
            StationView { rainfall: LastRainfall { daily: 0, ..s.rainfall }, ..s },
            seq![MeasurementView::DailyRainfall(0)],
        ),
        TimeEvent::NewMonth => (
            StationView { rainfall: LastRainfall { monthly: 0, ..s.rainfall }, ..s },
            seq![MeasurementView::MonthlyRainfall(0)],
        ),
        TimeEvent::NewYear => (
            StationView { rainfall: LastRainfall { yearly: 0, ..s.rainfall }, ..s },
            seq![MeasurementView::YearlyRainfall(0)],
        ),
    }
}

/// Whether the station can take in the message: a wind direction is one of
/// the 16 compass points, and the rain counter is acceptable.
pub open spec fn spec_accepts(s: StationView, message: Acurite5n1Message) -> bool {
    match message {
        Acurite5n1Message::Type1(m) => m.wind_direction < 16 && spec_rain_accepts(
            s,
            m.rain_bucket_tips,
        ),
        Acurite5n1Message::Type8(_) => true,
    }
}

/// A report is taken in part by part: the header, the wind speed, and then
/// wind direction and rain, or temperature, humidity and wind speed with
/// the indices derived from them. The indices are read for a wind and
/// climate report only.
pub open spec fn spec_process_message(
    s: StationView,
    message: Acurite5n1Message,
    indices: OutdoorIndices,
) -> (StationView, Seq<MeasurementView>) {
    match message {
        Acurite5n1Message::Type1(m) => {
            let header = spec_process_header(s, m.header);
            let wind = spec_process_wind_speed(header.0, m.wind_speed);
            let direction = spec_process_wind_direction(wind.0, m.wind_direction);
            let rain = spec_process_rain_bucket_tips(direction.0, m.rain_bucket_tips);
            (rain.0, header.1 + wind.1 + direction.1 + rain.1)
        },
        Acurite5n1Message::Type8(m) => {
            let header = spec_process_header(s, m.header);
            let wind = spec_process_wind_speed(header.0, m.wind_speed);
            let climate = spec_process_temperature_humidity_wind_speed(
                wind.0,
                m.temperature,
                m.humidity,
                m.wind_speed,
                indices,
            );
            (climate.0, header.1 + wind.1 + climate.1)
        },
    }
}

/// The time boundaries of `events` are taken in one after the other, each
/// with the indoor sample that was read for it.
pub open spec fn spec_process_time_events(
    s: StationView,
    events: Seq<(TimeEvent, Option<IndoorSample>)>,
) -> (StationView, Seq<MeasurementView>)
    decreases events.len(),
{
    if events.len() == 0 {
        (s, seq![])
    } else {
        let before = spec_process_time_events(s, events.drop_last());
        let last = spec_process_time_event(before.0, events.last().0, events.last().1);
        (last.0, before.1 + last.1)
    }
}

/// One cycle of the station: all the time boundaries that are pending,
/// then at most one report of the sensor.
pub open spec fn spec_run_cycle(
    s: StationView,
    events: Seq<(TimeEvent, Option<IndoorSample>)>,
    message: Option<(Acurite5n1Message, OutdoorIndices)>,
) -> (StationView, Seq<MeasurementView>) {
    let timed = spec_process_time_events(s, events);
    match message {
        Some(m) => {
            let reported = spec_process_message(timed.0, m.0, m.1);
            (reported.0, timed.1 + reported.1)
        },
        None => timed,
    }
}

impl WeatherStation {
    /// A station that has seen nothing yet.
    pub fn new() -> (station: WeatherStation)
        ensures
            station@ == initial_station(),
    {
        WeatherStation {
            last_raw_measurement: LastRawMeasurement::default(),
            last_peak_wind_speed_mph: 0,
            last_rainfall: LastRainfall::default(),
            collected_wind_speeds_mph: Vec::new(),
            last_indoor_sample: LastIndoorSample::default(),
        }
    }

    /// Takes in the header of a report.
    pub fn process_header(&mut self, header: MessageHeader, out: &mut Vec<Measurement>)
        ensures
            final(self)@ == spec_process_header(old(self)@, header).0,
            views(final(out)@) == views(old(out)@) + spec_process_header(old(self)@, header).1,
    {
        if header.channel_number != self.last_raw_measurement.channel {
            self.last_raw_measurement.channel = header.channel_number;
            emit(out, Measurement::ChannelNumber(header.channel_number));
        }
        if header.product_id != self.last_raw_measurement.product_id {
            self.last_raw_measurement.product_id = header.product_id;
            emit(out, Measurement::ProductId(header.product_id));
        }
        if header.status != self.last_raw_measurement.status {
            self.last_raw_measurement.status = header.status;
            emit(out, Measurement::BatteryStatus(battery_status(header.status)));
        }
        proof {
            assert(views(out@) =~= views(old(out)@) + spec_process_header(old(self)@, header).1);
        }
    }

    /// Takes in the raw wind speed of a report.
    pub fn process_wind_speed(&mut self, wind_speed: u8, out: &mut Vec<Measurement>)
        ensures
            final(self)@ == spec_process_wind_speed(old(self)@, wind_speed).0,
            views(final(out)@) == views(old(out)@) + spec_process_wind_speed(
                old(self)@,
                wind_speed,
            ).1,
    {
        if wind_speed != self.last_raw_measurement.wind_speed {
            self.last_raw_measurement.wind_speed = wind_speed;
            let current_wind_speed_mph: u8 = convert_raw_wind_speed(wind_speed);
            self.collected_wind_speeds_mph.push(current_wind_speed_mph);
            if current_wind_speed_mph > self.last_peak_wind_speed_mph {
                self.last_peak_wind_speed_mph = current_wind_speed_mph;
                emit(out, Measurement::PeakWindSpeedMph(current_wind_speed_mph));
            }
            emit(out, Measurement::CurrentWindSpeedMph(current_wind_speed_mph));
        }
        proof {
            assert(views(out@) =~= views(old(out)@) + spec_process_wind_speed(
                old(self)@,
                wind_speed,
            ).1);
        }
    }

    /// Takes in the raw wind direction of a report.
    pub fn process_wind_direction(&mut self, wind_direction: u8, out: &mut Vec<Measurement>)
        requires
            wind_direction < 16,
        ensures
            final(self)@ == spec_process_wind_direction(old(self)@, wind_direction).0,
            views(final(out)@) == views(old(out)@) + spec_process_wind_direction(
                old(self)@,
                wind_direction,
            ).1,
    {
        if self.last_raw_measurement.wind_direction != wind_direction {
            self.last_raw_measurement.wind_direction = wind_direction;
            emit(out, Measurement::WindDirection(convert_raw_wind_direction(wind_direction)));
        }
        proof {
            assert(views(out@) =~= views(old(out)@) + spec_process_wind_direction(
                old(self)@,
                wind_direction,
            ).1);
        }
    }

    /// Takes in the rain gauge's tip counter of a report.
    pub fn process_rain_bucket_tips(&mut self, rain_bucket_tips: u16, out: &mut Vec<Measurement>)
        requires
            spec_rain_accepts(old(self)@, rain_bucket_tips),
        ensures
            final(self)@ == spec_process_rain_bucket_tips(old(self)@, rain_bucket_tips).0,
            views(final(out)@) == views(old(out)@) + spec_process_rain_bucket_tips(
                old(self)@,
                rain_bucket_tips,
            ).1,
    {
        if self.last_raw_measurement.rain_bucket_tips == u16::MAX {
            self.last_raw_measurement.rain_bucket_tips = rain_bucket_tips;
        }
        if self.last_raw_measurement.rain_bucket_tips != rain_bucket_tips {
            let rainfall: u32 = convert_raw_rain_bucket_tips(
                rain_bucket_tips - self.last_raw_measurement.rain_bucket_tips,
            );
            self.last_raw_measurement.rain_bucket_tips = rain_bucket_tips;
            self.last_rainfall.daily += rainfall;
            emit(out, Measurement::DailyRainfall(self.last_rainfall.daily));
            self.last_rainfall.monthly += rainfall;
            emit(out, Measurement::MonthlyRainfall(self.last_rainfall.monthly));
            self.last_rainfall.yearly += rainfall;
            emit(out, Measurement::YearlyRainfall(self.last_rainfall.yearly));
        }
        proof {
            assert(views(out@) =~= views(old(out)@) + spec_process_rain_bucket_tips(
                old(self)@,
                rain_bucket_tips,
            ).1);
        }
    }

    /// Takes in temperature, humidity and wind speed of a wind and climate
    /// report, with the indices derived from them.
    pub fn process_temperature_humidity_wind_speed(
        &mut self,
        raw_temperature: u16,
        current_humidity: u8,
        raw_wind_speed: u8,
        indices: OutdoorIndices,
        out: &mut Vec<Measurement>,
    )
        ensures
            final(self)@ == spec_process_temperature_humidity_wind_speed(
                old(self)@,
                raw_temperature,
                current_humidity,
                raw_wind_speed,
                indices,
            ).0,
            views(final(out)@) == views(old(out)@) + spec_process_temperature_humidity_wind_speed(
                old(self)@,
                raw_temperature,
                current_humidity,
                raw_wind_speed,
                indices,
            ).1,
    {
        let current_wind_speed_mph: u8 = convert_raw_wind_speed(raw_wind_speed);
        let ambient: i16 = calculate_outdoor_temperature(raw_temperature).fahrenheit;
        let mut humidity_changed: bool = false;
        let mut temperature_changed: bool = false;
        let wind_speed_changed: bool = raw_wind_speed != self.last_raw_measurement.wind_speed;

        if self.last_raw_measurement.temperature != raw_temperature {
            temperature_changed = true;
            self.last_raw_measurement.temperature = raw_temperature;
            emit(out, Measurement::OutdoorTemperature(ambient));
        }
        if self.last_raw_measurement.humidity != current_humidity {
            humidity_changed = true;
            self.last_raw_measurement.humidity = current_humidity;
            emit(out, Measurement::OutdoorHumidity(current_humidity));
        }
        self.process_wind_speed(raw_wind_speed, out);
        if temperature_changed || humidity_changed {
            emit(out, Measurement::OutdoorHeatIndex(indices.heat_index.fahrenheit));
            emit(out, Measurement::OutdoorDewpoint(indices.dew_point.fahrenheit));
        }
        if wind_speed_changed || temperature_changed {
            if wind_chill_applies(current_wind_speed_mph, raw_temperature) {
                emit(out, Measurement::OutdoorWindchill(indices.wind_chill.fahrenheit));
            } else {
                emit(out, Measurement::OutdoorWindchill(ambient));
            }
        }
        proof {
            assert(views(out@) =~= views(old(out)@)
                + spec_process_temperature_humidity_wind_speed(
                old(self)@,
                raw_temperature,
                current_humidity,
                raw_wind_speed,
                indices,
            ).1);
        }
    }

    /// Takes in one sample of the indoor sensor, if there is one.
    pub fn process_bme280(&mut self, sample: Option<IndoorSample>, out: &mut Vec<Measurement>)
        ensures
            final(self)@ == spec_process_bme280(old(self)@, sample).0,
            views(final(out)@) == views(old(out)@) + spec_process_bme280(old(self)@, sample).1,
    {
        if let Some(x) = sample {
            if self.last_indoor_sample.temperaturex10 != x.temperaturex10 {
                self.last_indoor_sample.temperaturex10 = x.temperaturex10;
                emit(out, Measurement::IndoorTemperature(x.temperature_fahrenheit));
            }
            if self.last_indoor_sample.humidityx10 != x.humidityx10 {
                self.last_indoor_sample.humidityx10 = x.humidityx10;
                emit(out, Measurement::IndoorHumidity(x.humidity));
            }
            if self.last_indoor_sample.pressurex10 != x.pressurex10 {
                self.last_indoor_sample.pressurex10 = x.pressurex10;
                emit(out, Measurement::IndoorPressure(x.sea_level_pressure));
            }
        }
        proof {
            assert(views(out@) =~= views(old(out)@) + spec_process_bme280(old(self)@, sample).1);
        }
    }

    /// Emits the mean of the wind speeds collected since the last call and
    /// empties the collection.
    pub fn update_average_wind_speed(&mut self, out: &mut Vec<Measurement>)
        ensures
            final(self)@ == spec_update_average_wind_speed(old(self)@).0,
            views(final(out)@) == views(old(out)@) + spec_update_average_wind_speed(old(self)@).1,
    {
        let mut wind_speeds_mph_sum: u128 = 0;
        let items_collected: usize = self.collected_wind_speeds_mph.len();
        proof {
            lemma_sum_bound(self.collected_wind_speeds_mph@);
        }
        while !self.collected_wind_speeds_mph.is_empty()
            invariant
                self.collected_wind_speeds_mph@.len() <= items_collected,
                wind_speeds_mph_sum + spec_sum(self.collected_wind_speeds_mph@) == spec_sum(
                    old(self).collected_wind_speeds_mph@,
                ),
                0 <= spec_sum(self.collected_wind_speeds_mph@),
                spec_sum(old(self).collected_wind_speeds_mph@) <= 255 * items_collected,
                self.last_raw_measurement == old(self).last_raw_measurement,
                self.last_peak_wind_speed_mph == old(self).last_peak_wind_speed_mph,
                self.last_rainfall == old(self).last_rainfall,
                self.last_indoor_sample == old(self).last_indoor_sample,
            decreases self.collected_wind_speeds_mph@.len(),
        {
            let ghost before = self.collected_wind_speeds_mph@;
            let speed: u8 = self.collected_wind_speeds_mph.pop().unwrap();
            proof {
                assert(self.collected_wind_speeds_mph@ =~= before.drop_last());
                lemma_sum_bound(self.collected_wind_speeds_mph@);
            }
            wind_speeds_mph_sum += speed as u128;
        }
        let mut avg_wind_speed: u8 = 0;
        if items_collected != 0 {
            let mean: u128 = wind_speeds_mph_sum / (items_collected as u128);
            proof {
                let total = wind_speeds_mph_sum as int;
                let n = items_collected as int;
                assert(total / n <= 255) by (nonlinear_arith)
                    requires
                        0 <= total <= 255 * n,
                        n > 0,
                ;
            }
            avg_wind_speed = mean as u8;
        }
        proof {
            assert(self.collected_wind_speeds_mph@ =~= Seq::<u8>::empty());
        }
        emit(out, Measurement::AverageWindSpeedMph(avg_wind_speed));
        proof {
            assert(views(out@) =~= views(old(out)@) + spec_update_average_wind_speed(
                old(self)@,
            ).1);
        }
    }

    /// Takes in a time boundary. The indoor sample is read at the
    /// two-minute boundary only.
    pub fn process_time_event(
        &mut self,
        event: TimeEvent,
        sample: Option<IndoorSample>,
        out: &mut Vec<Measurement>,
    )
        ensures
            final(self)@ == spec_process_time_event(old(self)@, event, sample).0,
            views(final(out)@) == views(old(out)@) + spec_process_time_event(
                old(self)@,
                event,
                sample,
            ).1,
    {
        match event {
            TimeEvent::TwoMinutesElapsed => {
                self.update_average_wind_speed(out);
                self.process_bme280(sample, out);
            },
            TimeEvent::OneHourElapsed => {
                self.last_peak_wind_speed_mph = 0;
            },
            TimeEvent::NewDay => {
                self.last_rainfall.daily = 0;
                emit(out, Measurement::DailyRainfall(0));
            },
            TimeEvent::NewMonth => {
                self.last_rainfall.monthly = 0;
                emit(out, Measurement::MonthlyRainfall(0));
            },
            TimeEvent::NewYear => {
                self.last_rainfall.yearly = 0;
                emit(out, Measurement::YearlyRainfall(0));
            },
        }
        proof {
            assert(views(out@) =~= views(old(out)@) + spec_process_time_event(
                old(self)@,
                event,
                sample,
            ).1);
        }
    }

    /// Whether the station can take in the message.
    pub fn accepts(&self, message: &Acurite5n1Message) -> (accepted: bool)
        ensures
            accepted == spec_accepts(self@, *message),
    {
        match message {
            Acurite5n1Message::Type1(m) => {
                let baseline: u16 = if self.last_raw_measurement.rain_bucket_tips == u16::MAX {
                    m.rain_bucket_tips
                } else {
                    self.last_raw_measurement.rain_bucket_tips
                };
                if m.wind_direction < 16 && baseline <= m.rain_bucket_tips {
                    let delta: u32 = (m.rain_bucket_tips - baseline) as u32;
                    self.last_rainfall.daily <= u32::MAX - delta && self.last_rainfall.monthly
                        <= u32::MAX - delta && self.last_rainfall.yearly <= u32::MAX - delta
                } else {
                    false
                }
            },
            Acurite5n1Message::Type8(_) => true,
        }
    }

    /// Takes in one report of the sensor and appends the readings that it
    /// gives rise to.
    pub fn process_message(
        &mut self,
        message: Acurite5n1Message,
        indices: OutdoorIndices,
        out: &mut Vec<Measurement>,
    )
        requires
            spec_accepts(old(self)@, message),
        ensures
            final(self)@ == spec_process_message(old(self)@, message, indices).0,
            views(final(out)@) == views(old(out)@) + spec_process_message(
                old(self)@,
                message,
                indices,
            ).1,
    {
        match message {
            Acurite5n1Message::Type1(m) => {
                self.process_header(m.header, out);
                self.process_wind_speed(m.wind_speed, out);
                self.process_wind_direction(m.wind_direction, out);
                self.process_rain_bucket_tips(m.rain_bucket_tips, out);
            },
            Acurite5n1Message::Type8(m) => {
                self.process_header(m.header, out);
                self.process_wind_speed(m.wind_speed, out);
                self.process_temperature_humidity_wind_speed(
                    m.temperature,
                    m.humidity,
                    m.wind_speed,
                    indices,
                    out,
                );
            },
        }
        proof {
            assert(views(out@) =~= views(old(out)@) + spec_process_message(
                old(self)@,
                message,
                indices,
            ).1);
        }
    }
}

impl WeatherStation {
    /// Takes in one report of the sensor if the station can take it in, and
    /// says whether it did. A report that is not accepted changes nothing
    /// and emits nothing.
    pub fn try_process_message(
        &mut self,
        message: Acurite5n1Message,
        indices: OutdoorIndices,
        out: &mut Vec<Measurement>,
    ) -> (accepted: bool)
        ensures
            accepted == spec_accepts(old(self)@, message),
            accepted ==> final(self)@ == spec_process_message(old(self)@, message, indices).0
                && views(final(out)@) == views(old(out)@) + spec_process_message(
                old(self)@,
                message,
                indices,
            ).1,
            !accepted ==> final(self)@ == old(self)@ && final(out)@ == old(out)@,
    {
        if self.accepts(&message) {
            self.process_message(message, indices, out);
            true
        } else {
            false
        }
    }

    /// Runs one cycle: takes in all the pending time boundaries, in their
    /// order, and then the pending report of the sensor, if there is one.
    /// Time boundaries never wait for a report, and one report is taken in
    /// per cycle.
    pub fn run_cycle(
        &mut self,
        time_events: &Vec<(TimeEvent, Option<IndoorSample>)>,
        message: Option<(Acurite5n1Message, OutdoorIndices)>,
        out: &mut Vec<Measurement>,
    )
        requires
            message matches Some(m) ==> spec_accepts(old(self)@, m.0),
        ensures
            final(self)@ == spec_run_cycle(old(self)@, time_events@, message).0,
            views(final(out)@) == views(old(out)@) + spec_run_cycle(
                old(self)@,
                time_events@,
                message,
            ).1,
    {
        let mut i: usize = 0;
        while i < time_events.len()
            invariant
                0 <= i <= time_events.len(),
                self@ == spec_process_time_events(old(self)@, time_events@.take(i as int)).0,
                views(out@) == views(old(out)@) + spec_process_time_events(
                    old(self)@,
                    time_events@.take(i as int),
                ).1,
                message matches Some(m) ==> spec_accepts(self@, m.0),
            decreases time_events.len() - i,
        {
            let event: TimeEvent = time_events[i].0;
            let sample: Option<IndoorSample> = time_events[i].1;
            proof {
                assert(time_events@.take(i + 1).drop_last() =~= time_events@.take(i as int));
                if let Some(m) = message {
                    lemma_time_event_keeps_acceptance(self@, event, sample, m.0);
                }
            }
            self.process_time_event(event, sample, out);
            proof {
                assert(views(out@) =~= views(old(out)@) + spec_process_time_events(
                    old(self)@,
                    time_events@.take(i + 1),
                ).1);
            }
            i = i + 1;
        }
        proof {
            assert(time_events@.take(i as int) =~= time_events@);
        }
        if let Some(m) = message {
            self.process_message(m.0, m.1, out);
        }
        proof {
            assert(views(out@) =~= views(old(out)@) + spec_run_cycle(
                old(self)@,
                time_events@,
                message,
            ).1);
        }
    }
}

/// A report that the station accepts is still accepted after a time
/// boundary: the boundary leaves the rain counter alone, and no rainfall
/// total grows by it.
pub proof fn lemma_time_event_keeps_acceptance(
    s: StationView,
    event: TimeEvent,
    sample: Option<IndoorSample>,
    message: Acurite5n1Message,
)
    requires
        spec_accepts(s, message),
    ensures
        spec_accepts(spec_process_time_event(s, event, sample).0, message),
{
}

/// A sum of wind speeds is at least zero and at most 255 for each.
pub proof fn lemma_sum_bound(speeds: Seq<u8>)
    ensures
        0 <= spec_sum(speeds) <= 255 * speeds.len(),
    decreases speeds.len(),
{
    if speeds.len() > 0 {
        lemma_sum_bound(speeds.drop_last());
    }
}

} // verus!
