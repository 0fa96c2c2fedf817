//! What holds of the measurement engine whatever it is fed.

use vstd::prelude::*;
use crate::message::{Acurite5n1Message, MessageHeader};
use crate::scheduler::TimeEvent;
use crate::weather_station::{
    spec_accepts, spec_mean, spec_process_bme280, spec_process_header, spec_process_message,
    spec_process_rain_bucket_tips, spec_process_temperature_humidity_wind_speed,
    spec_process_time_event, spec_process_wind_direction, spec_process_wind_speed,
    spec_rain_accepts, spec_sum, lemma_sum_bound, IndoorSample, LastRainfall, OutdoorIndices,
    StationView,
};
use crate::measurement::MeasurementView;

verus! {

/// Once a count was seen, a later count adds the tips since then, one
/// hundredth of an inch each, to the daily, the monthly and the yearly
/// total alike.
pub proof fn lemma_rain_accumulates(s: StationView, rain_bucket_tips: u16)
    requires
        s.raw.rain_bucket_tips != u16::MAX,
        spec_rain_accepts(s, rain_bucket_tips),
    ensures
        ({
            let after = spec_process_rain_bucket_tips(s, rain_bucket_tips).0;
            let delta = rain_bucket_tips - s.raw.rain_bucket_tips;
            &&& after.rainfall.daily == s.rainfall.daily + delta
            &&& after.rainfall.monthly == s.rainfall.monthly + delta
            &&& after.rainfall.yearly == s.rainfall.yearly + delta
            &&& after.raw.rain_bucket_tips == rain_bucket_tips
        }),
{
}

/// The first count that the station sees adds no rain and is not emitted.
pub proof fn lemma_first_rain_count_seeds(s: StationView, rain_bucket_tips: u16)
    requires
        s.raw.rain_bucket_tips == u16::MAX,
    ensures
        spec_process_rain_bucket_tips(s, rain_bucket_tips).1 == Seq::<MeasurementView>::empty(),
        spec_process_rain_bucket_tips(s, rain_bucket_tips).0.rainfall == s.rainfall,
        spec_process_rain_bucket_tips(s, rain_bucket_tips).0.raw.rain_bucket_tips
            == rain_bucket_tips,
{
}

/// A new day, month or year sets its own total to zero and leaves the two
/// others, and all else, as they were.
pub proof fn lemma_boundary_resets_one_total(s: StationView, sample: Option<IndoorSample>)
    ensures
        spec_process_time_event(s, TimeEvent::NewDay, sample).0 == (StationView {
            rainfall: LastRainfall { daily: 0, ..s.rainfall },
            ..s
        }),
        spec_process_time_event(s, TimeEvent::NewMonth, sample).0 == (StationView {
            rainfall: LastRainfall { monthly: 0, ..s.rainfall },
            ..s
        }),
        spec_process_time_event(s, TimeEvent::NewYear, sample).0 == (StationView {
            rainfall: LastRainfall { yearly: 0, ..s.rainfall },
            ..s
        }),
{
}

/// At the two-minute boundary, and without an indoor sample, exactly the
/// mean of the collected wind speeds is emitted, which is no more than the
/// largest wind speed can be, and the collection is empty afterwards.
pub proof fn lemma_average_wind_speed(s: StationView)
    ensures
        spec_process_time_event(s, TimeEvent::TwoMinutesElapsed, None).1 == seq![
            MeasurementView::AverageWindSpeedMph(spec_mean(s.wind_speeds_mph) as u8),
        ],
        spec_process_time_event(s, TimeEvent::TwoMinutesElapsed, None).0 == (StationView {
            wind_speeds_mph: Seq::empty(),
            ..s
        }),
        0 <= spec_mean(s.wind_speeds_mph) <= 255,
        s.wind_speeds_mph.len() == 0 ==> spec_mean(s.wind_speeds_mph) == 0,
{
    lemma_sum_bound(s.wind_speeds_mph);
    let total = spec_sum(s.wind_speeds_mph);
    let n = s.wind_speeds_mph.len() as int;
    if n > 0 {
        assert(0 <= total / n <= 255) by (nonlinear_arith)
            requires
                0 <= total <= 255 * n,
                n > 0,
        ;
    }
    assert(spec_process_time_event(s, TimeEvent::TwoMinutesElapsed, None).1 =~= seq![
        MeasurementView::AverageWindSpeedMph(spec_mean(s.wind_speeds_mph) as u8),
    ]);
}

/// A raw value that equals the one seen last emits nothing and changes
/// nothing, field by field.
pub proof fn lemma_unchanged_field_is_silent(s: StationView)
    ensures
        spec_process_header(
            s,
            MessageHeader {
                channel_number: s.raw.channel,
                report_number: 0,
                product_id: s.raw.product_id,
                status: s.raw.status,
            },
        ) == (s, Seq::<MeasurementView>::empty()),
        spec_process_wind_speed(s, s.raw.wind_speed) == (s, Seq::<MeasurementView>::empty()),
        spec_process_wind_direction(s, s.raw.wind_direction) == (
            s,
            Seq::<MeasurementView>::empty(),
        ),
        spec_process_rain_bucket_tips(s, s.raw.rain_bucket_tips) == (
            s,
            Seq::<MeasurementView>::empty(),
        ),
{
    assert(spec_process_header(
        s,
        MessageHeader {
            channel_number: s.raw.channel,
            report_number: 0,
            product_id: s.raw.product_id,
            status: s.raw.status,
        },
    ).1 =~= Seq::<MeasurementView>::empty());
}

/// A report that is delivered a second time, right after the first, emits
/// nothing and changes nothing, whatever the indices that come with it.
pub proof fn lemma_redelivery_is_silent(
    s: StationView,
    message: Acurite5n1Message,
    first: OutdoorIndices,
    second: OutdoorIndices,
)
    ensures
        spec_process_message(spec_process_message(s, message, first).0, message, second) == (
            spec_process_message(s, message, first).0,
            Seq::<MeasurementView>::empty(),
        ),
{
    let once = spec_process_message(s, message, first).0;
    let twice = spec_process_message(once, message, second);
    match message {
        Acurite5n1Message::Type1(m) => {
            let header = spec_process_header(once, m.header);
            assert(header.1 =~= Seq::<MeasurementView>::empty());
            assert(header.0 == once);
            assert(twice.1 =~= Seq::<MeasurementView>::empty());
        },
        Acurite5n1Message::Type8(m) => {
            let header = spec_process_header(once, m.header);
            assert(header.1 =~= Seq::<MeasurementView>::empty());
            assert(header.0 == once);
            let climate = spec_process_temperature_humidity_wind_speed(
                once,
                m.temperature,
                m.humidity,
                m.wind_speed,
                second,
            );
            assert(climate.1 =~= Seq::<MeasurementView>::empty());
            assert(twice.1 =~= Seq::<MeasurementView>::empty());
        },
    }
}

/// A report that was just taken in can always be taken in again.
pub proof fn lemma_redelivery_is_accepted(
    s: StationView,
    message: Acurite5n1Message,
    indices: OutdoorIndices,
)
    requires
        spec_accepts(s, message),
    ensures
        spec_accepts(spec_process_message(s, message, indices).0, message),
{
}

/// An indoor sample that is delivered a second time emits nothing and
/// changes nothing.
pub proof fn lemma_indoor_redelivery_is_silent(s: StationView, sample: Option<IndoorSample>)
    ensures
        spec_process_bme280(spec_process_bme280(s, sample).0, sample) == (
            spec_process_bme280(s, sample).0,
            Seq::<MeasurementView>::empty(),
        ),
{
    let once = spec_process_bme280(s, sample).0;
    assert(spec_process_bme280(once, sample).1 =~= Seq::<MeasurementView>::empty());
}

} // verus!
