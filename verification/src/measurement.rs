//! The readings that the weather station emits.

use vstd::prelude::*;

verus! {

/// One reading of the station. Rainfall is in hundredths of an inch and
/// pressure in thousandths of an inch of mercury; temperatures are whole
/// degrees Fahrenheit, humidity is in percent.
#[derive(Clone, Debug, PartialEq, Eq)]
pub enum Measurement {
    BatteryStatus(String),
    ChannelNumber(u8),
    ProductId(u16),
    CurrentWindSpeedMph(u8),
    AverageWindSpeedMph(u8),
    PeakWindSpeedMph(u8),
    WindDirection(String),
    DailyRainfall(u32),
    MonthlyRainfall(u32),
    YearlyRainfall(u32),
    OutdoorTemperature(i16),
    OutdoorHumidity(u8),
    OutdoorHeatIndex(i16),
    OutdoorWindchill(i16),
    OutdoorDewpoint(i16),
    IndoorTemperature(i16),
    IndoorHumidity(u8),
    IndoorPressure(u32),
}

/// A reading as a mathematical value: texts are sequences of characters.
pub enum MeasurementView {
    BatteryStatus(Seq<char>),
    ChannelNumber(u8),
    ProductId(u16),
    CurrentWindSpeedMph(u8),
    AverageWindSpeedMph(u8),
    PeakWindSpeedMph(u8),
    WindDirection(Seq<char>),
    DailyRainfall(u32),
    MonthlyRainfall(u32),
    YearlyRainfall(u32),
    OutdoorTemperature(i16),
    OutdoorHumidity(u8),
    OutdoorHeatIndex(i16),
    OutdoorWindchill(i16),
    OutdoorDewpoint(i16),
    IndoorTemperature(i16),
    IndoorHumidity(u8),
    IndoorPressure(u32),
}

impl View for Measurement {
    type V = MeasurementView;

    open spec fn view(&self) -> MeasurementView {
        match *self {
            Measurement::BatteryStatus(s) => MeasurementView::BatteryStatus(s@),
            Measurement::ChannelNumber(v) => MeasurementView::ChannelNumber(v),
            Measurement::ProductId(v) => MeasurementView::ProductId(v),
            Measurement::CurrentWindSpeedMph(v) => MeasurementView::CurrentWindSpeedMph(v),
            Measurement::AverageWindSpeedMph(v) => MeasurementView::AverageWindSpeedMph(v),
            Measurement::PeakWindSpeedMph(v) => MeasurementView::PeakWindSpeedMph(v),
            Measurement::WindDirection(s) => MeasurementView::WindDirection(s@),
            Measurement::DailyRainfall(v) => MeasurementView::DailyRainfall(v),
            Measurement::MonthlyRainfall(v) => MeasurementView::MonthlyRainfall(v),
            Measurement::YearlyRainfall(v) => MeasurementView::YearlyRainfall(v),
            Measurement::OutdoorTemperature(v) => MeasurementView::OutdoorTemperature(v),
            Measurement::OutdoorHumidity(v) => MeasurementView::OutdoorHumidity(v),
            Measurement::OutdoorHeatIndex(v) => MeasurementView::OutdoorHeatIndex(v),
            Measurement::OutdoorWindchill(v) => MeasurementView::OutdoorWindchill(v),
            Measurement::OutdoorDewpoint(v) => MeasurementView::OutdoorDewpoint(v),
            Measurement::IndoorTemperature(v) => MeasurementView::IndoorTemperature(v),
            Measurement::IndoorHumidity(v) => MeasurementView::IndoorHumidity(v),
            Measurement::IndoorPressure(v) => MeasurementView::IndoorPressure(v),
        }
    }
}

/// The readings of a list, each as a mathematical value.
pub open spec fn views(readings: Seq<Measurement>) -> Seq<MeasurementView> {
    Seq::new(readings.len(), |i: int| readings[i]@)
}

/// Appends one reading to the list of emitted readings.
pub fn emit(out: &mut Vec<Measurement>, reading: Measurement)
    ensures
        views(final(out)@) == views(old(out)@).push(reading@),
{
    out.push(reading);
    proof {
        assert(views(out@) =~= views(old(out)@).push(reading@));
    }
}

} // verus!
