//! What the display is to show: which view, which value of which panel, and
//! the text of each reading.

use vstd::prelude::*;
use vstd::string::StringExecFns;
use crate::measurement::{Measurement, MeasurementView};
use crate::scheduler::{TimeDate, TimeDateView};
use crate::text::{
    decimal_text, signed_decimal_text, spec_decimal, spec_signed_decimal, spec_two_decimals,
    two_decimals_text,
};
use crate::user_buttons::UserBtnState;

verus! {

/// The three views of the display.
#[derive(Clone, Copy, Debug, PartialEq, Eq, Structural)]
pub enum ViewId {
    IndoorOutdoor,
    WindRainStatus,
    TimeDate,
}

/// The values of the wind panel.
#[derive(Clone, Copy, Debug, PartialEq, Eq, Structural)]
pub enum WindValueId {
    CurrentWindSpeed,
    AverageWindSpeed,
    PeakWindSpeed,
}

/// The values of the rain panel.
#[derive(Clone, Copy, Debug, PartialEq, Eq, Structural)]
pub enum RainValueId {
    DailyRainfall,
    MonthlyRainfall,
    YearlyRainfall,
}

/// The values of the status panel.
#[derive(Clone, Copy, Debug, PartialEq, Eq, Structural)]
pub enum StatusValueId {
    Battery,
    Channel,
    ProductId,
}

/// The values of the indoor panel.
#[derive(Clone, Copy, Debug, PartialEq, Eq, Structural)]
pub enum IndoorValueId {
    Pressure,
    Temperature,
    Humidity,
}

/// The values of the outdoor panel.
#[derive(Clone, Copy, Debug, PartialEq, Eq, Structural)]
pub enum OutdoorValueId {
    Humidity,
    Temperature,
    DewPoint,
    HeatIndex,
    WindChill,
}

/// The values of the time and date panel.
#[derive(Clone, Copy, Debug, PartialEq, Eq, Structural)]
pub enum TimeDateValueId {
    Time,
    Date,
}

/// The buttons of the navigation panel.
#[derive(Clone, Copy, Debug, PartialEq, Eq, Structural)]
pub enum NavigationButtonId {
    Previous,
    SetBtn,
    Next,
}

/// A value of a panel. Each names a label of its panel.
#[derive(Clone, Copy, Debug, PartialEq, Eq, Structural)]
pub enum ValueId {
    Status(StatusValueId),
    Wind(WindValueId),
    Rain(RainValueId),
    Outdoor(OutdoorValueId),
    Indoor(IndoorValueId),
    TimeDate(TimeDateValueId),
}

/// The place of a value's label among the labels of its panel. In the
/// panels with a header the labels come as header, then title and value in
/// turn, so the values stand at 2, 4, 6 and so on; the time and date panel
/// holds its two values alone.
pub open spec fn spec_label_index(id: ValueId) -> int {
    match id {
        ValueId::Status(StatusValueId::Battery) => 2,
        ValueId::Status(StatusValueId::Channel) => 4,
        ValueId::Status(StatusValueId::ProductId) => 6,
        ValueId::Wind(WindValueId::CurrentWindSpeed) => 2,
        ValueId::Wind(WindValueId::AverageWindSpeed) => 4,
        ValueId::Wind(WindValueId::PeakWindSpeed) => 6,
        ValueId::Rain(RainValueId::DailyRainfall) => 2,
        ValueId::Rain(RainValueId::MonthlyRainfall) => 4,
        ValueId::Rain(RainValueId::YearlyRainfall) => 6,
        ValueId::Outdoor(OutdoorValueId::Humidity) => 2,
        ValueId::Outdoor(OutdoorValueId::Temperature) => 4,
        ValueId::Outdoor(OutdoorValueId::DewPoint) => 6,
        ValueId::Outdoor(OutdoorValueId::HeatIndex) => 8,
        ValueId::Outdoor(OutdoorValueId::WindChill) => 10,
        ValueId::Indoor(IndoorValueId::Pressure) => 2,
        ValueId::Indoor(IndoorValueId::Temperature) => 4,
        ValueId::Indoor(IndoorValueId::Humidity) => 6,
        ValueId::TimeDate(TimeDateValueId::Time) => 0,
        ValueId::TimeDate(TimeDateValueId::Date) => 1,
    }
}

/// The place of a value's label among the labels of its panel.
pub fn label_index(id: ValueId) -> (index: usize)
    ensures
        index == spec_label_index(id),
{
    match id {
        ValueId::Status(StatusValueId::Battery) => 2,
        ValueId::Status(StatusValueId::Channel) => 4,
        ValueId::Status(StatusValueId::ProductId) => 6,
        ValueId::Wind(WindValueId::CurrentWindSpeed) => 2,
        ValueId::Wind(WindValueId::AverageWindSpeed) => 4,
        ValueId::Wind(WindValueId::PeakWindSpeed) => 6,
        ValueId::Rain(RainValueId::DailyRainfall) => 2,
        ValueId::Rain(RainValueId::MonthlyRainfall) => 4,
        ValueId::Rain(RainValueId::YearlyRainfall) => 6,
        ValueId::Outdoor(OutdoorValueId::Humidity) => 2,
        ValueId::Outdoor(OutdoorValueId::Temperature) => 4,
        ValueId::Outdoor(OutdoorValueId::DewPoint) => 6,
        ValueId::Outdoor(OutdoorValueId::HeatIndex) => 8,
        ValueId::Outdoor(OutdoorValueId::WindChill) => 10,
        ValueId::Indoor(IndoorValueId::Pressure) => 2,
        ValueId::Indoor(IndoorValueId::Temperature) => 4,
        ValueId::Indoor(IndoorValueId::Humidity) => 6,
        ValueId::TimeDate(TimeDateValueId::Time) => 0,
        ValueId::TimeDate(TimeDateValueId::Date) => 1,
    }
}

/// The place of a button among the buttons of the navigation panel.
pub open spec fn spec_button_index(id: NavigationButtonId) -> int {
    match id {
        NavigationButtonId::Previous => 0,
        NavigationButtonId::SetBtn => 1,
        NavigationButtonId::Next => 2,
    }
}

/// The place of a button among the buttons of the navigation panel.
pub fn button_index(id: NavigationButtonId) -> (index: usize)
    ensures
        index == spec_button_index(id),
{
    match id {
        NavigationButtonId::Previous => 0,
        NavigationButtonId::SetBtn => 1,
        NavigationButtonId::Next => 2,
    }
}

/// The view that follows: indoor and outdoor, then wind, rain and status,
/// then time and date, and round again.
pub open spec fn spec_next_view(view: ViewId) -> ViewId {
    match view {
        ViewId::IndoorOutdoor => ViewId::WindRainStatus,
        ViewId::WindRainStatus => ViewId::TimeDate,
        ViewId::TimeDate => ViewId::IndoorOutdoor,
    }
}

/// The view that comes before, in the same round.
pub open spec fn spec_previous_view(view: ViewId) -> ViewId {
    match view {
        ViewId::IndoorOutdoor => ViewId::TimeDate,
        ViewId::WindRainStatus => ViewId::IndoorOutdoor,
        ViewId::TimeDate => ViewId::WindRainStatus,
    }
}

/// The view to show after `view`.
pub fn next_view(view: ViewId) -> (next: ViewId)
    ensures
        next == spec_next_view(view),
{
    match view {
        ViewId::IndoorOutdoor => ViewId::WindRainStatus,
        ViewId::WindRainStatus => ViewId::TimeDate,
        ViewId::TimeDate => ViewId::IndoorOutdoor,
    }
}

/// The view to show before `view`.
pub fn previous_view(view: ViewId) -> (previous: ViewId)
    ensures
        previous == spec_previous_view(view),
{
    match view {
        ViewId::IndoorOutdoor => ViewId::TimeDate,
        ViewId::WindRainStatus => ViewId::IndoorOutdoor,
        ViewId::TimeDate => ViewId::WindRainStatus,
    }
}

/// Going to the next view and back, or back and forth, ends at the view
/// where it began, and so do three steps in one direction.
pub proof fn lemma_views_go_round(view: ViewId)
    ensures
        spec_previous_view(spec_next_view(view)) == view,
        spec_next_view(spec_previous_view(view)) == view,
        spec_next_view(spec_next_view(spec_next_view(view))) == view,
        spec_previous_view(spec_previous_view(spec_previous_view(view))) == view,
        spec_next_view(view) != view,
        spec_previous_view(view) != view,
{
}

/// What a button event asks of the display: to draw a button of the
/// navigation panel as pressed or as released, and after that perhaps to
/// change the view.
#[derive(Clone, Copy, Debug, PartialEq, Eq, Structural)]
pub struct ButtonAction {
    pub button: NavigationButtonId,
    pub pressed: bool,
    pub show: Option<ViewId>,
}

/// Button 1 is "previous", button 2 "set" and button 3 "next". A press
/// draws the button pressed. A release draws it released, and the release
/// of "previous" or "next" changes the view. A held button asks nothing.
pub open spec fn spec_button_action(event: UserBtnState, showing: ViewId) -> Option<ButtonAction> {
    match event {
        UserBtnState::Btn1Pressed => Some(
            ButtonAction { button: NavigationButtonId::Previous, pressed: true, show: None },
        ),
        UserBtnState::Btn2Pressed => Some(
            ButtonAction { button: NavigationButtonId::SetBtn, pressed: true, show: None },
        ),
        UserBtnState::Btn3Pressed => Some(
            ButtonAction { button: NavigationButtonId::Next, pressed: true, show: None },
        ),
        UserBtnState::Btn1Released => Some(
            ButtonAction {
                button: NavigationButtonId::Previous,
                pressed: false,
                show: Some(spec_previous_view(showing)),
            },
        ),
        UserBtnState::Btn2Released => Some(
            ButtonAction { button: NavigationButtonId::SetBtn, pressed: false, show: None },
        ),
        UserBtnState::Btn3Released => Some(
            ButtonAction {
                button: NavigationButtonId::Next,
                pressed: false,
                show: Some(spec_next_view(showing)),
            },
        ),
        _ => None,
    }
}

/// What a button event asks of the display while the view `showing` is
/// shown.
pub fn button_action(event: UserBtnState, showing: ViewId) -> (action: Option<ButtonAction>)
    ensures
        action == spec_button_action(event, showing),
{
    match event {
        UserBtnState::Btn1Pressed => Some(
            ButtonAction { button: NavigationButtonId::Previous, pressed: true, show: None },
        ),
        UserBtnState::Btn2Pressed => Some(
            ButtonAction { button: NavigationButtonId::SetBtn, pressed: true, show: None },
        ),
        UserBtnState::Btn3Pressed => Some(
            ButtonAction { button: NavigationButtonId::Next, pressed: true, show: None },
        ),
        UserBtnState::Btn1Released => Some(
            ButtonAction {
                button: NavigationButtonId::Previous,
                pressed: false,
                show: Some(previous_view(showing)),
            },
        ),
        UserBtnState::Btn2Released => Some(
            ButtonAction { button: NavigationButtonId::SetBtn, pressed: false, show: None },
        ),
        UserBtnState::Btn3Released => Some(
            ButtonAction {
                button: NavigationButtonId::Next,
                pressed: false,
                show: Some(next_view(showing)),
            },
        ),
        _ => None,
    }
}

/// A new text for a value of a panel.
#[derive(Clone, Debug, PartialEq, Eq)]
pub struct ValueUpdate {
    pub value: ValueId,
    pub text: String,
}

/// A new text for a value as a mathematical value.
pub struct ValueUpdateView {
    pub value: ValueId,
    pub text: Seq<char>,
}

impl View for ValueUpdate {
    type V = ValueUpdateView;

    open spec fn view(&self) -> ValueUpdateView {
        ValueUpdateView { value: self.value, text: self.text@ }
    }
}

/// Pressure in hundredths of an inch of mercury, rounded from thousandths
/// to the nearest hundredth, halves up.
pub open spec fn spec_pressure_hundredths(thousandths: u32) -> nat {
    ((thousandths + 5) / 10) as nat
}

/// The value that a reading belongs to and the text that stands for it:
/// numbers in decimal with their unit, rainfall and pressure with two
/// decimals. The wind direction has no place on the display.
pub open spec fn spec_measurement_update(reading: MeasurementView) -> Option<ValueUpdateView> {
    match reading {
        MeasurementView::ChannelNumber(v) => Some(
            ValueUpdateView {
                value: ValueId::Status(StatusValueId::Channel),
                text: spec_decimal(v as nat),
            },
        ),
        MeasurementView::ProductId(v) => Some(
            ValueUpdateView {
                value: ValueId::Status(StatusValueId::ProductId),
                text: spec_decimal(v as nat),
            },
        ),
        MeasurementView::BatteryStatus(s) => Some(
            ValueUpdateView { value: ValueId::Status(StatusValueId::Battery), text: s },
        ),
        MeasurementView::CurrentWindSpeedMph(v) => Some(
            ValueUpdateView {
                value: ValueId::Wind(WindValueId::CurrentWindSpeed),
                text: spec_decimal(v as nat) + "mph"@,
            },
        ),
        MeasurementView::AverageWindSpeedMph(v) => Some(
            ValueUpdateView {
                value: ValueId::Wind(WindValueId::AverageWindSpeed),
                text: spec_decimal(v as nat) + "mph"@,
            },
        ),
        MeasurementView::PeakWindSpeedMph(v) => Some(
            ValueUpdateView {
                value: ValueId::Wind(WindValueId::PeakWindSpeed),
                text: spec_decimal(v as nat) + "mph"@,
            },
        ),
        MeasurementView::WindDirection(_) => None,
        MeasurementView::DailyRainfall(v) => Some(
            ValueUpdateView {
                value: ValueId::Rain(RainValueId::DailyRainfall),
                text: spec_two_decimals(v as nat) + "in"@,
            },
        ),
        MeasurementView::MonthlyRainfall(v) => Some(
            ValueUpdateView {
                value: ValueId::Rain(RainValueId::MonthlyRainfall),
                text: spec_two_decimals(v as nat) + "in"@,
            },
        ),
        MeasurementView::YearlyRainfall(v) => Some(
            ValueUpdateView {
                value: ValueId::Rain(RainValueId::YearlyRainfall),
                text: spec_two_decimals(v as nat) + "in"@,
            },
        ),
        MeasurementView::OutdoorTemperature(v) => Some(
            ValueUpdateView {
                value: ValueId::Outdoor(OutdoorValueId::Temperature),
                text: spec_signed_decimal(v as int) + "F"@,
            },
        ),
        MeasurementView::OutdoorHumidity(v) => Some(
            ValueUpdateView {
                value: ValueId::Outdoor(OutdoorValueId::Humidity),
                text: spec_decimal(v as nat) + "%"@,
            },
        ),
        MeasurementView::OutdoorHeatIndex(v) => Some(
            ValueUpdateView {
                value: ValueId::Outdoor(OutdoorValueId::HeatIndex),
                text: spec_signed_decimal(v as int) + "F"@,
            },
        ),
        MeasurementView::OutdoorWindchill(v) => Some(
            ValueUpdateView {
                value: ValueId::Outdoor(OutdoorValueId::WindChill),
                text: spec_signed_decimal(v as int) + "F"@,
            },
        ),
        MeasurementView::OutdoorDewpoint(v) => Some(
            ValueUpdateView {
                value: ValueId::Outdoor(OutdoorValueId::DewPoint),
                text: spec_signed_decimal(v as int) + "F"@,
            },
        ),
        MeasurementView::IndoorTemperature(v) => Some(
            ValueUpdateView {
                value: ValueId::Indoor(IndoorValueId::Temperature),
                text: spec_signed_decimal(v as int) + "F"@,
            },
        ),
        MeasurementView::IndoorHumidity(v) => Some(
            ValueUpdateView {
                value: ValueId::Indoor(IndoorValueId::Humidity),
                text: spec_decimal(v as nat) + "%"@,
            },
        ),
        MeasurementView::IndoorPressure(v) => Some(
            ValueUpdateView {
                value: ValueId::Indoor(IndoorValueId::Pressure),
                text: spec_two_decimals(spec_pressure_hundredths(v)) + " inHg"@,
            },
        ),
    }
}

/// A text with a unit behind it.
fn with_unit(number: String, unit: &str) -> (text: String)
    ensures
        text@ == number@ + unit@,
{
    let mut text: String = number;
    text.append(unit);
    text
}

/// The update of the display that a reading asks for, if any.
pub fn measurement_update(reading: Measurement) -> (update: Option<ValueUpdate>)
    ensures
        update matches Some(u) ==> spec_measurement_update(reading@) == Some(u@),
        update is None ==> spec_measurement_update(reading@) is None,
{
    match reading {
        Measurement::ChannelNumber(v) => Some(
            ValueUpdate {
                value: ValueId::Status(StatusValueId::Channel),
                text: decimal_text(v as u64),
            },
        ),
        Measurement::ProductId(v) => Some(
            ValueUpdate {
                value: ValueId::Status(StatusValueId::ProductId),
                text: decimal_text(v as u64),
            },
        ),
        Measurement::BatteryStatus(s) => Some(
            ValueUpdate { value: ValueId::Status(StatusValueId::Battery), text: s },
        ),
        Measurement::CurrentWindSpeedMph(v) => Some(
            ValueUpdate {
                value: ValueId::Wind(WindValueId::CurrentWindSpeed),
                text: with_unit(decimal_text(v as u64), "mph"),
            },
        ),
        Measurement::AverageWindSpeedMph(v) => Some(
            ValueUpdate {
                value: ValueId::Wind(WindValueId::AverageWindSpeed),
                text: with_unit(decimal_text(v as u64), "mph"),
            },
        ),
        Measurement::PeakWindSpeedMph(v) => Some(
            ValueUpdate {
                value: ValueId::Wind(WindValueId::PeakWindSpeed),
                text: with_unit(decimal_text(v as u64), "mph"),
            },
        ),
        Measurement::WindDirection(_) => None,
        Measurement::DailyRainfall(v) => Some(
            ValueUpdate {
                value: ValueId::Rain(RainValueId::DailyRainfall),
                text: with_unit(two_decimals_text(v as u64), "in"),
            },
        ),
        Measurement::MonthlyRainfall(v) => Some(
            ValueUpdate {
                value: ValueId::Rain(RainValueId::MonthlyRainfall),
                text: with_unit(two_decimals_text(v as u64), "in"),
            },
        ),
        Measurement::YearlyRainfall(v) => Some(
            ValueUpdate {
                value: ValueId::Rain(RainValueId::YearlyRainfall),
                text: with_unit(two_decimals_text(v as u64), "in"),
            },
        ),
        Measurement::OutdoorTemperature(v) => Some(
            ValueUpdate {
                value: ValueId::Outdoor(OutdoorValueId::Temperature),
                text: with_unit(signed_decimal_text(v as i32), "F"),
            },
        ),
        Measurement::OutdoorHumidity(v) => Some(
            ValueUpdate {
                value: ValueId::Outdoor(OutdoorValueId::Humidity),
                text: with_unit(decimal_text(v as u64), "%"),
            },
        ),
        Measurement::OutdoorHeatIndex(v) => Some(
            ValueUpdate {
                value: ValueId::Outdoor(OutdoorValueId::HeatIndex),
                text: with_unit(signed_decimal_text(v as i32), "F"),
            },
        ),
        Measurement::OutdoorWindchill(v) => Some(
            ValueUpdate {
                value: ValueId::Outdoor(OutdoorValueId::WindChill),
                text: with_unit(signed_decimal_text(v as i32), "F"),
            },
        ),
        Measurement::OutdoorDewpoint(v) => Some(
            ValueUpdate {
                value: ValueId::Outdoor(OutdoorValueId::DewPoint),
                text: with_unit(signed_decimal_text(v as i32), "F"),
            },
        ),
        Measurement::IndoorTemperature(v) => Some(
            ValueUpdate {
                value: ValueId::Indoor(IndoorValueId::Temperature),
                text: with_unit(signed_decimal_text(v as i32), "F"),
            },
        ),
        Measurement::IndoorHumidity(v) => Some(
            ValueUpdate {
                value: ValueId::Indoor(IndoorValueId::Humidity),
                text: with_unit(decimal_text(v as u64), "%"),
            },
        ),
        Measurement::IndoorPressure(v) => Some(
            ValueUpdate {
                value: ValueId::Indoor(IndoorValueId::Pressure),
                text: with_unit(two_decimals_text((v as u64 + 5) / 10), " inHg"),
            },
        ),
    }
}

/// The value that a time or date text belongs to.
pub open spec fn spec_time_date_update(text: TimeDateView) -> ValueUpdateView {
    match text {
        TimeDateView::Time(s) => ValueUpdateView {
            value: ValueId::TimeDate(TimeDateValueId::Time),
            text: s,
        },
        TimeDateView::Date(s) => ValueUpdateView {
            value: ValueId::TimeDate(TimeDateValueId::Date),
            text: s,
        },
    }
}

/// The update of the display that a time or date text asks for.
pub fn time_date_update(text: TimeDate) -> (update: ValueUpdate)
    ensures
        update@ == spec_time_date_update(text@),
{
    match text {
        TimeDate::Time(s) => ValueUpdate { value: ValueId::TimeDate(TimeDateValueId::Time), text: s },
        TimeDate::Date(s) => ValueUpdate { value: ValueId::TimeDate(TimeDateValueId::Date), text: s },
    }
}

/// The view whose panels hold a value.
pub open spec fn spec_view_of(value: ValueId) -> ViewId {
    match value {
        ValueId::Status(_) => ViewId::WindRainStatus,
        ValueId::Wind(_) => ViewId::WindRainStatus,
        ValueId::Rain(_) => ViewId::WindRainStatus,
        ValueId::Outdoor(_) => ViewId::IndoorOutdoor,
        ValueId::Indoor(_) => ViewId::IndoorOutdoor,
        ValueId::TimeDate(_) => ViewId::TimeDate,
    }
}

/// The view whose panels hold a value.
pub fn view_of(value: ValueId) -> (view: ViewId)
    ensures
        view == spec_view_of(value),
{
    match value {
        ValueId::Status(_) => ViewId::WindRainStatus,
        ValueId::Wind(_) => ViewId::WindRainStatus,
        ValueId::Rain(_) => ViewId::WindRainStatus,
        ValueId::Outdoor(_) => ViewId::IndoorOutdoor,
        ValueId::Indoor(_) => ViewId::IndoorOutdoor,
        ValueId::TimeDate(_) => ViewId::TimeDate,
    }
}

} // verus!
