//! The wall clock's events: time and date texts for the display, and the
//! time boundaries that the measurement engine acts on.

use vstd::prelude::*;
use std::time::{Duration, Instant};
use crate::text::{digit_text, spec_decimal};

verus! {

/// How the date is written on the display.
pub const DATE_STR: &'static str = "[weekday repr:short], [day] [month repr:short] [year]";

/// How the time is written on the display.
pub const TIME_STR: &'static str = "[hour repr:12 padding:none]:[minute] [period case:upper]";

/// The minute timer fires when more than this many milliseconds went by.
pub const TWO_MINUTES_MS: u128 = 120_000;

/// The hour timer fires when more than this many seconds went by.
pub const ONE_HOUR_SECS: u64 = 3_600;

/// A text for the display: the time of day or the date.
#[derive(Clone, Debug, PartialEq, Eq)]
pub enum TimeDate {
    Time(String),
    Date(String),
}

/// A text for the display as a mathematical value.
pub enum TimeDateView {
    Time(Seq<char>),
    Date(Seq<char>),
}

impl View for TimeDate {
    type V = TimeDateView;

    open spec fn view(&self) -> TimeDateView {
        match *self {
            TimeDate::Time(s) => TimeDateView::Time(s@),
            TimeDate::Date(s) => TimeDateView::Date(s@),
        }
    }
}

/// The texts of a list, each as a mathematical value.
pub open spec fn text_views(texts: Seq<TimeDate>) -> Seq<TimeDateView> {
    Seq::new(texts.len(), |i: int| texts[i]@)
}

/// A boundary in time that the measurement engine acts on.
#[derive(Clone, Copy, Debug, PartialEq, Eq, Structural)]
pub enum TimeEvent {
    TwoMinutesElapsed,
    OneHourElapsed,
    NewDay,
    NewMonth,
    NewYear,
}

/// The local date and time of day, to the minute.
#[derive(Clone, Copy, Debug, PartialEq, Eq, Structural)]
pub struct LocalTime {
    pub year: i32,
    pub month: u8,
    pub day: u8,
    pub hour: u8,
    pub minute: u8,
}

/// The type `std::time::Instant`, a reading of the monotonic clock. Nothing
/// is seen inside it.
#[verifier::external_type_specification]
#[verifier::external_body]
pub struct ExInstant(Instant);

/// The two timers, and the minute, day, month and year that were seen last.
pub struct PreviousTime {
    pub minute_timer: Instant,
    pub hour_timer: Instant,
    pub minute: u8,
    pub day: u8,
    pub month: u8,
    pub year: i32,
}

/// The minute, day, month and year that were seen last.
pub struct PreviousTimeView {
    pub minute: u8,
    pub day: u8,
    pub month: u8,
    pub year: i32,
}

impl View for PreviousTime {
    type V = PreviousTimeView;

    open spec fn view(&self) -> PreviousTimeView {
        PreviousTimeView { minute: self.minute, day: self.day, month: self.month, year: self.year }
    }
}

/// What the scheduler has seen before its first tick.
pub open spec fn initial_previous_time() -> PreviousTimeView {
    PreviousTimeView { minute: 0, day: 0, month: 0, year: 2019 }
}

/// What one tick of the scheduler gives: the texts for the display, the
/// time boundaries for the measurement engine, and which timers fired.
pub struct Tick {
    pub display: Vec<TimeDate>,
    pub events: Vec<TimeEvent>,
    pub restart_minute_timer: bool,
    pub restart_hour_timer: bool,
}

/// A tick as a mathematical value.
pub struct TickView {
    pub display: Seq<TimeDateView>,
    pub events: Seq<TimeEvent>,
    pub restart_minute_timer: bool,
    pub restart_hour_timer: bool,
}

impl View for Tick {
    type V = TickView;

    open spec fn view(&self) -> TickView {
        TickView {
            display: text_views(self.display@),
            events: self.events@,
            restart_minute_timer: self.restart_minute_timer,
            restart_hour_timer: self.restart_hour_timer,
        }
    }
}

/// The hour on a twelve-hour clock: 12 for midnight and noon.
pub open spec fn spec_hour_of_twelve(hour: u8) -> nat {
    if hour % 12 == 0 {
        12
    } else {
        (hour % 12) as nat
    }
}

/// The text of a time of day as the display shows it: the hour on the
/// twelve-hour clock without a leading zero, a colon, the minute in two
/// digits, a space, and AM before noon or PM from noon on. There is none
/// where the hour or the minute is not one of a time of day.
pub open spec fn spec_time_text(hour: u8, minute: u8) -> Option<Seq<char>> {
    if hour < 24 && minute < 60 {
        Some(
            spec_decimal(spec_hour_of_twelve(hour)) + ":"@ + digit_text((minute / 10) as int)
                + digit_text((minute % 10) as int) + (if hour < 12 {
                " AM"@
            } else {
                " PM"@
            }),
        )
    } else {
        None
    }
}

/// What `Date::format` of the time crate gives for a date with the format
/// description of `DATE_STR`: the text as the display shows it, where year,
/// month and day are those of a date.
pub uninterp spec fn formatted_date(year: i32, month: u8, day: u8) -> Option<Seq<char>>;

/// The characters of a text, if there is one.
pub open spec fn text_view(text: Option<String>) -> Option<Seq<char>> {
    match text {
        Some(s) => Some(s@),
        None => None,
    }
}

/// Calls `Time::from_hms` and `Time::format` of the time crate, with the
/// format description of `TIME_STR`. The contract claims that the crate
/// refuses exactly the hours from 24 on and the minutes from 60 on, and
/// that the text of any other time is the one that the format description
/// stands for: hour of twelve without padding, colon, minute in two digits,
/// space, period in capitals.
#[verifier::external_body]
fn format_time(hour: u8, minute: u8) -> (text: Option<String>)
    ensures
        text_view(text) == spec_time_text(hour, minute),
{
    let time = time::Time::from_hms(hour, minute, 0).ok()?;
    let format = time::format_description::parse_borrowed::<1>(TIME_STR).ok()?;
    time.format(&format).ok()
}

/// Calls `Date::from_calendar_date` and `Date::format` of the time crate,
/// with the format description of `DATE_STR`. The contract claims only that
/// the outcome depends on year, month and day alone; there is no text where
/// the crate refuses the date or the format.
#[verifier::external_body]
fn format_date(year: i32, month: u8, day: u8) -> (text: Option<String>)
    ensures
        text_view(text) == formatted_date(year, month, day),
{
    let month = time::Month::try_from(month).ok()?;
    let date = time::Date::from_calendar_date(year, month, day).ok()?;
    let format = time::format_description::parse_borrowed::<1>(DATE_STR).ok()?;
    date.format(&format).ok()
}

/// Calls `OffsetDateTime::now_utc` of the time crate and moves the result
/// to the offset of `utc_offset_hours` whole hours. Nothing is claimed of
/// the time that comes back; there is none where the crate refuses the
/// offset.
#[verifier::external_body]
fn local_now(utc_offset_hours: i8) -> (now: Option<LocalTime>) {
    let offset = time::UtcOffset::from_hms(utc_offset_hours, 0, 0).ok()?;
    let dt = time::OffsetDateTime::now_utc().checked_to_offset(offset)?;
    Some(
        LocalTime {
            year: dt.year(),
            month: dt.month().into(),
            day: dt.day(),
            hour: dt.hour(),
            minute: dt.minute(),
        },
    )
}

/// Calls `Instant::now`. Nothing is claimed of the instant.
#[verifier::external_body]
fn instant_now() -> (now: Instant) {
    Instant::now()
}

/// Calls `Instant::elapsed`. Nothing is claimed of the time gone by.
#[verifier::external_body]
fn instant_elapsed(since: &Instant) -> (elapsed: Duration) {
    since.elapsed()
}

/// `Duration::as_millis`: a duration in whole milliseconds. Nothing is
/// claimed of the number.
pub assume_specification[ Duration::as_millis ](duration: &Duration) -> (millis: u128)
;

/// `Duration::as_secs`: a duration in whole seconds. Nothing is claimed of
/// the number.
pub assume_specification[ Duration::as_secs ](duration: &Duration) -> (secs: u64)
;

/// The scheduler: it turns the clock into texts and time boundaries.
pub struct Scheduler {
    pub previous_time: PreviousTime,
}

impl View for Scheduler {
    type V = PreviousTimeView;

    open spec fn view(&self) -> PreviousTimeView {
        self.previous_time@
    }
}

/// One tick. A timer that ran longer than its period fires its boundary.
/// A minute that differs from the one seen last gives the time text, and a
/// day that differs gives the date text and a new day; a text that could
/// not be made is left out. A month or year that differs gives a new month
/// or a new year. The boundaries come in the order two minutes, one hour,
/// new day, new month, new year. The minute, day, month and year of `now`
/// are then the ones seen last.
pub open spec fn spec_tick(
    previous: PreviousTimeView,
    minute_timer_ms: u128,
    hour_timer_secs: u64,
    now: LocalTime,
    time_text: Option<Seq<char>>,
    date_text: Option<Seq<char>>,
) -> (PreviousTimeView, TickView) {
    let minute_fired = minute_timer_ms > TWO_MINUTES_MS;
    let hour_fired = hour_timer_secs > ONE_HOUR_SECS;
    (
        PreviousTimeView { minute: now.minute, day: now.day, month: now.month, year: now.year },
        TickView {
            display: (if now.minute != previous.minute && time_text is Some {
                seq![TimeDateView::Time(time_text->Some_0)]
            } else {
                seq![]
            }) + (if now.day != previous.day && date_text is Some {
                seq![TimeDateView::Date(date_text->Some_0)]
            } else {
                seq![]
            }),
            events: (if minute_fired {
                seq![TimeEvent::TwoMinutesElapsed]
            } else {
                seq![]
            }) + (if hour_fired {
                seq![TimeEvent::OneHourElapsed]
            } else {
                seq![]
            }) + (if now.day != previous.day {
                seq![TimeEvent::NewDay]
            } else {
                seq![]
            }) + (if now.month != previous.month {
                seq![TimeEvent::NewMonth]
            } else {
                seq![]
            }) + (if now.year != previous.year {
                seq![TimeEvent::NewYear]
            } else {
                seq![]
            }),
            restart_minute_timer: minute_fired,
            restart_hour_timer: hour_fired,
        },
    )
}

impl Scheduler {
    /// A scheduler whose timers start now and that has seen minute 0 of
    /// day 0 of month 0 of the year 2019, so that its first tick gives both
    /// texts and a new day, month and year.
    pub fn new() -> (scheduler: Scheduler)
        ensures
            scheduler@ == initial_previous_time(),
    {
        Scheduler {
            previous_time: PreviousTime {
                minute_timer: instant_now(),
                hour_timer: instant_now(),
                minute: 0,
                day: 0,
                month: 0,
                year: 2019,
            },
        }
    }

    /// Decides one tick from what the clocks gave: the time that each timer
    /// ran, the local time, and the texts made of it.
    pub fn decide(
        &mut self,
        minute_timer_ms: u128,
        hour_timer_secs: u64,
        now: LocalTime,
        time_text: Option<String>,
        date_text: Option<String>,
    ) -> (tick: Tick)
        ensures
            (final(self)@, tick@) == spec_tick(
                old(self)@,
                minute_timer_ms,
                hour_timer_secs,
                now,
                text_view(time_text),
                text_view(date_text),
            ),
    {
        let mut display: Vec<TimeDate> = Vec::new();
        let mut events: Vec<TimeEvent> = Vec::new();
        let restart_minute_timer: bool = minute_timer_ms > TWO_MINUTES_MS;
        let restart_hour_timer: bool = hour_timer_secs > ONE_HOUR_SECS;
        if restart_minute_timer {
            events.push(TimeEvent::TwoMinutesElapsed);
        }
        if restart_hour_timer {
            events.push(TimeEvent::OneHourElapsed);
        }
        if now.minute != self.previous_time.minute {
            if let Some(text) = time_text {
                display.push(TimeDate::Time(text));
            }
            self.previous_time.minute = now.minute;
        }
        if now.day != self.previous_time.day {
            if let Some(text) = date_text {
                display.push(TimeDate::Date(text));
            }
            events.push(TimeEvent::NewDay);
            self.previous_time.day = now.day;
        }
        if now.month != self.previous_time.month {
            events.push(TimeEvent::NewMonth);
            self.previous_time.month = now.month;
        }
        if now.year != self.previous_time.year {
            events.push(TimeEvent::NewYear);
            self.previous_time.year = now.year;
        }
        let tick = Tick { display, events, restart_minute_timer, restart_hour_timer };
        proof {
            let expected = spec_tick(
                old(self)@,
                minute_timer_ms,
                hour_timer_secs,
                now,
                text_view(time_text),
                text_view(date_text),
            ).1;
            assert(tick@.display =~= expected.display);
            assert(tick@.events =~= expected.events);
        }
        tick
    }

    /// Decides one tick at the local time `now`, with the times that the
    /// timers ran. The texts are made only where they are needed.
    pub fn tick_at(&mut self, minute_timer_ms: u128, hour_timer_secs: u64, now: LocalTime) -> (tick:
        Tick)
        ensures
            (final(self)@, tick@) == spec_tick(
                old(self)@,
                minute_timer_ms,
                hour_timer_secs,
                now,
                spec_time_text(now.hour, now.minute),
                formatted_date(now.year, now.month, now.day),
            ),
    {
        let time_text: Option<String> = if now.minute != self.previous_time.minute {
            format_time(now.hour, now.minute)
        } else {
            None
        };
        let date_text: Option<String> = if now.day != self.previous_time.day {
            format_date(now.year, now.month, now.day)
        } else {
            None
        };
        let ghost given_time = text_view(time_text);
        let ghost given_date = text_view(date_text);
        let tick: Tick = self.decide(minute_timer_ms, hour_timer_secs, now, time_text, date_text);
        proof {
            let made = spec_tick(
                old(self)@,
                minute_timer_ms,
                hour_timer_secs,
                now,
                spec_time_text(now.hour, now.minute),
                formatted_date(now.year, now.month, now.day),
            );
            let decided = spec_tick(
                old(self)@,
                minute_timer_ms,
                hour_timer_secs,
                now,
                given_time,
                given_date,
            );
            assert(made.1.display =~= decided.1.display);
            assert(made == decided);
        }
        tick
    }

    /// Reads the clocks and decides one tick. A timer that fired starts
    /// anew. Without a local time, which is when the offset from UTC is not
    /// one that the clock accepts, nothing happens.
    pub fn poll(&mut self, utc_offset_hours: i8) -> (result: Option<Tick>)
        ensures
            result matches Some(tick) ==> exists|ms: u128, secs: u64, now: LocalTime|
                (final(self)@, tick@) == #[trigger] spec_tick(
                    old(self)@,
                    ms,
                    secs,
                    now,
                    spec_time_text(now.hour, now.minute),
                    formatted_date(now.year, now.month, now.day),
                ),
            result is None ==> final(self)@ == old(self)@,
    {
        let now: Option<LocalTime> = local_now(utc_offset_hours);
        let minute_timer_ms: u128 = instant_elapsed(&self.previous_time.minute_timer).as_millis();
        let hour_timer_secs: u64 = instant_elapsed(&self.previous_time.hour_timer).as_secs();
        let result: Option<Tick> = self.tick_on(minute_timer_ms, hour_timer_secs, now);
        let restart_minute_timer: bool = match &result {
            Some(tick) => tick.restart_minute_timer,
            None => false,
        };
        let restart_hour_timer: bool = match &result {
            Some(tick) => tick.restart_hour_timer,
            None => false,
        };
        if restart_minute_timer {
            self.previous_time.minute_timer = instant_now();
        }
        if restart_hour_timer {
            self.previous_time.hour_timer = instant_now();
        }
        result
    }

    /// Decides one tick from what the clocks gave. With a local time the
    /// tick is the one at that time. Without a local time there is no tick,
    /// and the scheduler stays as it is.
    pub fn tick_on(
        &mut self,
        minute_timer_ms: u128,
        hour_timer_secs: u64,
        now: Option<LocalTime>,
    ) -> (result: Option<Tick>)
        ensures
            result is Some <==> now is Some,
            now matches Some(at) ==> (final(self)@, result->Some_0@) == spec_tick(
                old(self)@,
                minute_timer_ms,
                hour_timer_secs,
                at,
                spec_time_text(at.hour, at.minute),
                formatted_date(at.year, at.month, at.day),
            ),
            now is None ==> final(self)@ == old(self)@,
    {
        match now {
            Some(at) => Some(self.tick_at(minute_timer_ms, hour_timer_secs, at)),
            None => None,
        }
    }
}

/// At its first tick, with no timer fired, the scheduler gives a new day,
/// a new month and a new year, in this order, for a date with a day and a
/// month from 1 on and a year other than 2019. At a second tick at the
/// same local time, again with no timer fired, it gives no boundary and no
/// text, and remembers the same date.
pub proof fn lemma_first_and_repeated_tick(
    now: LocalTime,
    time_text: Option<Seq<char>>,
    date_text: Option<Seq<char>>,
)
    requires
        1 <= now.day,
        1 <= now.month,
        now.year != 2019,
    ensures
        spec_tick(initial_previous_time(), 0, 0, now, time_text, date_text).1.events == seq![
            TimeEvent::NewDay,
            TimeEvent::NewMonth,
            TimeEvent::NewYear,
        ],
        ({
            let first = spec_tick(initial_previous_time(), 0, 0, now, time_text, date_text);
            let second = spec_tick(first.0, 0, 0, now, time_text, date_text);
            &&& second.0 == first.0
            &&& second.1.events == Seq::<TimeEvent>::empty()
            &&& second.1.display == Seq::<TimeDateView>::empty()
        }),
{
    let first = spec_tick(initial_previous_time(), 0, 0, now, time_text, date_text);
    assert(first.1.events =~= seq![TimeEvent::NewDay, TimeEvent::NewMonth, TimeEvent::NewYear]);
    let second = spec_tick(first.0, 0, 0, now, time_text, date_text);
    assert(second.1.events =~= Seq::<TimeEvent>::empty());
    assert(second.1.display =~= Seq::<TimeDateView>::empty());
}

} // verus!
