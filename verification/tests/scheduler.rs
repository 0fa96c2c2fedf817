use weather_station::scheduler::{LocalTime, Scheduler, TimeDate, TimeEvent};

fn at(year: i32, month: u8, day: u8, hour: u8, minute: u8) -> LocalTime {
    LocalTime { year, month, day, hour, minute }
}

fn text(s: &str) -> String {
    String::from(s)
}

#[test]
fn new_scheduler_has_seen_the_start_of_2019() {
    let scheduler = Scheduler::new();
    assert_eq!(scheduler.previous_time.minute, 0);
    assert_eq!(scheduler.previous_time.day, 0);
    assert_eq!(scheduler.previous_time.month, 0);
    assert_eq!(scheduler.previous_time.year, 2019);
}

#[test]
fn first_tick_gives_texts_and_all_date_boundaries() {
    let mut scheduler = Scheduler::new();
    let tick = scheduler.tick_at(0, 0, at(2023, 1, 2, 15, 5));
    assert_eq!(
        tick.display,
        vec![TimeDate::Time(text("3:05 PM")), TimeDate::Date(text("Mon, 02 Jan 2023"))]
    );
    assert_eq!(tick.events, vec![TimeEvent::NewDay, TimeEvent::NewMonth, TimeEvent::NewYear]);
    assert!(!tick.restart_minute_timer);
    assert!(!tick.restart_hour_timer);
    assert_eq!(scheduler.previous_time.minute, 5);
    assert_eq!(scheduler.previous_time.day, 2);
    assert_eq!(scheduler.previous_time.month, 1);
    assert_eq!(scheduler.previous_time.year, 2023);
}

#[test]
fn same_minute_gives_nothing() {
    let mut scheduler = Scheduler::new();
    scheduler.tick_at(0, 0, at(2023, 1, 2, 15, 5));
    let tick = scheduler.tick_at(1000, 1, at(2023, 1, 2, 15, 5));
    assert!(tick.display.is_empty());
    assert!(tick.events.is_empty());
}

#[test]
fn new_minute_gives_the_time_text_only() {
    let mut scheduler = Scheduler::new();
    scheduler.tick_at(0, 0, at(2023, 1, 2, 15, 5));
    let tick = scheduler.tick_at(0, 0, at(2023, 1, 2, 15, 6));
    assert_eq!(tick.display, vec![TimeDate::Time(text("3:06 PM"))]);
    assert!(tick.events.is_empty());
}

#[test]
fn time_text_uses_twelve_hour_clock() {
    let mut scheduler = Scheduler::new();
    scheduler.previous_time.minute = 59;
    scheduler.previous_time.day = 2;
    assert_eq!(
        scheduler.tick_at(0, 0, at(2023, 1, 2, 0, 0)).display,
        vec![TimeDate::Time(text("12:00 AM"))]
    );
    assert_eq!(
        scheduler.tick_at(0, 0, at(2023, 1, 2, 12, 30)).display,
        vec![TimeDate::Time(text("12:30 PM"))]
    );
    assert_eq!(
        scheduler.tick_at(0, 0, at(2023, 1, 2, 23, 59)).display,
        vec![TimeDate::Time(text("11:59 PM"))]
    );
    assert_eq!(
        scheduler.tick_at(0, 0, at(2023, 1, 2, 9, 7)).display,
        vec![TimeDate::Time(text("9:07 AM"))]
    );
}

#[test]
fn new_day_gives_date_text_and_boundary() {
    let mut scheduler = Scheduler::new();
    scheduler.tick_at(0, 0, at(2024, 2, 28, 23, 59));
    let tick = scheduler.tick_at(0, 0, at(2024, 2, 29, 0, 0));
    assert_eq!(
        tick.display,
        vec![TimeDate::Time(text("12:00 AM")), TimeDate::Date(text("Thu, 29 Feb 2024"))]
    );
    assert_eq!(tick.events, vec![TimeEvent::NewDay]);
}

#[test]
fn new_month_and_new_year_follow_new_day() {
    let mut scheduler = Scheduler::new();
    scheduler.tick_at(0, 0, at(2023, 11, 30, 23, 59));
    let tick = scheduler.tick_at(0, 0, at(2023, 12, 1, 0, 0));
    assert_eq!(tick.events, vec![TimeEvent::NewDay, TimeEvent::NewMonth]);
    scheduler.tick_at(0, 0, at(2023, 12, 31, 23, 59));
    let tick = scheduler.tick_at(0, 0, at(2024, 1, 1, 0, 0));
    assert_eq!(
        tick.events,
        vec![TimeEvent::NewDay, TimeEvent::NewMonth, TimeEvent::NewYear]
    );
    assert_eq!(
        tick.display,
        vec![TimeDate::Time(text("12:00 AM")), TimeDate::Date(text("Mon, 01 Jan 2024"))]
    );
}

#[test]
fn timers_fire_after_their_period() {
    let mut scheduler = Scheduler::new();
    scheduler.tick_at(0, 0, at(2023, 1, 2, 15, 5));
    let tick = scheduler.tick_at(120_000, 3_600, at(2023, 1, 2, 15, 5));
    assert!(tick.events.is_empty());
    assert!(!tick.restart_minute_timer);
    assert!(!tick.restart_hour_timer);
    let tick = scheduler.tick_at(120_001, 3_600, at(2023, 1, 2, 15, 5));
    assert_eq!(tick.events, vec![TimeEvent::TwoMinutesElapsed]);
    assert!(tick.restart_minute_timer);
    assert!(!tick.restart_hour_timer);
    let tick = scheduler.tick_at(120_001, 3_601, at(2023, 1, 3, 15, 5));
    assert_eq!(
        tick.events,
        vec![TimeEvent::TwoMinutesElapsed, TimeEvent::OneHourElapsed, TimeEvent::NewDay]
    );
    assert!(tick.restart_minute_timer);
    assert!(tick.restart_hour_timer);
}

#[test]
fn impossible_date_gives_boundaries_without_text() {
    let mut scheduler = Scheduler::new();
    let tick = scheduler.tick_at(0, 0, at(2023, 2, 30, 24, 61));
    assert!(tick.display.is_empty());
    assert_eq!(tick.events, vec![TimeEvent::NewDay, TimeEvent::NewMonth, TimeEvent::NewYear]);
}

#[test]
fn decide_takes_the_texts_as_given() {
    let mut scheduler = Scheduler::new();
    let tick = scheduler.decide(
        0,
        0,
        at(2023, 1, 2, 15, 5),
        Some(text("five past three")),
        Some(text("a Monday")),
    );
    assert_eq!(
        tick.display,
        vec![TimeDate::Time(text("five past three")), TimeDate::Date(text("a Monday"))]
    );
    let tick = scheduler.decide(0, 0, at(2023, 1, 2, 15, 5), Some(text("again")), None);
    assert!(tick.display.is_empty());
}

#[test]
fn poll_reads_the_clock() {
    let mut scheduler = Scheduler::new();
    let tick = scheduler.poll(-7).expect("seven hours west is an offset");
    assert_eq!(tick.events, vec![TimeEvent::NewDay, TimeEvent::NewMonth, TimeEvent::NewYear]);
    assert_eq!(tick.display.len(), 2);
    assert!(matches!(tick.display[0], TimeDate::Time(_)));
    assert!(matches!(tick.display[1], TimeDate::Date(_)));
    assert!((1..=31).contains(&scheduler.previous_time.day));
    assert!((1..=12).contains(&scheduler.previous_time.month));
    assert!(scheduler.previous_time.minute < 60);
}

#[test]
fn poll_refuses_an_offset_out_of_range() {
    let mut scheduler = Scheduler::new();
    assert!(scheduler.poll(100).is_none());
    assert_eq!(scheduler.previous_time.year, 2019);
}

#[test]
fn time_text_of_every_hour_and_minute() {
    let mut scheduler = Scheduler::new();
    scheduler.previous_time.day = 2;
    scheduler.previous_time.month = 1;
    scheduler.previous_time.year = 2023;
    for hour in 0..=255u8 {
        for minute in 0..=255u8 {
            scheduler.previous_time.minute = minute.wrapping_add(1);
            let tick = scheduler.tick_at(0, 0, at(2023, 1, 2, hour, minute));
            assert!(tick.events.is_empty());
            if hour < 24 && minute < 60 {
                let hour_of_twelve = if hour % 12 == 0 { 12 } else { hour % 12 };
                let period = if hour < 12 { "AM" } else { "PM" };
                let expected = format!("{}:{:02} {}", hour_of_twelve, minute, period);
                assert_eq!(tick.display, vec![TimeDate::Time(expected)]);
            } else {
                assert!(tick.display.is_empty(), "{}:{}", hour, minute);
            }
        }
    }
}

#[test]
fn date_text_names_weekday_and_month() {
    let mut scheduler = Scheduler::new();
    let dates = [
        (at(2000, 2, 29, 0, 0), "Tue, 29 Feb 2000"),
        (at(2019, 12, 31, 0, 0), "Tue, 31 Dec 2019"),
        (at(2024, 7, 4, 0, 0), "Thu, 04 Jul 2024"),
        (at(2026, 10, 28, 0, 0), "Wed, 28 Oct 2026"),
    ];
    for (now, expected) in dates {
        let tick = scheduler.tick_at(0, 0, now);
        assert!(tick.display.contains(&TimeDate::Date(text(expected))), "{}", expected);
    }
}

#[test]
fn without_a_local_time_there_is_no_tick() {
    let mut scheduler = Scheduler::new();
    assert!(scheduler.tick_on(500_000, 5_000, None).is_none());
    assert_eq!(scheduler.previous_time.minute, 0);
    assert_eq!(scheduler.previous_time.day, 0);
    assert_eq!(scheduler.previous_time.month, 0);
    assert_eq!(scheduler.previous_time.year, 2019);
}

#[test]
fn with_a_local_time_the_tick_is_the_one_at_that_time() {
    let mut scheduler = Scheduler::new();
    let tick = scheduler
        .tick_on(120_001, 0, Some(at(2023, 1, 2, 15, 5)))
        .expect("a local time gives a tick");
    assert_eq!(
        tick.display,
        vec![TimeDate::Time(text("3:05 PM")), TimeDate::Date(text("Mon, 02 Jan 2023"))]
    );
    assert_eq!(
        tick.events,
        vec![
            TimeEvent::TwoMinutesElapsed,
            TimeEvent::NewDay,
            TimeEvent::NewMonth,
            TimeEvent::NewYear,
        ]
    );
    assert!(tick.restart_minute_timer);
    assert_eq!(scheduler.previous_time.year, 2023);
}
