use mappers::calendar::{CalendarDate, ClockTime, Timestamp};
use mappers::errors::ErrorKind;
use mappers::tick::Tick;

fn date(y: i32, m: u32, d: u32) -> CalendarDate {
    CalendarDate::new(y, m, d).unwrap()
}

fn time(h: u32, m: u32, s: u32) -> ClockTime {
    ClockTime::new(h, m, s).unwrap()
}

fn unit() -> Tick {
    Tick { year: 1, month: 1, day: 1, hour: 1, minute: 1, second: 1 }
}

#[test]
fn calendar_knows_which_days_exist() {
    assert!(CalendarDate::new(2015, 3, 14).is_some());
    assert!(CalendarDate::new(2015, 0, 14).is_none());
    assert!(CalendarDate::new(2015, 13, 1).is_none());
    assert!(CalendarDate::new(2015, 2, 29).is_none());
    assert!(CalendarDate::new(2016, 2, 29).is_some());
    assert!(CalendarDate::new(1900, 2, 29).is_none());
    assert!(CalendarDate::new(2000, 2, 29).is_some());
    assert!(CalendarDate::new(-4, 2, 29).is_some());
    assert!(CalendarDate::new(2023, 4, 31).is_none());
    assert!(CalendarDate::new(2023, 4, 0).is_none());
    assert!(CalendarDate::new(262142, 12, 31).is_some());
    assert!(CalendarDate::new(262143, 1, 1).is_none());
    assert!(CalendarDate::new(-262143, 1, 1).is_some());
    assert!(CalendarDate::new(-262144, 12, 31).is_none());
}

#[test]
fn calendar_getters_give_the_fields_back() {
    let d = date(2020, 2, 29);
    assert_eq!((d.year(), d.month(), d.day()), (2020, 2, 29));
    let t = time(23, 59, 58);
    assert_eq!((t.hour(), t.minute(), t.second()), (23, 59, 58));
    assert!(ClockTime::new(24, 0, 0).is_none());
    assert!(ClockTime::new(0, 60, 0).is_none());
    assert!(ClockTime::new(0, 0, 60).is_none());
}

#[test]
fn unit_tick_leaves_a_timestamp_as_it_is() {
    let ts = Timestamp::new(date(2020, 6, 17), time(13, 45, 59));
    assert_eq!(unit().snap_datetime(&ts), Ok(ts));
}

#[test]
fn time_snaps_down_to_multiples_of_the_step() {
    let tick = Tick { year: 1, month: 1, day: 1, hour: 6, minute: 15, second: 60 };
    assert_eq!(tick.snap_time(&time(13, 47, 59)), Ok(time(12, 45, 0)));
    assert_eq!(tick.snap_time(&time(5, 14, 0)), Ok(time(0, 0, 0)));
    assert_eq!(tick.snap_time(&time(23, 59, 59)), Ok(time(18, 45, 0)));
}

#[test]
fn date_snaps_down_to_multiples_of_the_step() {
    let tick = Tick { year: 10, month: 1, day: 1, hour: 1, minute: 1, second: 1 };
    assert_eq!(tick.snap_date(&date(2024, 7, 9)), Ok(date(2020, 7, 9)));
    assert_eq!(tick.snap_date(&date(-5, 7, 9)), Ok(date(-10, 7, 9)));
    assert_eq!(tick.snap_date(&date(-10, 7, 9)), Ok(date(-10, 7, 9)));
    let tick = Tick { year: 1, month: 3, day: 5, hour: 1, minute: 1, second: 1 };
    assert_eq!(tick.snap_date(&date(2024, 8, 19)), Ok(date(2024, 6, 15)));
    assert_eq!(tick.snap_date(&date(2024, 12, 31)), Ok(date(2024, 12, 30)));
}

#[test]
fn snapping_to_a_day_that_does_not_exist_is_a_configuration_error() {
    // Month 2 under a step of 3 becomes month 0.
    let tick = Tick { year: 1, month: 3, day: 1, hour: 1, minute: 1, second: 1 };
    assert_eq!(tick.snap_date(&date(2024, 2, 10)), Err(ErrorKind::ConfigurationError));
    // Day 3 under a step of 5 becomes day 0.
    let tick = Tick { year: 1, month: 1, day: 5, hour: 1, minute: 1, second: 1 };
    assert_eq!(tick.snap_date(&date(2024, 2, 3)), Err(ErrorKind::ConfigurationError));
    // 31 March under a month step of 2 becomes 31 February.
    let tick = Tick { year: 1, month: 2, day: 1, hour: 1, minute: 1, second: 1 };
    assert_eq!(tick.snap_date(&date(2024, 3, 31)), Err(ErrorKind::ConfigurationError));
    // A year step beyond the range of years.
    let tick = Tick { year: i32::MAX, month: 1, day: 1, hour: 1, minute: 1, second: 1 };
    assert_eq!(tick.snap_date(&date(-1, 1, 1)), Err(ErrorKind::ConfigurationError));
    assert_eq!(tick.snap_date(&date(1, 1, 1)), Ok(date(0, 1, 1)));
}

#[test]
fn a_step_that_is_not_positive_is_a_configuration_error() {
    let ts = Timestamp::new(date(2020, 6, 17), time(13, 45, 59));
    for field in 0..6 {
        let mut tick = unit();
        match field {
            0 => tick.year = 0,
            1 => tick.month = 0,
            2 => tick.day = 0,
            3 => tick.hour = 0,
            4 => tick.minute = 0,
            _ => tick.second = 0,
        }
        assert_eq!(tick.snap_datetime(&ts), Err(ErrorKind::ConfigurationError));
        if field < 3 {
            assert_eq!(tick.snap_date(&ts.date), Err(ErrorKind::ConfigurationError));
            assert_eq!(tick.snap_time(&ts.time), Ok(ts.time));
        } else {
            assert_eq!(tick.snap_date(&ts.date), Ok(ts.date));
            assert_eq!(tick.snap_time(&ts.time), Err(ErrorKind::ConfigurationError));
        }
    }
    let mut tick = unit();
    tick.year = -1;
    assert_eq!(tick.snap_date(&ts.date), Err(ErrorKind::ConfigurationError));
}

#[test]
fn snapping_is_idempotent() {
    let ticks = [
        unit(),
        Tick { year: 10, month: 1, day: 1, hour: 6, minute: 15, second: 60 },
        Tick { year: 4, month: 3, day: 5, hour: 5, minute: 7, second: 11 },
        Tick { year: 1, month: 1, day: 1, hour: 24, minute: 60, second: 60 },
    ];
    let stamps = [
        Timestamp::new(date(2024, 8, 19), time(13, 47, 59)),
        Timestamp::new(date(-7, 12, 31), time(0, 0, 0)),
        Timestamp::new(date(1999, 6, 15), time(23, 59, 59)),
    ];
    for tick in ticks.iter() {
        for ts in stamps.iter() {
            if let Ok(snapped) = tick.snap_datetime(ts) {
                assert_eq!(tick.snap_datetime(&snapped), Ok(snapped));
            }
        }
    }
    let tick = ticks[2];
    assert_eq!(
        tick.snap_datetime(&stamps[0]),
        Ok(Timestamp::new(date(2024, 6, 15), time(10, 42, 55)))
    );
}

#[test]
fn timestamps_are_written_through_a_pattern() {
    let ts = Timestamp::new(date(2015, 9, 5), time(23, 56, 4));
    assert_eq!(ts.format("%Y-%m-%d %H:%M:%S"), Some("2015-09-05 23:56:04".to_string()));
    assert_eq!(ts.format("data_%Y%m%d_%H%M.tif"), Some("data_20150905_2356.tif".to_string()));
    assert_eq!(ts.format(""), Some(String::new()));
    assert_eq!(ts.format("plain"), Some("plain".to_string()));
}

#[test]
fn a_pattern_that_cannot_be_rendered_gives_none() {
    let ts = Timestamp::new(date(2015, 9, 5), time(23, 56, 4));
    assert_eq!(ts.format("%Q"), None);
    assert_eq!(ts.format("%Y%"), None);
    // A timestamp without a zone has no offset to write.
    assert_eq!(ts.format("%z"), None);
}

#[test]
fn the_first_and_the_last_year_are_written() {
    let first = Timestamp::new(date(-262143, 1, 1), time(0, 0, 0));
    assert_eq!(first.format("%Y-%m-%d"), Some("-262143-01-01".to_string()));
    let last = Timestamp::new(date(262142, 12, 31), time(23, 59, 59));
    assert_eq!(last.format("%Y-%m-%d %H:%M:%S"), Some("+262142-12-31 23:59:59".to_string()));
    assert_eq!(last.format("%s"), Some("8210266876799".to_string()));
}
