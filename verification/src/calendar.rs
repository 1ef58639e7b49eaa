//! Calendar dates and times of day as plain numbers, and the rendering of
//! a timestamp through a strftime-style pattern.

use vstd::prelude::*;

verus! {

/// The first year that a date can hold.
pub const MIN_YEAR: i32 = -262143;

/// The last year that a date can hold.
pub const MAX_YEAR: i32 = 262142;

/// Whether `year` has a 29th of February in the proleptic Gregorian
/// calendar.
pub open spec fn is_leap_year(year: int) -> bool {
    year % 4 == 0 && (year % 100 != 0 || year % 400 == 0)
}

/// The number of days of `month` in `year`, for a month from 1 to 12.
pub open spec fn days_in_month(year: int, month: int) -> int {
    if month == 2 {
        if is_leap_year(year) {
            29
        } else {
            28
        }
    } else if month == 4 || month == 6 || month == 9 || month == 11 {
        30
    } else {
        31
    }
}

/// Whether the day `day` of month `month` of `year` exists and can be held.
pub open spec fn valid_date(year: int, month: int, day: int) -> bool {
    &&& MIN_YEAR <= year <= MAX_YEAR
    &&& 1 <= month <= 12
    &&& 1 <= day <= days_in_month(year, month)
}

/// Whether `hour:minute:second` is a time of day.
pub open spec fn valid_time(hour: int, minute: int, second: int) -> bool {
    &&& 0 <= hour < 24
    &&& 0 <= minute < 60
    &&& 0 <= second < 60
}

fn leap_year(year: i32) -> (r: bool)
    ensures
        r == is_leap_year(year as int),
{
    // Whole cycles of 400 years are added, so that the remainders are taken
    // of a number that is not negative.
    let lifted: u64 = (year as i64 + 2_147_484_000) as u64;
    lifted % 4 == 0 && (lifted % 100 != 0 || lifted % 400 == 0)
}

fn month_length(year: i32, month: u32) -> (r: u32)
    requires
        1 <= month <= 12,
    ensures
        r == days_in_month(year as int, month as int),
{
    if month == 2 {
        if leap_year(year) {
            29
        } else {
            28
        }
    } else if month == 4 || month == 6 || month == 9 || month == 11 {
        30
    } else {
        31
    }
}

/// A day of the proleptic Gregorian calendar. Only days that exist can be
/// held.
#[derive(Debug, Clone, Copy, PartialEq, Eq, Structural)]
pub struct CalendarDate {
    year: i32,
    month: u32,
    day: u32,
}

impl View for CalendarDate {
    type V = (int, int, int);

    /// Year, month and day.
    closed spec fn view(&self) -> (int, int, int) {
        (self.year as int, self.month as int, self.day as int)
    }
}

impl CalendarDate {
    #[verifier::type_invariant]
    spec fn exists_in_calendar(self) -> bool {
        valid_date(self.year as int, self.month as int, self.day as int)
    }

    /// The date of the given year, month and day, if there is such a day.
    pub fn new(year: i32, month: u32, day: u32) -> (r: Option<CalendarDate>)
        ensures
            r is Some <==> valid_date(year as int, month as int, day as int),
            r matches Some(d) ==> d@ == (year as int, month as int, day as int),
    {
        if MIN_YEAR <= year && year <= MAX_YEAR && 1 <= month && month <= 12 && 1 <= day && day
            <= month_length(year, month) {
            Some(CalendarDate { year, month, day })
        } else {
            None
        }
    }

    pub fn year(&self) -> (r: i32)
        ensures
            r == self@.0,
            MIN_YEAR <= r <= MAX_YEAR,
    {
        proof {
            use_type_invariant(self);
        }
        self.year
    }

    pub fn month(&self) -> (r: u32)
        ensures
            r == self@.1,
            1 <= r <= 12,
    {
        proof {
            use_type_invariant(self);
        }
        self.month
    }

    pub fn day(&self) -> (r: u32)
        ensures
            r == self@.2,
            1 <= r <= days_in_month(self@.0, self@.1),
    {
        proof {
            use_type_invariant(self);
        }
        self.day
    }

    /// Two dates with the same year, month and day are the same date.
    pub proof fn law_date_by_view(self, other: CalendarDate)
        ensures
            self@ == other@ <==> self == other,
    {
    }
}

/// A time of day, to the second.
#[derive(Debug, Clone, Copy, PartialEq, Eq, Structural)]
pub struct ClockTime {
    hour: u32,
    minute: u32,
    second: u32,
}

impl View for ClockTime {
    type V = (int, int, int);

    /// Hour, minute and second.
    closed spec fn view(&self) -> (int, int, int) {
        (self.hour as int, self.minute as int, self.second as int)
    }
}

impl ClockTime {
    #[verifier::type_invariant]
    spec fn exists_on_clock(self) -> bool {
        valid_time(self.hour as int, self.minute as int, self.second as int)
    }

    /// The time of the given hour, minute and second, if there is one.
    pub fn new(hour: u32, minute: u32, second: u32) -> (r: Option<ClockTime>)
        ensures
            r is Some <==> valid_time(hour as int, minute as int, second as int),
            r matches Some(t) ==> t@ == (hour as int, minute as int, second as int),
    {
        if hour < 24 && minute < 60 && second < 60 {
            Some(ClockTime { hour, minute, second })
        } else {
            None
        }
    }

    pub fn hour(&self) -> (r: u32)
        ensures
            r == self@.0,
            r < 24,
    {
        proof {
            use_type_invariant(self);
        }
        self.hour
    }

    pub fn minute(&self) -> (r: u32)
        ensures
            r == self@.1,
            r < 60,
    {
        proof {
            use_type_invariant(self);
        }
        self.minute
    }

    pub fn second(&self) -> (r: u32)
        ensures
            r == self@.2,
            r < 60,
    {
        proof {
            use_type_invariant(self);
        }
        self.second
    }

    /// Two times with the same hour, minute and second are the same time.
    pub proof fn law_time_by_view(self, other: ClockTime)
        ensures
            self@ == other@ <==> self == other,
    {
    }
}

/// A date together with a time of day, without a time zone.
#[derive(Debug, Clone, Copy, PartialEq, Eq, Structural)]
pub struct Timestamp {
    pub date: CalendarDate,
    pub time: ClockTime,
}

impl Timestamp {
    pub fn new(date: CalendarDate, time: ClockTime) -> (r: Timestamp)
        ensures
            r.date == date,
            r.time == time,
    {
        Timestamp { date, time }
    }

    /// The timestamp of the given numbers, if they name a day and a time.
    pub fn from_fields(year: i32, month: u32, day: u32, hour: u32, minute: u32, second: u32) -> (r:
        Option<Timestamp>)
        ensures
            r is Some <==> valid_date(year as int, month as int, day as int) && valid_time(
                hour as int,
                minute as int,
                second as int,
            ),
            r matches Some(t) ==> t.date@ == (year as int, month as int, day as int) && t.time@ == (
                hour as int,
                minute as int,
                second as int,
            ),
    {
        match (CalendarDate::new(year, month, day), ClockTime::new(hour, minute, second)) {
            (Some(date), Some(time)) => Some(Timestamp { date, time }),
            _ => None,
        }
    }

    /// The text of this timestamp under `pattern`; `None` where the pattern
    /// cannot be rendered.
    pub fn format(&self, pattern: &str) -> (r: Option<String>)
        ensures
            r is Some <==> strftime(
                self.date@.0,
                self.date@.1,
                self.date@.2,
                self.time@.0,
                self.time@.1,
                self.time@.2,
                pattern@,
            ) is Some,
            r matches Some(text) ==> Some(text@) == strftime(
                self.date@.0,
                self.date@.1,
                self.date@.2,
                self.time@.0,
                self.time@.1,
                self.time@.2,
                pattern@,
            ),
    {
        render_pattern(
            self.date.year(),
            self.date.month(),
            self.date.day(),
            self.time.hour(),
            self.time.minute(),
            self.time.second(),
            pattern,
        )
    }
}

/// What chrono writes for the given date and time under the strftime-style
/// `pattern`; `None` where chrono reports a formatting error.
pub uninterp spec fn strftime(
    year: int,
    month: int,
    day: int,
    hour: int,
    minute: int,
    second: int,
    pattern: Seq<char>,
) -> Option<Seq<char>>;

/// Renders a date and time through `chrono::NaiveDateTime::format` and
/// `DelayedFormat::write_to`.
///
/// Believed, not proved: the text is a function of the six numbers and the
/// pattern alone, and a pattern that chrono cannot render for a date and
/// time without a zone gives `None` instead of a panic.
#[verifier::external_body]
fn render_pattern(
    year: i32,
    month: u32,
    day: u32,
    hour: u32,
    minute: u32,
    second: u32,
    pattern: &str,
) -> (r: Option<String>)
    requires
        valid_date(year as int, month as int, day as int),
        valid_time(hour as int, minute as int, second as int),
    ensures
        r is Some <==> strftime(
            year as int,
            month as int,
            day as int,
            hour as int,
            minute as int,
            second as int,
            pattern@,
        ) is Some,
        r matches Some(text) ==> Some(text@) == strftime(
            year as int,
            month as int,
            day as int,
            hour as int,
            minute as int,
            second as int,
            pattern@,
        ),
{
    let date = chrono::NaiveDate::from_ymd_opt(year, month, day)?;
    let moment = date.and_hms_opt(hour, minute, second)?;
    let mut text = String::new();
    match moment.format(pattern).write_to(&mut text) {
        Ok(()) => Some(text),
        Err(_) => None,
    }
}

} // verus!
