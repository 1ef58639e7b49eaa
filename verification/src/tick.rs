//! Quantization of timestamps: snapping a date or a time down to the start
//! of the bucket that holds it.

use vstd::prelude::*;
use vstd::arithmetic::div_mod::{lemma_fundamental_div_mod, lemma_mod_multiples_vanish};
use crate::calendar::{CalendarDate, ClockTime, Timestamp, valid_date, valid_time, MIN_YEAR, MAX_YEAR};
use crate::errors::ErrorKind;

verus! {

/// A quantization step for each component of a timestamp.
///
/// Snapping replaces each component `v` by the largest multiple of its step
/// that is not above `v`. A step of 1 leaves a component as it is. A step
/// above every value of a component snaps it to zero: a `second` of 60
/// gives whole minutes. Months and days start at 1, so a `month` or `day`
/// step that snaps one of them to zero names no day, and is reported.
#[derive(Debug, Clone, Copy, PartialEq, Eq, Structural)]
pub struct Tick {
    pub year: i32,
    pub month: u32,
    pub day: u32,
    pub hour: u32,
    pub minute: u32,
    pub second: u32,
}

/// The largest multiple of `step` that is not above `value`, for a positive
/// `step`.
pub open spec fn snap_down(value: int, step: int) -> int {
    (value / step) * step
}

impl Tick {
    /// The steps for year, month and day are all positive.
    pub open spec fn date_steps_positive(&self) -> bool {
        self.year >= 1 && self.month >= 1 && self.day >= 1
    }

    /// The steps for hour, minute and second are all positive.
    pub open spec fn time_steps_positive(&self) -> bool {
        self.hour >= 1 && self.minute >= 1 && self.second >= 1
    }

    /// Year, month and day of `date`, each snapped down by its step; `None`
    /// where a step is not positive or the snapped numbers name no day.
    pub open spec fn snapped_date(&self, date: (int, int, int)) -> Option<(int, int, int)> {
        let year = snap_down(date.0, self.year as int);
        let month = snap_down(date.1, self.month as int);
        let day = snap_down(date.2, self.day as int);
        if self.date_steps_positive() && valid_date(year, month, day) {
            Some((year, month, day))
        } else {
            None
        }
    }

    /// Hour, minute and second of `time`, each snapped down by its step;
    /// `None` where a step is not positive.
    pub open spec fn snapped_time(&self, time: (int, int, int)) -> Option<(int, int, int)> {
        if self.time_steps_positive() {
            Some(
                (
                    snap_down(time.0, self.hour as int),
                    snap_down(time.1, self.minute as int),
                    snap_down(time.2, self.second as int),
                ),
            )
        } else {
            None
        }
    }

    /// Date and time snapped independently; `None` where either is.
    pub open spec fn snapped_datetime(&self, date: (int, int, int), time: (int, int, int))
        -> Option<((int, int, int), (int, int, int))> {
        match (self.snapped_date(date), self.snapped_time(time)) {
            (Some(d), Some(t)) => Some((d, t)),
            _ => None,
        }
    }

    /// The start of the date bucket that holds `date`.
    ///
    /// Fails with `ConfigurationError` where a date step is not positive, or
    /// where the snapped year, month and day name no day.
    pub fn snap_date(&self, date: &CalendarDate) -> (r: Result<CalendarDate, ErrorKind>)
        ensures
            r is Ok <==> self.snapped_date(date@) is Some,
            r matches Ok(d) ==> Some(d@) == self.snapped_date(date@),
            r matches Err(e) ==> e == ErrorKind::ConfigurationError,
    {
        if self.year < 1 || self.month < 1 || self.day < 1 {
            return Err(ErrorKind::ConfigurationError);
        }
        let year: i64 = snap_year(date.year(), self.year);
        let month: u32 = snap_component(date.month(), self.month);
        let day: u32 = snap_component(date.day(), self.day);
        if year < MIN_YEAR as i64 || year > MAX_YEAR as i64 {
            return Err(ErrorKind::ConfigurationError);
        }
        match CalendarDate::new(year as i32, month, day) {
            Some(d) => Ok(d),
            None => Err(ErrorKind::ConfigurationError),
        }
    }

    /// The start of the time bucket that holds `time`.
    ///
    /// Fails with `ConfigurationError` where a time step is not positive.
    pub fn snap_time(&self, time: &ClockTime) -> (r: Result<ClockTime, ErrorKind>)
        ensures
            r is Ok <==> self.snapped_time(time@) is Some,
            r matches Ok(t) ==> Some(t@) == self.snapped_time(time@),
            r matches Err(e) ==> e == ErrorKind::ConfigurationError,
    {
        if self.hour < 1 || self.minute < 1 || self.second < 1 {
            return Err(ErrorKind::ConfigurationError);
        }
        let hour: u32 = snap_component(time.hour(), self.hour);
        let minute: u32 = snap_component(time.minute(), self.minute);
        let second: u32 = snap_component(time.second(), self.second);
        match ClockTime::new(hour, minute, second) {
            Some(t) => Ok(t),
            None => Err(ErrorKind::ConfigurationError),
        }
    }

    /// The start of the bucket that holds `datetime`: its date and its time
    /// of day, each snapped on its own.
    pub fn snap_datetime(&self, datetime: &Timestamp) -> (r: Result<Timestamp, ErrorKind>)
        ensures
            r is Ok <==> self.snapped_datetime(datetime.date@, datetime.time@) is Some,
            r matches Ok(s) ==> Some((s.date@, s.time@)) == self.snapped_datetime(
                datetime.date@,
                datetime.time@,
            ),
            r matches Err(e) ==> e == ErrorKind::ConfigurationError,
    {
        let date = match self.snap_date(&datetime.date) {
            Ok(d) => d,
            Err(e) => {
                return Err(e);
            },
        };
        let time = match self.snap_time(&datetime.time) {
            Ok(t) => t,
            Err(e) => {
                return Err(e);
            },
        };
        Ok(Timestamp::new(date, time))
    }
}

/// Snaps a value that is not negative.
fn snap_component(value: u32, step: u32) -> (r: u32)
    requires
        step >= 1,
    ensures
        r == snap_down(value as int, step as int),
        r <= value,
{
    proof {
        lemma_fundamental_div_mod(value as int, step as int);
        assert((value as int / step as int) * step == step * (value as int / step as int))
            by (nonlinear_arith);
    }
    value - value % step
}

/// Snaps a year, which may lie before year zero.
fn snap_year(year: i32, step: i32) -> (r: i64)
    requires
        step >= 1,
        MIN_YEAR <= year <= MAX_YEAR,
    ensures
        r == snap_down(year as int, step as int),
{
    let shift: i64 = 262143 * (step as i64);
    let lifted: i64 = year as i64 + shift;
    let rest: i64 = lifted % (step as i64);
    proof {
        lemma_mod_multiples_vanish(262143, year as int, step as int);
        lemma_fundamental_div_mod(year as int, step as int);
        assert((year as int / step as int) * step == step * (year as int / step as int))
            by (nonlinear_arith);
    }
    year as i64 - rest
}

proof fn lemma_snap_down_twice(value: int, step: int)
    by (nonlinear_arith)
    requires
        step >= 1,
    ensures
        snap_down(snap_down(value, step), step) == snap_down(value, step),
{
}

/// Snapping a date is idempotent: a date that came out of snapping is its
/// own bucket start under the same tick.
pub proof fn law_snap_date_idempotent(tick: Tick, date: (int, int, int))
    requires
        tick.snapped_date(date) is Some,
    ensures
        tick.snapped_date(tick.snapped_date(date)->0) == tick.snapped_date(date),
{
    lemma_snap_down_twice(date.0, tick.year as int);
    lemma_snap_down_twice(date.1, tick.month as int);
    lemma_snap_down_twice(date.2, tick.day as int);
}

/// Snapping a time of day is idempotent.
pub proof fn law_snap_time_idempotent(tick: Tick, time: (int, int, int))
    requires
        tick.snapped_time(time) is Some,
    ensures
        tick.snapped_time(tick.snapped_time(time)->0) == tick.snapped_time(time),
{
    lemma_snap_down_twice(time.0, tick.hour as int);
    lemma_snap_down_twice(time.1, tick.minute as int);
    lemma_snap_down_twice(time.2, tick.second as int);
}

/// Snapping a timestamp is idempotent: snapping an already snapped
/// timestamp with the same tick returns the same timestamp.
pub proof fn law_snap_datetime_idempotent(
    tick: Tick,
    date: (int, int, int),
    time: (int, int, int),
)
    requires
        tick.snapped_datetime(date, time) is Some,
    ensures
        ({
            let snapped = tick.snapped_datetime(date, time)->0;
            tick.snapped_datetime(snapped.0, snapped.1) == Some(snapped)
        }),
{
    law_snap_date_idempotent(tick, date);
    law_snap_time_idempotent(tick, time);
}

/// A snapped time of day is a time of day, and it is not after the time it
/// came from.
pub proof fn law_snap_time_exists(tick: Tick, time: (int, int, int))
    requires
        valid_time(time.0, time.1, time.2),
        tick.time_steps_positive(),
    ensures
        ({
            let s = tick.snapped_time(time)->0;
            &&& valid_time(s.0, s.1, s.2)
            &&& s.0 <= time.0
            &&& s.1 <= time.1
            &&& s.2 <= time.2
        }),
{
    lemma_snap_down_bounds(time.0, tick.hour as int);
    lemma_snap_down_bounds(time.1, tick.minute as int);
    lemma_snap_down_bounds(time.2, tick.second as int);
}

proof fn lemma_snap_down_bounds(value: int, step: int)
    by (nonlinear_arith)
    requires
        step >= 1,
    ensures
        value - step < snap_down(value, step) <= value,
        value >= 0 ==> snap_down(value, step) >= 0,
{
}

} // verus!
