//! Schedule specifications and the rule that decides whether a task is
//! still within its cadence.

use vstd::prelude::*;

verus! {

/// Seconds in one day.
pub const SECONDS_PER_DAY: u64 = 86400;

/// Seconds in one week.
pub const SECONDS_PER_WEEK: u64 = 604800;

/// The largest day count whose length in seconds fits in an `i64`.
pub const MAX_INTERVAL_DAYS: u64 = 106751991167300;

/// A day of the week, as observed on the local calendar.
#[derive(Clone, Copy, Debug, PartialEq, Eq, Structural)]
pub enum Weekday {
    Mon,
    Tue,
    Wed,
    Thu,
    Fri,
    Sat,
    Sun,
}

/// Monday through Friday.
pub open spec fn is_workday(day: Weekday) -> bool {
    !(day is Sat || day is Sun)
}

/// Tells whether `day` falls on Monday through Friday.
pub fn is_weekday(day: Weekday) -> (r: bool)
    ensures
        r == is_workday(day),
{
    match day {
        Weekday::Sat | Weekday::Sun => false,
        _ => true,
    }
}

/// A declared cadence, as it stands in the schedule file before it is checked.
#[derive(Clone, Debug, PartialEq, Eq)]
pub enum RawValue {
    /// An integer: a number of days.
    Integer(i64),
    /// A string: a symbolic cadence.
    Text(String),
    /// Any other shape (boolean, float, date, array, table).
    Other,
}

/// The mathematical value of a `RawValue`.
pub enum RawValueView {
    Integer(int),
    Text(Seq<char>),
    Other,
}

impl View for RawValue {
    type V = RawValueView;

    open spec fn view(&self) -> RawValueView {
        match self {
            RawValue::Integer(i) => RawValueView::Integer(*i as int),
            RawValue::Text(s) => RawValueView::Text(s@),
            RawValue::Other => RawValueView::Other,
        }
    }
}

/// A checked schedule specification.
#[derive(Clone, Copy, Debug, PartialEq, Eq, Structural)]
pub enum Schedule {
    /// Satisfied while fewer than `days` whole days have elapsed.
    Interval { days: u64 },
    /// One day of grace on Monday to Friday, a week on Saturday and Sunday.
    Weekdays,
}

/// Why a declared cadence is not a schedule.
#[derive(Clone, Copy, Debug, PartialEq, Eq, Structural)]
pub enum ScheduleError {
    /// A negative number of days.
    NegativeInterval,
    /// A number of days whose length in seconds does not fit in an `i64`.
    IntervalOverflow,
    /// A string other than `weekdays`.
    UnknownCadence,
    /// A value that is neither an integer nor a string.
    UnsupportedValue,
}

/// The one symbolic cadence that is recognised.
pub open spec fn weekdays_word() -> Seq<char> {
    seq!['w', 'e', 'e', 'k', 'd', 'a', 'y', 's']
}

/// The schedule that a declared value stands for, or why it stands for none.
pub open spec fn schedule_of(v: RawValueView) -> Result<Schedule, ScheduleError> {
    match v {
        RawValueView::Integer(i) => if i < 0 {
            Err(ScheduleError::NegativeInterval)
        } else if i > MAX_INTERVAL_DAYS {
            Err(ScheduleError::IntervalOverflow)
        } else {
            Ok(Schedule::Interval { days: i as u64 })
        },
        RawValueView::Text(s) => if s == weekdays_word() {
            Ok(Schedule::Weekdays)
        } else {
            Err(ScheduleError::UnknownCadence)
        },
        RawValueView::Other => Err(ScheduleError::UnsupportedValue),
    }
}

/// Seconds from `last` to `now`; a `last` in the future counts as no time at all.
pub open spec fn elapsed_seconds(last: int, now: int) -> int {
    if now > last {
        now - last
    } else {
        0
    }
}

/// Whether `elapsed` seconds since the last completion are within `schedule`
/// on a day that is `today`.
pub open spec fn satisfied(elapsed: int, schedule: Schedule, today: Weekday) -> bool {
    match schedule {
        Schedule::Interval { days } => elapsed < days * SECONDS_PER_DAY,
        Schedule::Weekdays => if is_workday(today) {
            elapsed < SECONDS_PER_DAY
        } else {
            elapsed < SECONDS_PER_WEEK
        },
    }
}

/// Seconds from `last` to `now`, zero when `last` is later than `now`.
pub fn elapsed_since(last: i64, now: i64) -> (r: u64)
    ensures
        r == elapsed_seconds(last as int, now as int),
{
    if now > last {
        (now as i128 - last as i128) as u64
    } else {
        0
    }
}

/// Turns a declared value into a schedule.
pub fn parse_schedule(v: &RawValue) -> (r: Result<Schedule, ScheduleError>)
    ensures
        r == schedule_of(v@),
        v@ is Text && v@->Text_0 != weekdays_word() ==> r == Err::<Schedule, ScheduleError>(
            ScheduleError::UnknownCadence,
        ),
{
    match v {
        RawValue::Integer(i) => {
            if *i < 0 {
                Err(ScheduleError::NegativeInterval)
            } else if *i as u64 > MAX_INTERVAL_DAYS {
                Err(ScheduleError::IntervalOverflow)
            } else {
                Ok(Schedule::Interval { days: *i as u64 })
            }
        },
        RawValue::Text(s) => {
            let word = String::from_str("weekdays");
            proof {
                reveal_strlit("weekdays");
                assert(word@ =~= weekdays_word());
            }
            if *s == word {
                Ok(Schedule::Weekdays)
            } else {
                Err(ScheduleError::UnknownCadence)
            }
        },
        RawValue::Other => Err(ScheduleError::UnsupportedValue),
    }
}

/// Decides whether a task last completed at `last_modified` is within
/// `schedule` at the instant `now`, on a local day that is `today`.
/// Instants are whole seconds on one clock.
pub fn within_schedule(last_modified: i64, schedule: Schedule, now: i64, today: Weekday) -> (r:
    bool)
    ensures
        r == satisfied(elapsed_seconds(last_modified as int, now as int), schedule, today),
        schedule is Interval ==> (r <==> elapsed_seconds(last_modified as int, now as int)
            < schedule->days * 86400),
{
    let elapsed = elapsed_since(last_modified, now);
    match schedule {
        Schedule::Interval { days } => {
            // Beyond this many days the threshold exceeds every `u64` elapsed time.
            if days > 213503982334601 {
                assert(days * 86400 >= 213503982334602 * 86400) by (nonlinear_arith)
                    requires
                        days >= 213503982334602,
                ;
                true
            } else {
                assert(days * 86400 <= 213503982334601 * 86400) by (nonlinear_arith)
                    requires
                        days <= 213503982334601,
                ;
                elapsed < days * SECONDS_PER_DAY
            }
        },
        Schedule::Weekdays => {
            if is_weekday(today) {
                elapsed < SECONDS_PER_DAY
            } else {
                elapsed < SECONDS_PER_WEEK
            }
        },
    }
}

/// Decides whether a task declared with `interval` and last completed at
/// `last_modified` is within its cadence at `now`, on a local day that is
/// `today`; or, when `interval` is no schedule, says why.
pub fn check_interval(last_modified: i64, interval: &RawValue, now: i64, today: Weekday) -> (r:
    Result<bool, ScheduleError>)
    ensures
        match schedule_of(interval@) {
            Ok(s) => r == Ok::<bool, ScheduleError>(
                satisfied(elapsed_seconds(last_modified as int, now as int), s, today),
            ),
            Err(e) => r == Err::<bool, ScheduleError>(e),
        },
        interval@ is Text && interval@->Text_0 != weekdays_word() ==> r == Err::<
            bool,
            ScheduleError,
        >(ScheduleError::UnknownCadence),
        interval@ is Other ==> r == Err::<bool, ScheduleError>(ScheduleError::UnsupportedValue),
        interval@ is Integer && 0 <= interval@->Integer_0 <= MAX_INTERVAL_DAYS ==> r == Ok::<
            bool,
            ScheduleError,
        >(elapsed_seconds(last_modified as int, now as int) < interval@->Integer_0 * 86400),
{
    match parse_schedule(interval) {
        Ok(s) => Ok(within_schedule(last_modified, s, now, today)),
        Err(e) => Err(e),
    }
}

} // verus!
