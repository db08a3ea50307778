use chrono::{Datelike, Local, Timelike};
use vstd::prelude::*;

verus! {

/// Seconds in a day without a leap second.
pub const SECONDS_PER_DAY: u64 = 86_400;

/// Nanoseconds in a second.
pub const NANOS_PER_SECOND: u64 = 1_000_000_000;

/// A day of the proleptic Gregorian calendar.
#[derive(Debug, Clone, Copy, PartialEq, Eq, Structural)]
pub struct CalendarDate {
    year: i32,
    month: u32,
    day: u32,
}

/// Whether a year has a 29th of February.
pub open spec fn is_leap_year(year: int) -> bool {
    year % 4 == 0 && (year % 100 != 0 || year % 400 == 0)
}

/// The number of days of a month; 0 where the month's number names none.
pub open spec fn days_in_month(year: int, month: int) -> int {
    if month == 2 {
        if is_leap_year(year) {
            29
        } else {
            28
        }
    } else if month == 4 || month == 6 || month == 9 || month == 11 {
        30
    } else if 1 <= month <= 12 {
        31
    } else {
        0
    }
}

/// Whether three numbers name a day of the calendar.
pub open spec fn is_date(year: int, month: int, day: int) -> bool {
    1 <= month <= 12 && 1 <= day <= days_in_month(year, month)
}

/// Whether four numbers name a time of day. The nanoseconds go up to twice a
/// second's worth less one: the upper half stands for a leap second.
pub open spec fn is_time(hour: int, minute: int, second: int, nanosecond: int) -> bool {
    0 <= hour < 24 && 0 <= minute < 60 && 0 <= second < 60 && 0 <= nanosecond < 2
        * NANOS_PER_SECOND
}

impl CalendarDate {
    /// The year; years before the year 1 are zero and below.
    pub closed spec fn spec_year(self) -> i32 {
        self.year
    }

    /// The month, from 1.
    pub closed spec fn spec_month(self) -> u32 {
        self.month
    }

    /// The day of the month, from 1.
    pub closed spec fn spec_day(self) -> u32 {
        self.day
    }

    /// The date names a day of the calendar.
    pub open spec fn valid(self) -> bool {
        is_date(self.spec_year() as int, self.spec_month() as int, self.spec_day() as int)
    }

    /// The date with these numbers, if they name a day of the calendar.
    pub fn new(year: i32, month: u32, day: u32) -> (date: Option<CalendarDate>)
        ensures
            date is Some <==> is_date(year as int, month as int, day as int),
            date is Some ==> date->0.spec_year() == year && date->0.spec_month() == month
                && date->0.spec_day() == day,
    {
        if month < 1 || month > 12 || day < 1 {
            return None;
        }
        // A whole number of 400-year cycles is added, so that the remainders
        // are taken of a number that is not negative.
        let shifted: i64 = (year as i64) + 2_147_484_000;
        assert(shifted % 4 == (year as int) % 4 && shifted % 100 == (year as int) % 100
            && shifted % 400 == (year as int) % 400);
        let leap = shifted % 4 == 0 && (shifted % 100 != 0 || shifted % 400 == 0);
        let last: u32 = if month == 2 {
            if leap {
                29
            } else {
                28
            }
        } else if month == 4 || month == 6 || month == 9 || month == 11 {
            30
        } else {
            31
        };
        if day > last {
            return None;
        }
        Some(CalendarDate { year, month, day })
    }

    /// The year.
    #[verifier::when_used_as_spec(spec_year)]
    pub fn year(self) -> (year: i32)
        ensures
            year == self.spec_year(),
    {
        self.year
    }

    /// The month, from 1.
    #[verifier::when_used_as_spec(spec_month)]
    pub fn month(self) -> (month: u32)
        ensures
            month == self.spec_month(),
    {
        self.month
    }

    /// The day of the month, from 1.
    #[verifier::when_used_as_spec(spec_day)]
    pub fn day(self) -> (day: u32)
        ensures
            day == self.spec_day(),
    {
        self.day
    }
}

/// A local date and time of day, as a wall clock shows it.
#[derive(Debug, Clone, Copy, PartialEq, Eq, Structural)]
pub struct LocalMoment {
    date: CalendarDate,
    hour: u32,
    minute: u32,
    second: u32,
    nanosecond: u32,
}

impl LocalMoment {
    /// The day of the moment.
    pub closed spec fn spec_date(self) -> CalendarDate {
        self.date
    }

    /// The hour of the day.
    pub closed spec fn spec_hour(self) -> u32 {
        self.hour
    }

    /// The minute of the hour.
    pub closed spec fn spec_minute(self) -> u32 {
        self.minute
    }

    /// The second of the minute.
    pub closed spec fn spec_second(self) -> u32 {
        self.second
    }

    /// The nanoseconds since the whole second; a thousand million and more
    /// in a leap second.
    pub closed spec fn spec_nanosecond(self) -> u32 {
        self.nanosecond
    }

    /// The moment names a day of the calendar and a time of that day.
    pub open spec fn valid(self) -> bool {
        self.spec_date().valid() && is_time(
            self.spec_hour() as int,
            self.spec_minute() as int,
            self.spec_second() as int,
            self.spec_nanosecond() as int,
        )
    }

    /// Whole seconds since the day's midnight, a leap second not counted.
    pub open spec fn seconds_of_day(self) -> int {
        self.spec_hour() * 3600 + self.spec_minute() * 60 + self.spec_second()
    }

    /// The moment at this time of this day, if the numbers name a time.
    pub fn new(date: CalendarDate, hour: u32, minute: u32, second: u32, nanosecond: u32) -> (moment:
        Option<LocalMoment>)
        ensures
            moment is Some <==> is_time(
                hour as int,
                minute as int,
                second as int,
                nanosecond as int,
            ),
            moment is Some ==> moment->0.spec_date() == date && moment->0.spec_hour() == hour
                && moment->0.spec_minute() == minute && moment->0.spec_second() == second
                && moment->0.spec_nanosecond() == nanosecond,
    {
        if hour < 24 && minute < 60 && second < 60 && nanosecond < 2_000_000_000 {
            Some(LocalMoment { date, hour, minute, second, nanosecond })
        } else {
            None
        }
    }

    /// The day of the moment.
    #[verifier::when_used_as_spec(spec_date)]
    pub fn date(self) -> (date: CalendarDate)
        ensures
            date == self.spec_date(),
    {
        self.date
    }
}

/// The whole seconds from a moment to the midnight that begins the next day,
/// by the wall clock: the part of a second that is left over is dropped, and
/// a moment in the leap second before midnight, from which the wall clock's
/// midnight lies behind, gives zero.
pub open spec fn delay_of(now: LocalMoment) -> int {
    let nanos_left = (SECONDS_PER_DAY - now.seconds_of_day()) * NANOS_PER_SECOND
        - now.spec_nanosecond();
    if nanos_left <= 0 {
        0
    } else {
        nanos_left / (NANOS_PER_SECOND as int)
    }
}

/// The seconds to wait from `now` until the next run, which is due at the
/// next local midnight.
pub fn delay_from(now: LocalMoment) -> (seconds: u64)
    ensures
        seconds == delay_of(now),
        seconds <= SECONDS_PER_DAY,
        now.valid() && now.spec_nanosecond() == 0 ==> seconds == SECONDS_PER_DAY
            - now.seconds_of_day(),
{
    let elapsed: u64 = (now.hour as u64) * 3600 + (now.minute as u64) * 60 + (now.second as u64);
    if elapsed >= SECONDS_PER_DAY {
        return 0;
    }
    let whole: u64 = (SECONDS_PER_DAY - elapsed) * NANOS_PER_SECOND;
    let part: u64 = now.nanosecond as u64;
    if whole <= part {
        0
    } else {
        (whole - part) / NANOS_PER_SECOND
    }
}

/// Reads the wall clock with `chrono::Local::now` and takes the fields of its
/// naive local date and time. The contract claims what chrono documents of
/// them for every reading: the date is a day of the proleptic Gregorian
/// calendar, the hour is below 24, minute and second are below 60, and the
/// nanoseconds are below two thousand million.
#[verifier::external_body]
fn local_now() -> (now: LocalMoment)
    ensures
        now.valid(),
{
    let now = Local::now().naive_local();
    LocalMoment {
        date: CalendarDate { year: now.year(), month: now.month(), day: now.day() },
        hour: now.hour(),
        minute: now.minute(),
        second: now.second(),
        nanosecond: now.nanosecond(),
    }
}

/// The moment that the wall clock shows.
pub fn now() -> (moment: LocalMoment)
    ensures
        moment.valid(),
{
    local_now()
}

/// The seconds to wait until the next run, counted from the wall clock's
/// reading at the call.
pub fn delay_until_next_run() -> (seconds: u64)
    ensures
        seconds <= SECONDS_PER_DAY,
{
    delay_from(local_now())
}

/// The local day at the call.
pub fn today() -> (date: CalendarDate)
    ensures
        date.valid(),
{
    local_now().date()
}

} // verus!
