//! Calendar date-times and times of day.
//!
//! An accident's occurrence instant is assembled from five adjacent numeric
//! columns (year, month, day, hour, minute) into a calendar timestamp with a
//! fixed UTC+9 offset and seconds always zero.  Sunrise and sunset are plain
//! times of day with the same hour/minute bounds.  Validation is pure
//! arithmetic on the components: month 1-12, a real proleptic-Gregorian
//! calendar date within years -9999..=9999, hour 0-23, minute 0-59.

use vstd::prelude::*;

verus! {

/// Why a date-time or time-of-day could not be assembled; each variant names
/// the offending component and carries its value.
#[derive(Debug, Clone, Copy, PartialEq, Eq, Structural)]
pub enum DateTimeError {
    MonthOutOfRange { month: i32 },
    YearOutOfRange { year: i32 },
    DayOutOfRange { year: i32, month: i32, day: i32 },
    HourOutOfRange { hour: i32 },
    MinuteOutOfRange { minute: i32 },
}

/// A calendar timestamp with a fixed UTC+9 offset; seconds are always zero.
#[derive(Debug, Clone, Copy, PartialEq, Eq, Structural)]
pub struct OffsetDateTime {
    pub year: i32,
    pub month: u8,
    pub day: u8,
    pub hour: u8,
    pub minute: u8,
}

/// A time of day; seconds are always zero.
#[derive(Debug, Clone, Copy, PartialEq, Eq, Structural)]
pub struct Time {
    pub hour: u8,
    pub minute: u8,
}

/// Leap years of the proleptic Gregorian calendar.  Divisibility does not
/// depend on the sign of the year, so the rule is stated on its magnitude.
pub open spec fn is_leap_year(year: int) -> bool {
    let y = if year < 0 {
        -year
    } else {
        year
    };
    (y % 4 == 0 && y % 100 != 0) || y % 400 == 0
}

/// Number of days of `month` in `year`.
pub open spec fn days_in_month(year: int, month: int) -> int {
    if month == 2 {
        if is_leap_year(year) {
            29
        } else {
            28
        }
    } else if month == 4 || month == 6 || month == 9 || month == 11 {
        30
    } else {
        31
    }
}

/// A real calendar date within the supported year range.
pub open spec fn valid_date(year: int, month: int, day: int) -> bool {
    -9999 <= year <= 9999 && 1 <= month <= 12 && 1 <= day <= days_in_month(year, month)
}

/// A real time of day.
pub open spec fn valid_time(hour: int, minute: int) -> bool {
    0 <= hour <= 23 && 0 <= minute <= 59
}

/// The first violated component of a date-time, checked in the order month,
/// year, day, hour, minute; `None` when all five components are in range.
pub open spec fn spec_datetime_error(year: i32, month: i32, day: i32, hour: i32, minute: i32) -> Option<
    DateTimeError,
> {
    if !(1 <= month <= 12) {
        Some(DateTimeError::MonthOutOfRange { month })
    } else if !(-9999 <= year <= 9999) {
        Some(DateTimeError::YearOutOfRange { year })
    } else if !(1 <= day <= days_in_month(year as int, month as int)) {
        Some(DateTimeError::DayOutOfRange { year, month, day })
    } else if !(0 <= hour <= 23) {
        Some(DateTimeError::HourOutOfRange { hour })
    } else if !(0 <= minute <= 59) {
        Some(DateTimeError::MinuteOutOfRange { minute })
    } else {
        None
    }
}

/// The first violated component of a time of day, hour before minute.
pub open spec fn spec_time_error(hour: i32, minute: i32) -> Option<DateTimeError> {
    if !(0 <= hour <= 23) {
        Some(DateTimeError::HourOutOfRange { hour })
    } else if !(0 <= minute <= 59) {
        Some(DateTimeError::MinuteOutOfRange { minute })
    } else {
        None
    }
}

impl OffsetDateTime {
    /// The components form a real calendar date and time.
    pub open spec fn wf(self) -> bool {
        valid_date(self.year as int, self.month as int, self.day as int) && valid_time(
            self.hour as int,
            self.minute as int,
        )
    }

    pub fn year(&self) -> (r: i32)
        ensures
            r == self.year,
    {
        self.year
    }

    pub fn month(&self) -> (r: u8)
        ensures
            r == self.month,
    {
        self.month
    }

    pub fn day(&self) -> (r: u8)
        ensures
            r == self.day,
    {
        self.day
    }

    pub fn hour(&self) -> (r: u8)
        ensures
            r == self.hour,
    {
        self.hour
    }

    pub fn minute(&self) -> (r: u8)
        ensures
            r == self.minute,
    {
        self.minute
    }

    /// Seconds are fixed at zero by construction.
    pub fn second(&self) -> (r: u8)
        ensures
            r == 0,
    {
        0
    }

    /// The offset from UTC is fixed at +9 hours by construction.
    pub fn offset_hours(&self) -> (r: i32)
        ensures
            r == 9,
    {
        9
    }
}

impl Time {
    /// The components form a real time of day.
    pub open spec fn wf(self) -> bool {
        valid_time(self.hour as int, self.minute as int)
    }

    pub fn hour(&self) -> (r: u8)
        ensures
            r == self.hour,
    {
        self.hour
    }

    pub fn minute(&self) -> (r: u8)
        ensures
            r == self.minute,
    {
        self.minute
    }

    /// Seconds are fixed at zero by construction.
    pub fn second(&self) -> (r: u8)
        ensures
            r == 0,
    {
        0
    }
}

/// Date-time assembly is total on calendar-valid tuples and rejects all
/// others: it succeeds exactly when the five components form a real
/// calendar date and time of day.  Together with `offset_datetime`'s
/// contract, the assembled timestamp then re-reads as exactly the five
/// components it was built from.
pub proof fn lemma_datetime_assembly_iff(year: i32, month: i32, day: i32, hour: i32, minute: i32)
    ensures
        spec_datetime_error(year, month, day, hour, minute) is None <==> (valid_date(
            year as int,
            month as int,
            day as int,
        ) && valid_time(hour as int, minute as int)),
{
}

/// Number of days of `month` in `year`, executably.
fn days_in_month_exec(year: i32, month: i32) -> (r: i32)
    requires
        1 <= month <= 12,
        -9999 <= year <= 9999,
    ensures
        r == days_in_month(year as int, month as int),
{
    if month == 2 {
        let y: i32 = if year < 0 {
            -year
        } else {
            year
        };
        if (y % 4 == 0 && y % 100 != 0) || y % 400 == 0 {
            29
        } else {
            28
        }
    } else if month == 4 || month == 6 || month == 9 || month == 11 {
        30
    } else {
        31
    }
}

/// Assembles a calendar timestamp with the fixed +9:00 offset from its five
/// components, validating month, year, day, hour and minute in that order.
///
/// Succeeds exactly on real calendar dates and times; on any violation it
/// reports the first offending component together with its value.
pub fn offset_datetime(year: i32, month: i32, day: i32, hour: i32, minute: i32) -> (r: Result<
    OffsetDateTime,
    DateTimeError,
>)
    ensures
        r == (match spec_datetime_error(year, month, day, hour, minute) {
            Some(e) => Err::<OffsetDateTime, DateTimeError>(e),
            None => Ok(
                OffsetDateTime {
                    year,
                    month: month as u8,
                    day: day as u8,
                    hour: hour as u8,
                    minute: minute as u8,
                },
            ),
        }),
        r matches Ok(dt) ==> dt.wf(),
{
    if month < 1 || month > 12 {
        return Err(DateTimeError::MonthOutOfRange { month });
    }
    if year < -9999 || year > 9999 {
        return Err(DateTimeError::YearOutOfRange { year });
    }
    if day < 1 || day > days_in_month_exec(year, month) {
        return Err(DateTimeError::DayOutOfRange { year, month, day });
    }
    if hour < 0 || hour > 23 {
        return Err(DateTimeError::HourOutOfRange { hour });
    }
    if minute < 0 || minute > 59 {
        return Err(DateTimeError::MinuteOutOfRange { minute });
    }
    Ok(OffsetDateTime { year, month: month as u8, day: day as u8, hour: hour as u8, minute: minute as u8 })
}

/// Assembles a time of day from hour and minute, validating hour first.
///
/// Succeeds exactly when the hour is 0-23 and the minute 0-59; on a
/// violation it reports the offending component together with its value.
pub fn time(hour: i32, minute: i32) -> (r: Result<Time, DateTimeError>)
    ensures
        r == (match spec_time_error(hour, minute) {
            Some(e) => Err::<Time, DateTimeError>(e),
            None => Ok(Time { hour: hour as u8, minute: minute as u8 }),
        }),
        r matches Ok(t) ==> t.wf(),
{
    if hour < 0 || hour > 23 {
        return Err(DateTimeError::HourOutOfRange { hour });
    }
    if minute < 0 || minute > 59 {
        return Err(DateTimeError::MinuteOutOfRange { minute });
    }
    Ok(Time { hour: hour as u8, minute: minute as u8 })
}

} // verus!
