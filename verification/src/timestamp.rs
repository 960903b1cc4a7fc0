//! The `LocalTimestamp` value type: a calendar date, a time of day with
//! second precision, and a UTC offset in seconds.

use vstd::prelude::*;

verus! {

/// A point in time with an associated local UTC offset.
///
/// The calendar fields are plain integers; `well_formed` is the type's
/// invariant: a real calendar date whose year fits in four digits, a time
/// of day, and an offset of less than one day in either direction.
#[derive(Clone, Copy, PartialEq, Eq, Structural, Debug)]
pub struct LocalTimestamp {
    pub year: u32,
    pub month: u32,
    pub day: u32,
    pub hour: u32,
    pub minute: u32,
    pub second: u32,
    /// Local offset from UTC, in seconds east of UTC.
    pub offset_seconds: i32,
}

/// A leap year in the proleptic Gregorian calendar.
pub open spec fn spec_is_leap_year(year: int) -> bool {
    (year % 4 == 0 && year % 100 != 0) || year % 400 == 0
}

/// Number of days in the given month of the given year.
pub open spec fn spec_days_in_month(year: int, month: int) -> int {
    if month == 2 {
        if spec_is_leap_year(year) {
            29
        } else {
            28
        }
    } else if month == 4 || month == 6 || month == 9 || month == 11 {
        30
    } else {
        31
    }
}

impl LocalTimestamp {
    /// The type's invariant: a real calendar date with a four-digit year,
    /// a time of day, and an offset strictly smaller than one day.
    pub open spec fn well_formed(self) -> bool {
        &&& self.year <= 9999
        &&& 1 <= self.month <= 12
        &&& 1 <= self.day <= spec_days_in_month(self.year as int, self.month as int)
        &&& self.hour <= 23
        &&& self.minute <= 59
        &&& self.second <= 59
        &&& -86400 < self.offset_seconds < 86400
    }

    /// True when `self` and `other` carry the same calendar date and time
    /// of day; the offsets may differ.
    pub open spec fn same_date_time(self, other: LocalTimestamp) -> bool {
        &&& self.year == other.year
        &&& self.month == other.month
        &&& self.day == other.day
        &&& self.hour == other.hour
        &&& self.minute == other.minute
        &&& self.second == other.second
    }
}

/// Executable leap-year test.
pub fn is_leap_year(year: u32) -> (r: bool)
    ensures
        r == spec_is_leap_year(year as int),
{
    (year % 4 == 0 && year % 100 != 0) || year % 400 == 0
}

/// Executable month-length table.
pub fn days_in_month(year: u32, month: u32) -> (r: u32)
    ensures
        r == spec_days_in_month(year as int, month as int),
{
    if month == 2 {
        if is_leap_year(year) {
            29
        } else {
            28
        }
    } else if month == 4 || month == 6 || month == 9 || month == 11 {
        30
    } else {
        31
    }
}

} // verus!
