//! Calendar time values decoded from the radio signal, and the validity
//! checks that decide whether a decoded candidate names a real date and
//! time of day.

use vstd::prelude::*;

verus! {

/// A calendar timestamp reconstructed from a received frame and the
/// decoder's live second counter.
#[derive(Clone, Copy, Debug, PartialEq, Eq, Structural)]
pub struct DecodedTime {
    pub year: u16,
    pub month: u8,
    pub day: u8,
    pub hour: u8,
    pub minute: u8,
    pub second: u8,
}

/// A time of day as shown on the clock face.
#[derive(Clone, Copy, Debug, PartialEq, Eq, Structural)]
pub struct TimeOfDay {
    pub hour: u8,
    pub minute: u8,
    pub second: u8,
}

/// Proleptic Gregorian leap-year rule.
pub open spec fn is_leap_year(year: int) -> bool {
    year % 4 == 0 && (year % 100 != 0 || year % 400 == 0)
}

/// Number of days of `month` in `year`.
pub open spec fn days_in_month(year: int, month: int) -> int {
    if month == 2 {
        if is_leap_year(year) {
            29
        } else {
            28
        }
    } else if month == 4 || month == 6 || month == 9 || month == 11 {
        30
    } else {
        31
    }
}

/// True iff `year-month-day` names a day of the proleptic Gregorian
/// calendar.
pub open spec fn valid_date(year: int, month: int, day: int) -> bool {
    1 <= month <= 12 && 1 <= day <= days_in_month(year, month)
}

/// True iff `hour:minute:second` names a time of day.
pub open spec fn valid_time(hour: int, minute: int, second: int) -> bool {
    0 <= hour < 24 && 0 <= minute < 60 && 0 <= second < 60
}

/// Relies on `chrono::NaiveDate::from_ymd_opt`: it returns `Some` exactly
/// for a valid proleptic Gregorian calendar date (for years well inside
/// chrono's supported range).
#[verifier::external_body]
pub(crate) fn ymd_is_valid(year: i32, month: u32, day: u32) -> (r: bool)
    requires
        0 <= year <= 9999,
    ensures
        r == valid_date(year as int, month as int, day as int),
{
    chrono::NaiveDate::from_ymd_opt(year, month, day).is_some()
}

/// Relies on `chrono::NaiveTime::from_hms_opt`: it returns `Some` exactly
/// when `hour < 24`, `minute < 60` and `second < 60`.
#[verifier::external_body]
pub(crate) fn hms_is_valid(hour: u32, minute: u32, second: u32) -> (r: bool)
    ensures
        r == valid_time(hour as int, minute as int, second as int),
{
    chrono::NaiveTime::from_hms_opt(hour, minute, second).is_some()
}

} // verus!
