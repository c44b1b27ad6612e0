//! Calendar dates as plain values, and today's date.
use vstd::prelude::*;

verus! {

/// Gregorian leap years.
pub open spec fn is_leap_year(year: int) -> bool {
    (year % 4 == 0 && year % 100 != 0) || year % 400 == 0
}

/// Length of a month, 1 to 12.
pub open spec fn days_in_month(year: int, month: int) -> int {
    if month == 2 {
        if is_leap_year(year) {
            29
        } else {
            28
        }
    } else if month == 4 || month == 6 || month == 9 || month == 11 {
        30
    } else {
        31
    }
}

/// A day of the proleptic Gregorian calendar.
#[derive(Clone, Copy, Debug, PartialEq, Eq, Structural)]
pub struct Date {
    pub year: i32,
    pub month: u32,
    pub day: u32,
}

impl Date {
    /// A day that exists in the calendar.
    pub open spec fn is_valid(self) -> bool {
        1 <= self.month <= 12 && 1 <= self.day <= days_in_month(self.year as int, self.month as int)
    }
}

/// Relies on chrono's `Local::now` and `DateTime::date_naive`, read through
/// `Datelike`: today's date in the local time zone, which is a valid
/// calendar date.
#[verifier::external_body]
pub fn today() -> (d: Date)
    ensures
        d.is_valid(),
{
    let now = chrono::Local::now().date_naive();
    Date {
        year: chrono::Datelike::year(&now),
        month: chrono::Datelike::month(&now),
        day: chrono::Datelike::day(&now),
    }
}

} // verus!
