//! Calendar arithmetic for the Gregorian calendar, UTC only: month and year
//! lengths, day counts relative to the UNIX epoch (1970-01-01), and the field
//! ranges a captured build timestamp may take.

use vstd::prelude::*;

verus! {

/// Whether `y` is a leap year of the Gregorian calendar.
pub open spec fn is_leap_year(y: int) -> bool {
    (y % 4 == 0 && y % 100 != 0) || y % 400 == 0
}

/// Number of days in year `y`.
pub open spec fn days_in_year(y: int) -> int {
    if is_leap_year(y) { 366 } else { 365 }
}

/// Number of days in month `m` (1-based) of year `y`.
pub open spec fn days_in_month(y: int, m: int) -> int {
    if m == 2 {
        if is_leap_year(y) { 29 } else { 28 }
    } else if m == 4 || m == 6 || m == 9 || m == 11 {
        30
    } else {
        31
    }
}

/// Days from the start of year `y` up to (excluding) the first day of
/// month `m`; for `m == 13` this is the length of the whole year.
pub open spec fn days_before_month(y: int, m: int) -> int {
    let leap: int = if is_leap_year(y) { 1 } else { 0 };
    if m <= 1 {
        0
    } else if m == 2 {
        31
    } else if m == 3 {
        59 + leap
    } else if m == 4 {
        90 + leap
    } else if m == 5 {
        120 + leap
    } else if m == 6 {
        151 + leap
    } else if m == 7 {
        181 + leap
    } else if m == 8 {
        212 + leap
    } else if m == 9 {
        243 + leap
    } else if m == 10 {
        273 + leap
    } else if m == 11 {
        304 + leap
    } else if m == 12 {
        334 + leap
    } else {
        365 + leap
    }
}

/// Days from 1970-01-01 up to (excluding) the first day of year `y`,
/// for `y >= 1970`.
pub open spec fn days_before_year(y: int) -> int
    decreases y,
{
    if y <= 1970 {
        0
    } else {
        days_before_year(y - 1) + days_in_year(y - 1)
    }
}

/// Days from 1970-01-01 up to (excluding) the calendar day `y`-`m`-`d`.
pub open spec fn days_from_civil(y: int, m: int, d: int) -> int {
    days_before_year(y) + days_before_month(y, m) + (d - 1)
}

/// The calendar dates this library represents: years 1970 through 9999,
/// months and days within their Gregorian ranges.
pub open spec fn valid_ymd(y: int, m: int, d: int) -> bool {
    &&& 1970 <= y <= 9999
    &&& 1 <= m <= 12
    &&& 1 <= d <= days_in_month(y, m)
}

/// `days_before_month` and `days_in_month` agree: each month's length is the
/// gap between consecutive cumulative counts, and twelve months fill the year.
pub proof fn lemma_days_before_month_step(y: int, m: int)
    requires
        1 <= m <= 12,
    ensures
        days_before_month(y, m) + days_in_month(y, m) == days_before_month(y, m + 1),
        days_before_month(y, 13) == days_in_year(y),
{
}

/// Cumulative month counts grow with the month.
pub proof fn lemma_days_before_month_monotone(y: int, m1: int, m2: int)
    requires
        1 <= m1 <= m2 <= 13,
    ensures
        days_before_month(y, m1) <= days_before_month(y, m2),
{
}

/// Bounds on the day count before a year: every year has 365 or 366 days.
pub proof fn lemma_days_before_year_bounds(y: int)
    requires
        1970 <= y,
    ensures
        365 * (y - 1970) <= days_before_year(y) <= 366 * (y - 1970),
    decreases y,
{
    if y > 1970 {
        lemma_days_before_year_bounds(y - 1);
    }
}

/// Cumulative year counts grow by at least 365 days per year.
pub proof fn lemma_days_before_year_monotone(y1: int, y2: int)
    requires
        1970 <= y1 <= y2,
    ensures
        days_before_year(y1) + 365 * (y2 - y1) <= days_before_year(y2),
    decreases y2,
{
    if y1 < y2 {
        lemma_days_before_year_monotone(y1, y2 - 1);
    }
}

/// A valid calendar day lies within its own year's day range.
pub proof fn lemma_days_from_civil_range(y: int, m: int, d: int)
    requires
        valid_ymd(y, m, d),
    ensures
        days_before_year(y) <= days_from_civil(y, m, d) < days_before_year(y + 1),
        0 <= days_before_month(y, m) + (d - 1) < days_in_year(y),
{
    lemma_days_before_month_step(y, m);
    lemma_days_before_month_monotone(y, m + 1, 13);
}

/// Distinct valid calendar days have distinct day counts.
pub proof fn lemma_days_from_civil_injective(
    y1: int, m1: int, d1: int, y2: int, m2: int, d2: int,
)
    requires
        valid_ymd(y1, m1, d1),
        valid_ymd(y2, m2, d2),
        days_from_civil(y1, m1, d1) == days_from_civil(y2, m2, d2),
    ensures
        y1 == y2 && m1 == m2 && d1 == d2,
{
    lemma_days_from_civil_range(y1, m1, d1);
    lemma_days_from_civil_range(y2, m2, d2);
    if y1 < y2 {
        lemma_days_before_year_monotone(y1 + 1, y2);
        assert(false);
    }
    if y2 < y1 {
        lemma_days_before_year_monotone(y2 + 1, y1);
        assert(false);
    }
    if m1 < m2 {
        lemma_days_before_month_step(y1, m1);
        lemma_days_before_month_monotone(y1, m1 + 1, m2);
        assert(false);
    }
    if m2 < m1 {
        lemma_days_before_month_step(y1, m2);
        lemma_days_before_month_monotone(y1, m2 + 1, m1);
        assert(false);
    }
}

/// Whether `y` is a leap year.
pub fn leap_year(y: u16) -> (b: bool)
    ensures
        b == is_leap_year(y as int),
{
    (y % 4 == 0 && y % 100 != 0) || y % 400 == 0
}

/// Number of days in year `y`.
pub fn year_length(y: u16) -> (r: u16)
    ensures
        r == days_in_year(y as int),
{
    if leap_year(y) { 366 } else { 365 }
}

/// Number of days in month `m` (1-based) of year `y`.
pub fn month_length(y: u16, m: u8) -> (r: u8)
    ensures
        r == days_in_month(y as int, m as int),
{
    if m == 2 {
        if leap_year(y) { 29 } else { 28 }
    } else if m == 4 || m == 6 || m == 9 || m == 11 {
        30
    } else {
        31
    }
}

} // verus!
