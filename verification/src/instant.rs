//! The build timestamp: a UTC calendar reading captured once per build, and
//! its conversion to and from seconds since the UNIX epoch. Both directions
//! work on the same calendar fields, so every view of one captured instant
//! agrees with every other.

use vstd::prelude::*;
use crate::calendar::{
    days_before_month, days_before_year, days_from_civil, days_in_month, days_in_year,
    lemma_days_before_year_bounds, lemma_days_before_year_monotone, lemma_days_from_civil_range,
    lemma_days_from_civil_injective, month_length, valid_ymd, year_length,
};

verus! {

/// The single UTC timestamp captured once per build.
#[derive(Clone, Copy, PartialEq, Eq, Structural, Debug)]
pub struct BuildInstant {
    pub year: u16,
    pub month: u8,
    pub day: u8,
    pub hour: u8,
    pub minute: u8,
    pub second: u8,
}

/// Signed seconds since 1970-01-01T00:00:00Z of the calendar reading `i`,
/// derived from the calendar fields themselves.
pub open spec fn unix_seconds_spec(i: BuildInstant) -> int {
    86400 * days_from_civil(i.year as int, i.month as int, i.day as int)
        + 3600 * (i.hour as int) + 60 * (i.minute as int) + (i.second as int)
}

/// The first UNIX second past the range this library represents
/// (the second after 9999-12-31T23:59:59Z).
pub open spec fn unix_seconds_limit() -> int {
    86400 * days_before_year(10000)
}

/// The host clock could not be read, or returned a reading outside the
/// range this library represents. Fatal to the build; never retried.
#[derive(Clone, Copy, PartialEq, Eq, Structural, Debug)]
pub enum ClockReadError {
    /// The clock itself was unavailable.
    Unavailable,
    /// The reading does not fall in the representable range.
    Unrepresentable,
}

impl BuildInstant {
    /// All fields in range: a UTC clock reading this library represents.
    pub open spec fn valid(self) -> bool {
        &&& valid_ymd(self.year as int, self.month as int, self.day as int)
        &&& self.hour <= 23
        &&& self.minute <= 59
        &&& self.second <= 59
    }

    /// Seconds since the UNIX epoch, computed from the calendar fields.
    pub fn unix_seconds(&self) -> (r: i64)
        requires
            self.valid(),
        ensures
            r == unix_seconds_spec(*self),
    {
        let mut y: u16 = 1970;
        let mut days: u64 = 0;
        while y < self.year
            invariant
                self.valid(),
                1970 <= y <= self.year,
                days == days_before_year(y as int),
                days <= 366 * ((y - 1970) as int),
            decreases self.year - y,
        {
            days = days + year_length(y) as u64;
            y = y + 1;
        }
        let mut m: u8 = 1;
        while m < self.month
            invariant
                self.valid(),
                1 <= m <= self.month,
                days == days_before_year(self.year as int)
                    + days_before_month(self.year as int, m as int),
                days_before_year(self.year as int) <= 366 * 8029,
            decreases self.month - m,
        {
            days = days + month_length(self.year, m) as u64;
            m = m + 1;
        }
        days = days + (self.day - 1) as u64;
        let secs: u64 = 86400 * days + 3600 * (self.hour as u64) + 60 * (self.minute as u64)
            + (self.second as u64);
        secs as i64
    }
}

/// Every valid instant maps into the representable UNIX-second range.
pub proof fn lemma_unix_seconds_range(i: BuildInstant)
    requires
        i.valid(),
    ensures
        0 <= unix_seconds_spec(i) < unix_seconds_limit(),
{
    lemma_days_from_civil_range(i.year as int, i.month as int, i.day as int);
    lemma_days_before_year_bounds(i.year as int);
    lemma_days_before_year_monotone(i.year as int + 1, 10000);
}

/// Distinct valid instants have distinct UNIX-second values; equivalently, a
/// UNIX-second value converts back to exactly the calendar fields it came
/// from. This is the round-trip guarantee between the structured date-time
/// view and the UNIX-seconds view.
pub proof fn lemma_unix_seconds_injective(a: BuildInstant, b: BuildInstant)
    requires
        a.valid(),
        b.valid(),
        unix_seconds_spec(a) == unix_seconds_spec(b),
    ensures
        a == b,
{
    let ta = 3600 * (a.hour as int) + 60 * (a.minute as int) + (a.second as int);
    let tb = 3600 * (b.hour as int) + 60 * (b.minute as int) + (b.second as int);
    let da = days_from_civil(a.year as int, a.month as int, a.day as int);
    let db = days_from_civil(b.year as int, b.month as int, b.day as int);
    assert(0 <= ta < 86400);
    assert(0 <= tb < 86400);
    assert(86400 * da + ta == 86400 * db + tb);
    assert(da == db);
    lemma_days_from_civil_injective(
        a.year as int, a.month as int, a.day as int,
        b.year as int, b.month as int, b.day as int,
    );
    assert(ta == tb);
    assert(a.hour == b.hour && a.minute == b.minute && a.second == b.second);
}

/// Converts a clock reading in UNIX seconds to UTC calendar fields. Readings
/// outside the representable range are rejected as unrepresentable, never
/// clamped. The result is the unique valid instant with that UNIX-second
/// value.
pub fn instant_from_unix(secs: i64) -> (r: Result<BuildInstant, ClockReadError>)
    ensures
        r is Ok <==> 0 <= secs < unix_seconds_limit(),
        r matches Ok(i) ==> i.valid() && unix_seconds_spec(i) == secs,
        r is Err ==> r == Err::<BuildInstant, ClockReadError>(ClockReadError::Unrepresentable),
        forall|j: BuildInstant| j.valid() && unix_seconds_spec(j) == secs
            ==> r == Ok::<BuildInstant, ClockReadError>(j),
{
    proof {
        assert forall|j: BuildInstant| j.valid() implies 0 <= unix_seconds_spec(j)
            < unix_seconds_limit() by {
            lemma_unix_seconds_range(j);
        }
    }
    if secs < 0 {
        return Err(ClockReadError::Unrepresentable);
    }
    let su: u64 = secs as u64;
    let days_total: u64 = su / 86400;
    let rem: u64 = su % 86400;
    let mut y: u16 = 1970;
    let mut d: u64 = days_total;
    loop
        invariant_except_break
            1970 <= y <= 9999,
            d + days_before_year(y as int) == days_total,
        invariant
            su == 86400 * days_total + rem,
            rem < 86400,
            su == secs,
            0 <= secs,
        ensures
            1970 <= y <= 9999,
            d + days_before_year(y as int) == days_total,
            d < days_in_year(y as int),
        decreases d,
    {
        let yl: u16 = year_length(y);
        if d < yl as u64 {
            break;
        }
        if y == 9999 {
            proof {
                assert(days_before_year(10000)
                    == days_before_year(9999) + days_in_year(9999));
                assert(days_total >= days_before_year(10000));
                assert(86400 * days_total >= 86400 * days_before_year(10000));
                assert(secs >= unix_seconds_limit());
                assert forall|j: BuildInstant| j.valid() implies unix_seconds_spec(j)
                    < unix_seconds_limit() by {
                    lemma_unix_seconds_range(j);
                }
            }
            return Err(ClockReadError::Unrepresentable);
        }
        d = d - yl as u64;
        y = y + 1;
    }
    let ghost day_of_year = d as int;
    let mut mo: u8 = 1;
    loop
        invariant_except_break
            1 <= mo <= 12,
            d + days_before_month(y as int, mo as int) == day_of_year,
        invariant
            1970 <= y <= 9999,
            day_of_year + days_before_year(y as int) == days_total,
            day_of_year < days_in_year(y as int),
        ensures
            1 <= mo <= 12,
            d + days_before_month(y as int, mo as int) == day_of_year,
            d < days_in_month(y as int, mo as int),
        decreases 12 - mo,
    {
        let ml: u8 = month_length(y, mo);
        if d < ml as u64 {
            break;
        }
        proof {
            assert(mo < 12) by {
                if mo == 12 {
                    assert(days_before_month(y as int, 13) == days_in_year(y as int));
                }
            }
        }
        d = d - ml as u64;
        mo = mo + 1;
    }
    let i = BuildInstant {
        year: y,
        month: mo,
        day: (d + 1) as u8,
        hour: (rem / 3600) as u8,
        minute: ((rem % 3600) / 60) as u8,
        second: (rem % 60) as u8,
    };
    proof {
        assert(rem == 3600 * (rem / 3600) + 60 * ((rem % 3600) / 60) + rem % 60) by {
            assert(rem == 3600 * (rem / 3600) + rem % 3600);
            assert(rem % 3600 == 60 * ((rem % 3600) / 60) + (rem % 3600) % 60);
            assert((rem % 3600) % 60 == rem % 60);
        }
        assert(days_from_civil(i.year as int, i.month as int, i.day as int) == days_total);
        assert(unix_seconds_spec(i) == secs);
        assert(i.valid());
        lemma_unix_seconds_range(i);
        assert forall|j: BuildInstant| j.valid() && unix_seconds_spec(j) == secs
            implies j == i by {
            lemma_unix_seconds_injective(j, i);
        }
    }
    Ok(i)
}

} // verus!
