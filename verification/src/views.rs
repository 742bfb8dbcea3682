//! The string views of a captured build instant: date, time, and combined
//! date-time, all zero-padded, UTC, with fixed separators. All three are pure
//! projections of the same calendar fields, so they agree with each other for
//! every captured instant.

use vstd::prelude::*;
use vstd::string::StringExecFns;
use crate::fmtnum::{four_digits, push_four_digits, push_two_digits, two_digits};
use crate::instant::BuildInstant;

verus! {

/// `"YYYY-MM-DD"`, zero-padded.
pub open spec fn date_string_spec(i: BuildInstant) -> Seq<char> {
    four_digits(i.year as int) + seq!['-'] + two_digits(i.month as int) + seq!['-']
        + two_digits(i.day as int)
}

/// `"HH:MM:SS"`, 24-hour, zero-padded.
pub open spec fn time_string_spec(i: BuildInstant) -> Seq<char> {
    two_digits(i.hour as int) + seq![':'] + two_digits(i.minute as int) + seq![':']
        + two_digits(i.second as int)
}

/// `"YYYY-MM-DDTHH:MM:SSZ"`, spelled out field by field.
pub open spec fn datetime_string_spec(i: BuildInstant) -> Seq<char> {
    four_digits(i.year as int) + seq!['-'] + two_digits(i.month as int) + seq!['-']
        + two_digits(i.day as int) + seq!['T'] + two_digits(i.hour as int) + seq![':']
        + two_digits(i.minute as int) + seq![':'] + two_digits(i.second as int) + seq!['Z']
}

/// Cross-view consistency: for every instant, the combined date-time string
/// is exactly the date string, `'T'`, the time string, and `'Z'`.
pub proof fn lemma_datetime_string_consistent(i: BuildInstant)
    ensures
        datetime_string_spec(i) == date_string_spec(i) + seq!['T'] + time_string_spec(i)
            + seq!['Z'],
{
    assert(datetime_string_spec(i) =~= date_string_spec(i) + seq!['T'] + time_string_spec(i)
        + seq!['Z']);
}

impl BuildInstant {
    /// The date view, `"YYYY-MM-DD"`.
    pub fn date_string(&self) -> (r: String)
        requires
            self.valid(),
        ensures
            r@ == date_string_spec(*self),
    {
        let mut s = String::new();
        push_four_digits(&mut s, self.year);
        s.append("-");
        push_two_digits(&mut s, self.month);
        s.append("-");
        push_two_digits(&mut s, self.day);
        proof {
            reveal_strlit("-");
            assert(s@ =~= date_string_spec(*self));
        }
        s
    }

    /// The time view, `"HH:MM:SS"`.
    pub fn time_string(&self) -> (r: String)
        requires
            self.valid(),
        ensures
            r@ == time_string_spec(*self),
    {
        let mut s = String::new();
        push_two_digits(&mut s, self.hour);
        s.append(":");
        push_two_digits(&mut s, self.minute);
        s.append(":");
        push_two_digits(&mut s, self.second);
        proof {
            reveal_strlit(":");
            assert(s@ =~= time_string_spec(*self));
        }
        s
    }

    /// The combined view, `"YYYY-MM-DDTHH:MM:SSZ"`.
    pub fn datetime_string(&self) -> (r: String)
        requires
            self.valid(),
        ensures
            r@ == datetime_string_spec(*self),
    {
        let mut s = self.date_string();
        s.append("T");
        let t = self.time_string();
        s.append(t.as_str());
        s.append("Z");
        proof {
            reveal_strlit("T");
            reveal_strlit("Z");
            assert(s@ =~= datetime_string_spec(*self));
        }
        s
    }
}

} // verus!
