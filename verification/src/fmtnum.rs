//! Decimal rendering of unsigned integers as character sequences: unpadded
//! digit runs and the fixed-width zero-padded fields the date and time
//! strings use.

use vstd::prelude::*;
use vstd::string::StringExecFns;

verus! {

/// The decimal digit character for `d` (0 through 9).
pub open spec fn digit_char(d: int) -> char {
    (48 + d) as char
}

/// Whether `c` is a decimal digit character.
pub open spec fn is_digit_char(c: char) -> bool {
    '0' <= c && c <= '9'
}

/// Decimal digits of `n >= 0`, most significant first, no padding and no
/// leading zeros.
pub open spec fn dec_digits(n: int) -> Seq<char>
    decreases n,
{
    if n < 10 {
        seq![digit_char(n)]
    } else {
        dec_digits(n / 10) + seq![digit_char(n % 10)]
    }
}

/// Numeric value of a sequence of decimal digit characters.
pub open spec fn val_of(s: Seq<char>) -> int
    decreases s.len(),
{
    if s.len() == 0 {
        0
    } else {
        10 * val_of(s.drop_last()) + (s.last() as int - 48)
    }
}

/// `n` zero-padded to exactly two digits (n < 100).
pub open spec fn two_digits(n: int) -> Seq<char> {
    seq![digit_char(n / 10), digit_char(n % 10)]
}

/// `n` zero-padded to exactly four digits (n < 10000).
pub open spec fn four_digits(n: int) -> Seq<char> {
    seq![
        digit_char(n / 1000),
        digit_char((n / 100) % 10),
        digit_char((n / 10) % 10),
        digit_char(n % 10),
    ]
}

/// The digit run of `n` is nonempty, consists of digit characters, has no
/// leading zero unless it is "0" itself, and evaluates back to `n`.
pub proof fn lemma_dec_digits_props(n: int)
    requires
        n >= 0,
    ensures
        1 <= dec_digits(n).len(),
        forall|k: int| 0 <= k < dec_digits(n).len() ==> is_digit_char(#[trigger] dec_digits(n)[k]),
        val_of(dec_digits(n)) == n,
        n >= 1 ==> dec_digits(n)[0] != '0',
        n < 10 ==> dec_digits(n) == seq![digit_char(n)],
    decreases n,
{
    if n < 10 {
        assert(val_of(seq![digit_char(n)].drop_last()) == 0);
    } else {
        lemma_dec_digits_props(n / 10);
        let s = dec_digits(n);
        assert(s.drop_last() =~= dec_digits(n / 10));
        assert(s.last() == digit_char(n % 10));
        assert(s[0] == dec_digits(n / 10)[0]);
    }
}

/// The single-character string for digit `d`.
pub fn digit_str(d: u8) -> (r: &'static str)
    requires
        d < 10,
    ensures
        r@ == seq![digit_char(d as int)],
{
    proof {
        reveal_strlit("0");
        reveal_strlit("1");
        reveal_strlit("2");
        reveal_strlit("3");
        reveal_strlit("4");
        reveal_strlit("5");
        reveal_strlit("6");
        reveal_strlit("7");
        reveal_strlit("8");
        reveal_strlit("9");
    }
    let r: &'static str = match d {
        0 => "0",
        1 => "1",
        2 => "2",
        3 => "3",
        4 => "4",
        5 => "5",
        6 => "6",
        7 => "7",
        8 => "8",
        _ => "9",
    };
    proof {
        assert(r@ =~= seq![digit_char(d as int)]);
    }
    r
}

/// Appends `n` zero-padded to two digits.
pub fn push_two_digits(s: &mut String, n: u8)
    requires
        n < 100,
    ensures
        final(s)@ == old(s)@ + two_digits(n as int),
{
    s.append(digit_str(n / 10));
    s.append(digit_str(n % 10));
    proof {
        assert(final(s)@ =~= old(s)@ + two_digits(n as int));
    }
}

/// Appends `n` zero-padded to four digits.
pub fn push_four_digits(s: &mut String, n: u16)
    requires
        n < 10000,
    ensures
        final(s)@ == old(s)@ + four_digits(n as int),
{
    s.append(digit_str((n / 1000) as u8));
    s.append(digit_str(((n / 100) % 10) as u8));
    s.append(digit_str(((n / 10) % 10) as u8));
    s.append(digit_str((n % 10) as u8));
    proof {
        assert(final(s)@ =~= old(s)@ + four_digits(n as int));
    }
}

/// The decimal digits of `n`, most significant first.
pub fn dec_u64_string(n: u64) -> (r: String)
    ensures
        r@ == dec_digits(n as int),
    decreases n,
{
    if n < 10 {
        let mut s = String::new();
        s.append(digit_str(n as u8));
        proof {
            assert(s@ =~= dec_digits(n as int));
        }
        s
    } else {
        let mut s = dec_u64_string(n / 10);
        s.append(digit_str((n % 10) as u8));
        proof {
            assert(s@ =~= dec_digits(n as int));
        }
        s
    }
}

} // verus!
