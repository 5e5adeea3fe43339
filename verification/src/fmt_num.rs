//! Decimal rendering of integers, used by the size and time formatters.
use vstd::prelude::*;

verus! {

/// The character for a single decimal digit.
pub open spec fn digit_char(d: nat) -> char {
    if d == 0 { '0' }
    else if d == 1 { '1' }
    else if d == 2 { '2' }
    else if d == 3 { '3' }
    else if d == 4 { '4' }
    else if d == 5 { '5' }
    else if d == 6 { '6' }
    else if d == 7 { '7' }
    else if d == 8 { '8' }
    else { '9' }
}

/// The usual decimal rendering of a natural number, most significant
/// digit first, no leading zeros (except for zero itself).
pub open spec fn dec_chars(n: nat) -> Seq<char>
    decreases n,
{
    if n < 10 {
        seq![digit_char(n)]
    } else {
        dec_chars(n / 10).push(digit_char(n % 10))
    }
}

/// One-character string for a decimal digit.
fn digit_str(d: u64) -> (r: &'static str)
    requires
        d < 10,
    ensures
        r@ =~= seq![digit_char(d as nat)],
{
    proof {
        reveal_strlit("0");
        reveal_strlit("1");
        reveal_strlit("2");
        reveal_strlit("3");
        reveal_strlit("4");
        reveal_strlit("5");
        reveal_strlit("6");
        reveal_strlit("7");
        reveal_strlit("8");
        reveal_strlit("9");
    }
    if d == 0 { "0" }
    else if d == 1 { "1" }
    else if d == 2 { "2" }
    else if d == 3 { "3" }
    else if d == 4 { "4" }
    else if d == 5 { "5" }
    else if d == 6 { "6" }
    else if d == 7 { "7" }
    else if d == 8 { "8" }
    else { "9" }
}

/// Decimal rendering of a `u64`.
pub fn u64_string(n: u64) -> (r: String)
    ensures
        r@ == dec_chars(n as nat),
    decreases n,
{
    if n < 10 {
        String::from_str(digit_str(n))
    } else {
        let mut s = u64_string(n / 10);
        s.append(digit_str(n % 10));
        proof {
            assert(s@ =~= dec_chars(n as nat));
        }
        s
    }
}

/// Decimal rendering of a signed number: a minus sign before the
/// digits when the number is negative.
pub open spec fn signed_dec_chars(n: int) -> Seq<char> {
    if n < 0 {
        seq!['-'] + dec_chars((-n) as nat)
    } else {
        dec_chars(n as nat)
    }
}

/// Decimal rendering of an `i64`.
pub fn i64_string(n: i64) -> (r: String)
    requires
        n > i64::MIN,
    ensures
        r@ == signed_dec_chars(n as int),
{
    if n < 0 {
        let mut s = String::from_str("-");
        let digits = u64_string((-n) as u64);
        s.append(digits.as_str());
        proof {
            reveal_strlit("-");
            assert(s@ =~= signed_dec_chars(n as int));
        }
        s
    } else {
        u64_string(n as u64)
    }
}

/// Decimal rendering zero-padded to two places, as a clock shows
/// minutes.
pub open spec fn two_digit_chars(n: nat) -> Seq<char> {
    if n < 10 {
        seq!['0'] + dec_chars(n)
    } else {
        dec_chars(n)
    }
}

/// Two-place zero-padded rendering of a number below one hundred.
pub fn two_digit_string(n: u64) -> (r: String)
    requires
        n < 100,
    ensures
        r@ == two_digit_chars(n as nat),
{
    if n < 10 {
        let mut s = String::from_str("0");
        s.append(digit_str(n));
        proof {
            reveal_strlit("0");
            assert(s@ =~= two_digit_chars(n as nat));
        }
        s
    } else {
        u64_string(n)
    }
}

/// Decimal rendering zero-padded to four places.
pub open spec fn four_digit_chars(n: nat) -> Seq<char> {
    if n < 10 {
        seq!['0', '0', '0'] + dec_chars(n)
    } else if n < 100 {
        seq!['0', '0'] + dec_chars(n)
    } else if n < 1000 {
        seq!['0'] + dec_chars(n)
    } else {
        dec_chars(n)
    }
}

/// A calendar year as the full-date formatter writes it: at least
/// four places, a sign when the year is negative or beyond 9999.
pub open spec fn year_chars(y: int) -> Seq<char> {
    if y < 0 {
        seq!['-'] + four_digit_chars((-y) as nat)
    } else if y >= 10000 {
        seq!['+'] + dec_chars(y as nat)
    } else {
        four_digit_chars(y as nat)
    }
}

/// Four-place zero-padded rendering of a number below ten thousand.
fn four_digit_string(n: u64) -> (r: String)
    requires
        n < 10000,
    ensures
        r@ == four_digit_chars(n as nat),
{
    proof {
        reveal_strlit("0");
        reveal_strlit("00");
        reveal_strlit("000");
    }
    if n < 10 {
        let mut s = String::from_str("000");
        s.append(digit_str(n));
        proof {
            assert(s@ =~= four_digit_chars(n as nat));
        }
        s
    } else if n < 100 {
        let mut s = String::from_str("00");
        let digits = u64_string(n);
        s.append(digits.as_str());
        proof {
            assert(s@ =~= four_digit_chars(n as nat));
        }
        s
    } else if n < 1000 {
        let mut s = String::from_str("0");
        let digits = u64_string(n);
        s.append(digits.as_str());
        proof {
            assert(s@ =~= four_digit_chars(n as nat));
        }
        s
    } else {
        u64_string(n)
    }
}

/// Rendering of a calendar year for the full-date formatter.
pub fn year_string(y: i64) -> (r: String)
    requires
        -1000000 < y < 1000000,
    ensures
        r@ == year_chars(y as int),
{
    if y < 0 {
        let mut s = String::from_str("-");
        let digits = four_digit_or_more((-y) as u64);
        s.append(digits.as_str());
        proof {
            reveal_strlit("-");
            assert(s@ =~= year_chars(y as int));
        }
        s
    } else if y >= 10000 {
        let mut s = String::from_str("+");
        let digits = u64_string(y as u64);
        s.append(digits.as_str());
        proof {
            reveal_strlit("+");
            assert(s@ =~= year_chars(y as int));
        }
        s
    } else {
        four_digit_string(y as u64)
    }
}

/// Four-place zero-padded rendering with no upper bound: numbers of
/// ten thousand and more keep all their digits.
fn four_digit_or_more(n: u64) -> (r: String)
    ensures
        r@ == four_digit_chars(n as nat),
{
    if n < 10000 {
        four_digit_string(n)
    } else {
        u64_string(n)
    }
}

} // verus!
