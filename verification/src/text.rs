//! Rendering numbers as text for the character display.
//!
//! The display takes plain strings, so the temperature banner is built here
//! by hand: a decimal rendering of a tenths-of-a-degree count, proved to
//! match its mathematical decimal representation digit for digit.

use vstd::prelude::*;
use vstd::string::StringExecFns;

verus! {

/// The digit character for `d`; `'0'` through `'9'`.
pub open spec fn digit_char(d: int) -> char {
    if d == 0 {
        '0'
    } else if d == 1 {
        '1'
    } else if d == 2 {
        '2'
    } else if d == 3 {
        '3'
    } else if d == 4 {
        '4'
    } else if d == 5 {
        '5'
    } else if d == 6 {
        '6'
    } else if d == 7 {
        '7'
    } else if d == 8 {
        '8'
    } else {
        '9'
    }
}

/// The decimal representation of a non-negative number, most significant
/// digit first, without leading zeros (except for zero itself).
pub open spec fn decimal_rep(n: int) -> Seq<char>
    decreases n,
{
    if n < 10 {
        seq![digit_char(n)]
    } else {
        decimal_rep(n / 10).push(digit_char(n % 10))
    }
}

/// One decimal digit as a string.
fn digit_str(d: u64) -> (r: &'static str)
    requires
        d < 10,
    ensures
        r@ == seq![digit_char(d as int)],
{
    proof {
        reveal_strlit("0");
        reveal_strlit("1");
        reveal_strlit("2");
        reveal_strlit("3");
        reveal_strlit("4");
        reveal_strlit("5");
        reveal_strlit("6");
        reveal_strlit("7");
        reveal_strlit("8");
        reveal_strlit("9");
    }
    let r: &'static str = if d == 0 {
        "0"
    } else if d == 1 {
        "1"
    } else if d == 2 {
        "2"
    } else if d == 3 {
        "3"
    } else if d == 4 {
        "4"
    } else if d == 5 {
        "5"
    } else if d == 6 {
        "6"
    } else if d == 7 {
        "7"
    } else if d == 8 {
        "8"
    } else {
        "9"
    };
    proof {
        assert(r@ =~= seq![digit_char(d as int)]);
    }
    r
}

/// Renders `n` in decimal.
pub fn format_u64(n: u64) -> (r: String)
    ensures
        r@ == decimal_rep(n as int),
    decreases n,
{
    if n < 10 {
        return digit_str(n).to_owned();
    }
    let mut prefix: String = format_u64(n / 10);
    prefix.append(digit_str(n % 10));
    proof {
        assert(prefix@ =~= decimal_rep(n as int));
    }
    prefix
}

/// The text of a temperature of `t` tenths of a degree Celsius: the signed
/// whole degrees, a decimal point, and the tenths digit.
pub open spec fn temp_rep(t: int) -> Seq<char> {
    let mag = if t >= 0 {
        t
    } else {
        -t
    };
    let sign: Seq<char> = if t < 0 {
        seq!['-']
    } else {
        Seq::empty()
    };
    sign + decimal_rep(mag / 10) + seq!['.', digit_char(mag % 10)]
}

/// Renders a temperature given in tenths of a degree Celsius, as whole
/// degrees with one decimal place: `650` becomes `65.0`, `-5` becomes
/// `-0.5`.
pub fn format_tenths(t: i32) -> (r: String)
    ensures
        r@ == temp_rep(t as int),
{
    proof {
        reveal_strlit("-");
        reveal_strlit(".");
        reveal_strlit("");
    }
    let wide: i64 = t as i64;
    let abs: i64 = if wide < 0 {
        -wide
    } else {
        wide
    };
    let mag: u64 = (abs as u64) / 10;
    let frac: u64 = (abs as u64) % 10;
    let mut out: String = if t < 0 {
        ("-").to_owned()
    } else {
        ("").to_owned()
    };
    let digits: String = format_u64(mag);
    out.append(digits.as_str());
    out.append(".");
    out.append(digit_str(frac));
    proof {
        assert(out@ =~= temp_rep(t as int));
    }
    out
}

} // verus!
