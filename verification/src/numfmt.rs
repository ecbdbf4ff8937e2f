//! Decimal text for the numbers that appear on the wire: timestamps as
//! plain integers, and measurements held in hundredths printed with
//! their trailing fractional zeros dropped.
use vstd::prelude::*;
use vstd::string::*;
use crate::escape::push_char;

verus! {

/// The decimal digit character for a digit value.
pub open spec fn dec_digit(d: int) -> char {
    if d == 0 {
        '0'
    } else if d == 1 {
        '1'
    } else if d == 2 {
        '2'
    } else if d == 3 {
        '3'
    } else if d == 4 {
        '4'
    } else if d == 5 {
        '5'
    } else if d == 6 {
        '6'
    } else if d == 7 {
        '7'
    } else if d == 8 {
        '8'
    } else {
        '9'
    }
}

/// Decimal digits of a natural number, most significant first, without
/// leading zeros (zero itself is the single digit '0').
pub open spec fn dec_nat(n: nat) -> Seq<char>
    decreases n,
{
    if n < 10 {
        seq![dec_digit(n as int)]
    } else {
        dec_nat(n / 10) + seq![dec_digit((n % 10) as int)]
    }
}

/// Decimal form of an integer: a leading minus sign when negative.
pub open spec fn dec_int(n: int) -> Seq<char> {
    if n < 0 {
        seq!['-'] + dec_nat((-n) as nat)
    } else {
        dec_nat(n as nat)
    }
}

/// The fractional part of a value held in hundredths: empty for a whole
/// value, one digit when the hundredths digit is zero, two otherwise.
pub open spec fn centi_frac(fr: int) -> Seq<char> {
    if fr == 0 {
        Seq::empty()
    } else if fr % 10 == 0 {
        seq!['.', dec_digit(fr / 10)]
    } else {
        seq!['.', dec_digit(fr / 10), dec_digit(fr % 10)]
    }
}

/// Decimal form of a signed value held in hundredths, e.g. 2550 prints
/// as "25.5", 2505 as "25.05", 2500 as "25", -50 as "-0.5".
pub open spec fn centi_dec(v: int) -> Seq<char> {
    let m: int = if v < 0 {
        -v
    } else {
        v
    };
    let sign: Seq<char> = if v < 0 {
        seq!['-']
    } else {
        Seq::empty()
    };
    sign + dec_nat((m / 100) as nat) + centi_frac(m % 100)
}

fn digit_char(d: u64) -> (c: char)
    requires
        d < 10,
    ensures
        c == dec_digit(d as int),
{
    if d == 0 {
        '0'
    } else if d == 1 {
        '1'
    } else if d == 2 {
        '2'
    } else if d == 3 {
        '3'
    } else if d == 4 {
        '4'
    } else if d == 5 {
        '5'
    } else if d == 6 {
        '6'
    } else if d == 7 {
        '7'
    } else if d == 8 {
        '8'
    } else {
        '9'
    }
}

/// Print a natural number in decimal.
pub fn u64_to_dec(n: u64) -> (out: String)
    ensures
        out@ == dec_nat(n as nat),
    decreases n,
{
    if n < 10 {
        let mut out = String::new();
        push_char(&mut out, digit_char(n));
        proof {
            assert(out@ =~= dec_nat(n as nat));
        }
        out
    } else {
        let mut out = u64_to_dec(n / 10);
        push_char(&mut out, digit_char(n % 10));
        proof {
            assert(out@ =~= dec_nat(n as nat));
        }
        out
    }
}

/// The magnitude of a signed value, as an unsigned one.
fn magnitude(v: i64) -> (m: u64)
    ensures
        m == (if v < 0 {
            -(v as int)
        } else {
            v as int
        }),
{
    if v >= 0 {
        v as u64
    } else {
        ((-(v + 1)) as u64) + 1
    }
}

/// Print a signed integer in decimal.
pub fn i64_to_dec(n: i64) -> (out: String)
    ensures
        out@ == dec_int(n as int),
{
    if n >= 0 {
        u64_to_dec(magnitude(n))
    } else {
        let mut out = String::new();
        push_char(&mut out, '-');
        let digits = u64_to_dec(magnitude(n));
        out.append(digits.as_str());
        proof {
            assert(out@ =~= dec_int(n as int));
        }
        out
    }
}

/// Print a signed value held in hundredths as a plain decimal, dropping
/// trailing fractional zeros.
pub fn centi_to_dec(v: i64) -> (out: String)
    ensures
        out@ == centi_dec(v as int),
{
    let mag = magnitude(v);
    let ip = mag / 100;
    let fr = mag % 100;
    let mut out = String::new();
    if v < 0 {
        push_char(&mut out, '-');
    }
    let digits = u64_to_dec(ip);
    out.append(digits.as_str());
    if fr != 0 {
        push_char(&mut out, '.');
        push_char(&mut out, digit_char(fr / 10));
        if fr % 10 != 0 {
            push_char(&mut out, digit_char(fr % 10));
        }
    }
    proof {
        assert(out@ =~= centi_dec(v as int));
    }
    out
}

} // verus!
