//! Decimal text for integers and milli fixed-point values: the spec
//! of the digit strings and the trusted renderer behind them.

use vstd::prelude::*;

use numtoa::NumToA;

verus! {

/// The digit character of one decimal digit.
pub open spec fn digit_char(d: int) -> char {
    if d == 0 {
        '0'
    } else if d == 1 {
        '1'
    } else if d == 2 {
        '2'
    } else if d == 3 {
        '3'
    } else if d == 4 {
        '4'
    } else if d == 5 {
        '5'
    } else if d == 6 {
        '6'
    } else if d == 7 {
        '7'
    } else if d == 8 {
        '8'
    } else {
        '9'
    }
}

/// The decimal digits of a non-negative integer, most significant
/// first.
pub open spec fn dec_digits(n: int) -> Seq<char>
    decreases n,
{
    if n < 10 {
        seq![digit_char(n)]
    } else {
        dec_digits(n / 10).push(digit_char(n % 10))
    }
}

/// The decimal text of an integer: the digits, with a leading minus
/// for negative values.
pub open spec fn spec_int_str(n: int) -> Seq<char> {
    if n < 0 {
        seq!['-'] + dec_digits(-n)
    } else {
        dec_digits(n)
    }
}

/// Relies on numtoa's `numtoa_str` at base 10: it renders an integer
/// as its standard decimal digits with a leading minus for negative
/// values.
#[verifier::external_body]
pub(crate) fn i64_to_dec_str(n: i64) -> (r: String)
    ensures
        r@ == spec_int_str(n as int),
{
    let mut buf = [0u8; 20];
    n.numtoa_str(10, &mut buf).to_string()
}

/// Relies on numtoa's `numtoa_str` at base 10, as [`i64_to_dec_str`].
#[verifier::external_body]
pub(crate) fn i32_to_dec_str(n: i32) -> (r: String)
    ensures
        r@ == spec_int_str(n as int),
{
    let mut buf = [0u8; 12];
    n.numtoa_str(10, &mut buf).to_string()
}

/// Relies on numtoa's `numtoa_str` at base 10, as [`i64_to_dec_str`].
#[verifier::external_body]
pub(crate) fn u8_to_dec_str(n: u8) -> (r: String)
    ensures
        r@ == spec_int_str(n as int),
{
    let mut buf = [0u8; 4];
    n.numtoa_str(10, &mut buf).to_string()
}

/// Relies on numtoa's `numtoa_str` at base 10, as [`i64_to_dec_str`].
#[verifier::external_body]
pub(crate) fn usize_to_dec_str(n: usize) -> (r: String)
    ensures
        r@ == spec_int_str(n as int),
{
    let mut buf = [0u8; 20];
    n.numtoa_str(10, &mut buf).to_string()
}

/// The decimal text of a milli fixed-point value: the whole part,
/// then up to three fractional digits with trailing zeros dropped, as
/// `1500` renders to `1.5` and `2000` to `2`.
pub open spec fn spec_milli_str(m: int) -> Seq<char> {
    let sign: Seq<char> = if m < 0 {
        seq!['-']
    } else {
        Seq::empty()
    };
    let a = if m < 0 {
        -m
    } else {
        m
    };
    let whole = a / 1000;
    let frac = a % 1000;
    if frac == 0 {
        sign + dec_digits(whole)
    } else if frac % 100 == 0 {
        sign + dec_digits(whole) + seq!['.'] + seq![digit_char(frac / 100)]
    } else if frac % 10 == 0 {
        sign + dec_digits(whole) + seq!['.'] + seq![digit_char(frac / 100)] + seq![
            digit_char((frac / 10) % 10),
        ]
    } else {
        sign + dec_digits(whole) + seq!['.'] + seq![digit_char(frac / 100)] + seq![
            digit_char((frac / 10) % 10),
        ] + seq![digit_char(frac % 10)]
    }
}

/// Renders a milli fixed-point value as decimal text.
pub fn milli_to_str(m: i64) -> (r: String)
    requires
        m > i64::MIN,
    ensures
        r@ == spec_milli_str(m as int),
{
    let mut out = String::new();
    let a: i64 = if m < 0 {
        out.append("-");
        -m
    } else {
        m
    };
    proof {
        reveal_strlit("-");
    }
    let whole = a / 1000;
    let frac = a % 1000;
    let whole_str = i64_to_dec_str(whole);
    out.append(whole_str.as_str());
    if frac != 0 {
        out.append(".");
        proof {
            reveal_strlit(".");
        }
        let d1 = digit_to_str((frac / 100) as u8);
        out.append(d1.as_str());
        if frac % 100 != 0 {
            let d2 = digit_to_str(((frac / 10) % 10) as u8);
            if frac % 10 != 0 {
                out.append(d2.as_str());
                let d3 = digit_to_str((frac % 10) as u8);
                out.append(d3.as_str());
            } else {
                out.append(d2.as_str());
            }
        }
    }
    proof {
        assert(out@ =~= spec_milli_str(m as int));
    }
    out
}

/// Renders one decimal digit.
fn digit_to_str(d: u8) -> (r: String)
    requires
        d <= 9,
    ensures
        r@ == seq![digit_char(d as int)],
{
    let s = match d {
        0 => "0",
        1 => "1",
        2 => "2",
        3 => "3",
        4 => "4",
        5 => "5",
        6 => "6",
        7 => "7",
        8 => "8",
        _ => "9",
    };
    proof {
        reveal_strlit("0");
        reveal_strlit("1");
        reveal_strlit("2");
        reveal_strlit("3");
        reveal_strlit("4");
        reveal_strlit("5");
        reveal_strlit("6");
        reveal_strlit("7");
        reveal_strlit("8");
        reveal_strlit("9");
        assert(s@ =~= seq![digit_char(d as int)]);
    }
    String::from_str(s)
}

} // verus!
