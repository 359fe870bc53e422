//! Verified text helpers: decimal rendering of integers (for header
//! values), rendering of minor-unit amounts as base-unit decimal strings,
//! and string equality over views.

use vstd::prelude::*;

verus! {

/// The character for one decimal digit.
pub open spec fn digit_char(d: nat) -> char {
    if d == 0 {
        '0'
    } else if d == 1 {
        '1'
    } else if d == 2 {
        '2'
    } else if d == 3 {
        '3'
    } else if d == 4 {
        '4'
    } else if d == 5 {
        '5'
    } else if d == 6 {
        '6'
    } else if d == 7 {
        '7'
    } else if d == 8 {
        '8'
    } else {
        '9'
    }
}

/// The decimal digits of `n`, most significant first, no leading zeros
/// (a single `'0'` for zero).
pub open spec fn dec_chars(n: nat) -> Seq<char>
    decreases n,
{
    if n < 10 {
        seq![digit_char(n)]
    } else {
        dec_chars(n / 10).push(digit_char(n % 10))
    }
}

/// The decimal rendering of a possibly negative integer.
pub open spec fn dec_chars_int(n: int) -> Seq<char> {
    if n < 0 {
        seq!['-'] + dec_chars((-n) as nat)
    } else {
        dec_chars(n as nat)
    }
}

/// The last `e` decimal digits of `n`, left-padded with zeros.
pub open spec fn frac_digit_chars(n: nat, e: nat) -> Seq<char>
    decreases e,
{
    if e == 0 {
        Seq::empty()
    } else {
        frac_digit_chars(n / 10, (e - 1) as nat).push(digit_char(n % 10))
    }
}

/// `n` shifted right by `e` decimal digits.
pub open spec fn div_pow10(n: nat, e: nat) -> nat
    decreases e,
{
    if e == 0 {
        n
    } else {
        div_pow10(n / 10, (e - 1) as nat)
    }
}

/// A non-negative minor-unit amount rendered in base units: the integer
/// part, then a point, then exactly `e` fractional digits (no point at
/// all when `e` is zero).
pub open spec fn base_unit_chars_nat(m: nat, e: nat) -> Seq<char> {
    if e == 0 {
        dec_chars(m)
    } else {
        dec_chars(div_pow10(m, e)) + seq!['.'] + frac_digit_chars(m, e)
    }
}

/// A minor-unit amount rendered in base units, with a leading minus for
/// negative amounts.
pub open spec fn base_unit_chars(amount: int, e: nat) -> Seq<char> {
    if amount < 0 {
        seq!['-'] + base_unit_chars_nat((-amount) as nat, e)
    } else {
        base_unit_chars_nat(amount as nat, e)
    }
}

/// Whether two strings hold the same characters.
pub fn str_eq(a: &str, b: &str) -> (r: bool)
    ensures
        r == (a@ == b@),
{
    let owned_a: String = a.to_owned();
    let owned_b: String = b.to_owned();
    owned_a == owned_b
}

/// Copies an optional string, preserving its value.
pub fn dup_opt_string(a: &Option<String>) -> (r: Option<String>)
    ensures
        r == *a,
{
    match a {
        Some(s) => Some(s.clone()),
        None => None,
    }
}

/// Whether an optional string holds exactly the given characters.
pub fn opt_str_eq(a: &Option<String>, b: &str) -> (r: bool)
    ensures
        r == (a matches Some(s) && s@ == b@),
{
    match a {
        Some(s) => str_eq(s.as_str(), b),
        None => false,
    }
}

fn digit_text(d: u128) -> (r: &'static str)
    requires
        d < 10,
    ensures
        r@ == seq![digit_char(d as nat)],
{
    proof {
        reveal_strlit("0");
        reveal_strlit("1");
        reveal_strlit("2");
        reveal_strlit("3");
        reveal_strlit("4");
        reveal_strlit("5");
        reveal_strlit("6");
        reveal_strlit("7");
        reveal_strlit("8");
        reveal_strlit("9");
    }
    let r = match d {
        0 => "0",
        1 => "1",
        2 => "2",
        3 => "3",
        4 => "4",
        5 => "5",
        6 => "6",
        7 => "7",
        8 => "8",
        _ => "9",
    };
    proof {
        assert(r@ =~= seq![digit_char(d as nat)]);
    }
    r
}

/// Renders an unsigned integer in decimal.
pub fn u128_to_dec(n: u128) -> (s: String)
    ensures
        s@ == dec_chars(n as nat),
    decreases n,
{
    if n < 10 {
        digit_text(n).to_owned()
    } else {
        let mut s = u128_to_dec(n / 10);
        s.append(digit_text(n % 10));
        proof {
            assert(s@ =~= dec_chars(n as nat));
        }
        s
    }
}

/// Renders a signed integer in decimal.
pub fn i64_to_dec(n: i64) -> (s: String)
    ensures
        s@ == dec_chars_int(n as int),
{
    if n >= 0 {
        u128_to_dec(n as u128)
    } else {
        let magnitude: u128 = (-(n as i128)) as u128;
        let mut s: String = "-".to_owned();
        let digits = u128_to_dec(magnitude);
        s.append(digits.as_str());
        proof {
            reveal_strlit("-");
            assert(s@ =~= dec_chars_int(n as int));
        }
        s
    }
}

/// Splits a non-negative amount into the part above `e` decimal digits
/// and the `e` low digits rendered as characters.
fn split_base(m: u128, e: u32) -> (r: (u128, String))
    ensures
        r.0 as nat == div_pow10(m as nat, e as nat),
        r.1@ == frac_digit_chars(m as nat, e as nat),
    decreases e,
{
    if e == 0 {
        (m, String::new())
    } else {
        let (q, mut s) = split_base(m / 10, e - 1);
        s.append(digit_text(m % 10));
        proof {
            assert(s@ =~= frac_digit_chars(m as nat, e as nat));
        }
        (q, s)
    }
}

/// Renders a minor-unit amount as a base-unit decimal string for the
/// given currency exponent, e.g. 1050 with exponent 2 becomes "10.50".
pub fn to_base_unit_string(amount: i64, exponent: u32) -> (s: String)
    ensures
        s@ == base_unit_chars(amount as int, exponent as nat),
{
    let negative = amount < 0;
    let magnitude: u128 = if negative {
        (-(amount as i128)) as u128
    } else {
        amount as u128
    };
    let (int_part, frac) = split_base(magnitude, exponent);
    let mut s: String = if negative {
        "-".to_owned()
    } else {
        String::new()
    };
    let int_digits = u128_to_dec(int_part);
    s.append(int_digits.as_str());
    if exponent > 0 {
        s.append(".");
        s.append(frac.as_str());
    }
    proof {
        reveal_strlit("-");
        reveal_strlit(".");
        assert(s@ =~= base_unit_chars(amount as int, exponent as nat));
    }
    s
}

} // verus!
