//! Decimal text of integers and of fixed-point quantities.
use vstd::prelude::*;

verus! {

/// The character of the decimal digit `d` (for `d < 10`).
pub open spec fn digit_char(d: int) -> char {
    (48 + d) as char
}

/// Decimal text of a natural number, most significant digit first,
/// with no leading zeros ("0" for zero).
pub open spec fn decimal(n: nat) -> Seq<char>
    decreases n,
{
    if n < 10 {
        seq![digit_char(n as int)]
    } else {
        decimal(n / 10).push(digit_char((n % 10) as int))
    }
}

/// The number that a text of decimal digits denotes.
pub open spec fn decimal_value(s: Seq<char>) -> int
    decreases s.len(),
{
    if s.len() == 0 {
        0
    } else {
        decimal_value(s.drop_last()) * 10 + (s.last() as int - 48)
    }
}

/// Whether a character is a decimal digit.
pub open spec fn is_digit(c: char) -> bool {
    48 <= c as int <= 57
}

/// The decimal text of `n` is well formed and means `n`: it is made of
/// digits only, has no leading zero unless it is "0", and denotes `n`.
pub proof fn decimal_denotes(n: nat)
    ensures
        decimal(n).len() >= 1,
        forall|i: int| 0 <= i < decimal(n).len() ==> is_digit(#[trigger] decimal(n)[i]),
        decimal(n)[0] != '0' || n == 0,
        decimal_value(decimal(n)) == n,
    decreases n,
{
    if n >= 10 {
        decimal_denotes(n / 10);
        let s = decimal(n);
        assert(s.drop_last() =~= decimal(n / 10));
        assert(s[0] == decimal(n / 10)[0]);
        assert(s.last() as int == 48 + n % 10);
        assert(decimal_value(s) == decimal_value(decimal(n / 10)) * 10 + (s.last() as int - 48));
        assert(decimal_value(decimal(n / 10)) == n / 10);
        assert((n / 10) * 10 + n % 10 == n);
    } else {
        let s = decimal(n);
        assert(s.drop_last() =~= Seq::<char>::empty());
        assert(s.last() as int == 48 + n);
        assert(decimal_value(s) == decimal_value(s.drop_last()) * 10 + (s.last() as int - 48));
        assert(decimal_value(Seq::<char>::empty()) == 0);
    }
}

/// A one-character string holding the digit `d`.
pub fn digit_str(d: u64) -> (s: &'static str)
    requires
        d < 10,
    ensures
        s@ == seq![digit_char(d as int)],
{
    proof {
        reveal_strlit("0");
        reveal_strlit("1");
        reveal_strlit("2");
        reveal_strlit("3");
        reveal_strlit("4");
        reveal_strlit("5");
        reveal_strlit("6");
        reveal_strlit("7");
        reveal_strlit("8");
        reveal_strlit("9");
    }
    match d {
        0 => "0",
        1 => "1",
        2 => "2",
        3 => "3",
        4 => "4",
        5 => "5",
        6 => "6",
        7 => "7",
        8 => "8",
        _ => "9",
    }
}

/// Appends the decimal text of `n` to `s`.
pub fn push_decimal(s: &mut String, n: u64)
    ensures
        final(s)@ == old(s)@ + decimal(n as nat),
    decreases n,
{
    if n >= 10 {
        push_decimal(s, n / 10);
    }
    s.append(digit_str(n % 10));
}


/// The sign text of a fixed-point value: "-" below zero, nothing otherwise.
pub open spec fn sign_text(v: int) -> Seq<char> {
    if v < 0 { seq!['-'] } else { Seq::empty() }
}

/// Absolute value.
pub open spec fn magnitude(v: int) -> nat {
    if v < 0 { (-v) as nat } else { v as nat }
}

/// `n / unit` rounded to the nearest integer, ties to the even neighbour.
pub open spec fn round_half_even(n: nat, unit: nat) -> nat
    recommends
        unit > 0,
{
    let q = n / unit;
    let r = n % unit;
    if 2 * r > unit || (2 * r == unit && q % 2 == 1) {
        q + 1
    } else {
        q
    }
}

/// Text of a value given in hundredths, rounded to one decimal place
/// (ties to even), with a leading '-' for negative values.
pub open spec fn tenths_text(centi: int) -> Seq<char> {
    let t = round_half_even(magnitude(centi), 10);
    sign_text(centi) + decimal(t / 10) + seq!['.', digit_char((t % 10) as int)]
}

/// Text of a value given in thousandths, rounded to two decimal places
/// (ties to even).
pub open spec fn hundredths_text(milli: nat) -> Seq<char> {
    let t = round_half_even(milli, 10);
    decimal(t / 100) + seq!['.', digit_char(((t % 100) / 10) as int), digit_char((t % 10) as int)]
}

/// Shortest text of a value given in hundredths: the integral part, then the
/// fractional digits without trailing zeros (none at all for whole values).
pub open spec fn short_text(centi: int) -> Seq<char> {
    let m = magnitude(centi);
    let f = m % 100;
    let frac = if f == 0 {
        Seq::empty()
    } else if f % 10 == 0 {
        seq!['.', digit_char((f / 10) as int)]
    } else {
        seq!['.', digit_char((f / 10) as int), digit_char((f % 10) as int)]
    };
    sign_text(centi) + decimal(m / 100) + frac
}

fn abs_i32(v: i32) -> (m: u64)
    ensures
        m == magnitude(v as int),
{
    if v < 0 {
        (-(v as i64)) as u64
    } else {
        v as u64
    }
}

fn round_half_even_exec(n: u64, unit: u64) -> (t: u64)
    requires
        2 <= unit,
    ensures
        t == round_half_even(n as nat, unit as nat),
{
    let q = n / unit;
    assert(q <= n / 2) by {
        vstd::arithmetic::div_mod::lemma_div_is_ordered_by_denominator(n as int, 2, unit as int);
    }
    let r = n % unit;
    if (r > unit - r) || (r == unit - r && q % 2 == 1) {
        q + 1
    } else {
        q
    }
}

fn push_sign(s: &mut String, v: i32)
    ensures
        final(s)@ == old(s)@ + sign_text(v as int),
{
    if v < 0 {
        proof {
            reveal_strlit("-");
        }
        s.append("-");
    } else {
        assert(old(s)@ + sign_text(v as int) =~= old(s)@);
    }
}

/// Appends `tenths_text(centi)` to `s`.
pub fn push_tenths(s: &mut String, centi: i32)
    ensures
        final(s)@ == old(s)@ + tenths_text(centi as int),
{
    let t = round_half_even_exec(abs_i32(centi), 10);
    let ghost s0 = s@;
    push_sign(s, centi);
    push_decimal(s, t / 10);
    proof {
        reveal_strlit(".");
    }
    s.append(".");
    s.append(digit_str(t % 10));
    assert(s@ =~= s0 + tenths_text(centi as int));
}

/// Appends `hundredths_text(milli)` to `s`.
pub fn push_hundredths(s: &mut String, milli: u32)
    ensures
        final(s)@ == old(s)@ + hundredths_text(milli as nat),
{
    let t = round_half_even_exec(milli as u64, 10);
    let ghost s0 = s@;
    push_decimal(s, t / 100);
    proof {
        reveal_strlit(".");
    }
    s.append(".");
    s.append(digit_str((t % 100) / 10));
    s.append(digit_str(t % 10));
    assert(s@ =~= s0 + hundredths_text(milli as nat));
}

/// Appends `short_text(centi)` to `s`.
pub fn push_short(s: &mut String, centi: i32)
    ensures
        final(s)@ == old(s)@ + short_text(centi as int),
{
    let m = abs_i32(centi);
    let f = m % 100;
    let ghost s0 = s@;
    push_sign(s, centi);
    push_decimal(s, m / 100);
    if f != 0 {
        proof {
            reveal_strlit(".");
        }
        s.append(".");
        s.append(digit_str(f / 10));
        if f % 10 != 0 {
            s.append(digit_str(f % 10));
        }
    }
    assert(s@ =~= s0 + short_text(centi as int));
}

} // verus!
