//! Fixed-point numbers and verified decimal formatting.
//!
//! Quotes arrive as decimal numbers; this crate carries them as
//! micro-units (six fraction digits) so that the sign rule and the
//! rendered text are exact, and keeps a separate variant for values
//! that are not finite in the source data.

use vstd::prelude::*;
use vstd::string::StringExecFns;

verus! {

/// Fraction digits carried by a `FixedNum` value.
pub const SCALE_DIGITS: u8 = 6;

/// Micro-units per whole unit: ten to the `SCALE_DIGITS`.
pub const MICROS_PER_UNIT: u64 = 1000000;

/// A numeric quantity in fixed-point form: `Finite(m)` stands for the
/// number m / 1_000_000. Source values that are NaN or infinite are
/// carried as `NonFinite` and rendered as a placeholder.
#[derive(Clone, Copy, PartialEq, Eq, Structural, Debug)]
pub enum FixedNum {
    Finite(i64),
    NonFinite,
}

/// Ten to the k.
pub open spec fn pow10(k: nat) -> nat
    decreases k,
{
    if k == 0 {
        1
    } else {
        10 * pow10((k - 1) as nat)
    }
}

/// The character for one decimal digit.
pub open spec fn digit_char(d: nat) -> char {
    if d == 0 {
        '0'
    } else if d == 1 {
        '1'
    } else if d == 2 {
        '2'
    } else if d == 3 {
        '3'
    } else if d == 4 {
        '4'
    } else if d == 5 {
        '5'
    } else if d == 6 {
        '6'
    } else if d == 7 {
        '7'
    } else if d == 8 {
        '8'
    } else {
        '9'
    }
}

/// Decimal digits of n, most significant first, with no leading zeros
/// (a single "0" for zero).
pub open spec fn dec_digits(n: nat) -> Seq<char>
    decreases n,
{
    if n < 10 {
        seq![digit_char(n)]
    } else {
        dec_digits(n / 10) + seq![digit_char(n % 10)]
    }
}

/// Exactly `width` decimal digits of n (its value modulo ten to the
/// `width`), zero padded on the left.
pub open spec fn padded_digits(n: nat, width: nat) -> Seq<char>
    decreases width,
{
    if width == 0 {
        Seq::empty()
    } else {
        padded_digits(n / 10, (width - 1) as nat) + seq![digit_char(n % 10)]
    }
}

/// The magnitude of a number of micro-units, as a natural number.
pub open spec fn micros_mag(micros: int) -> nat {
    if micros < 0 {
        (-micros) as nat
    } else {
        micros as nat
    }
}

/// The text of a fixed-point number truncated toward zero to `decimals`
/// fraction digits: an optional minus sign, the integer part without
/// leading zeros, and, when `decimals > 0`, a point and exactly
/// `decimals` digits. Meaningful for `decimals <= SCALE_DIGITS`.
pub open spec fn fixed_text(micros: int, decimals: nat) -> Seq<char> {
    let scaled = micros_mag(micros) / pow10((SCALE_DIGITS - decimals) as nat);
    let ip = scaled / pow10(decimals);
    let fp = scaled % pow10(decimals);
    (if micros < 0 {
        seq!['-']
    } else {
        Seq::<char>::empty()
    }) + dec_digits(ip) + (if decimals == 0 {
        Seq::<char>::empty()
    } else {
        seq!['.'] + padded_digits(fp, decimals)
    })
}

/// Ten to the k, as a machine word.
pub fn pow10_u64(k: u8) -> (r: u64)
    requires
        k <= SCALE_DIGITS,
    ensures
        r == pow10(k as nat),
        r >= 1,
{
    proof {
        reveal_with_fuel(pow10, 8);
    }
    match k {
        0 => 1,
        1 => 10,
        2 => 100,
        3 => 1000,
        4 => 10000,
        5 => 100000,
        _ => 1000000,
    }
}

/// The one-character string for a decimal digit.
fn digit_str(d: u64) -> (r: &'static str)
    requires
        d < 10,
    ensures
        r@ == seq![digit_char(d as nat)],
{
    let r = match d {
        0 => "0",
        1 => "1",
        2 => "2",
        3 => "3",
        4 => "4",
        5 => "5",
        6 => "6",
        7 => "7",
        8 => "8",
        _ => "9",
    };
    proof {
        reveal_strlit("0");
        reveal_strlit("1");
        reveal_strlit("2");
        reveal_strlit("3");
        reveal_strlit("4");
        reveal_strlit("5");
        reveal_strlit("6");
        reveal_strlit("7");
        reveal_strlit("8");
        reveal_strlit("9");
        assert(r@ =~= seq![digit_char(d as nat)]);
    }
    r
}

/// Appends the decimal digits of n, most significant first.
fn push_dec(s: &mut String, n: u64)
    ensures
        final(s)@ == old(s)@ + dec_digits(n as nat),
    decreases n,
{
    if n < 10 {
        s.append(digit_str(n));
    } else {
        push_dec(s, n / 10);
        s.append(digit_str(n % 10));
        proof {
            assert(final(s)@ =~= old(s)@ + dec_digits(n as nat));
        }
    }
}

/// Appends exactly `width` digits of n, zero padded on the left.
fn push_padded(s: &mut String, n: u64, width: u8)
    ensures
        final(s)@ == old(s)@ + padded_digits(n as nat, width as nat),
    decreases width,
{
    if width == 0 {
        proof {
            assert(final(s)@ =~= old(s)@ + padded_digits(n as nat, 0));
        }
    } else {
        push_padded(s, n / 10, width - 1);
        s.append(digit_str(n % 10));
        proof {
            assert(final(s)@ =~= old(s)@ + padded_digits(n as nat, width as nat));
        }
    }
}

/// Formats a number of micro-units with `decimals` fraction digits,
/// truncating toward zero.
pub fn format_fixed(micros: i64, decimals: u8) -> (r: String)
    requires
        decimals <= SCALE_DIGITS,
    ensures
        r@ == fixed_text(micros as int, decimals as nat),
{
    let mut s = String::new();
    let mag: u64 = if micros >= 0 {
        micros as u64
    } else {
        (-(micros as i128)) as u64
    };
    proof {
        assert(mag == micros_mag(micros as int));
    }
    if micros < 0 {
        s.append("-");
    }
    let p_trunc = pow10_u64(SCALE_DIGITS - decimals);
    let scaled = mag / p_trunc;
    let p_frac = pow10_u64(decimals);
    let ip = scaled / p_frac;
    let fp = scaled % p_frac;
    push_dec(&mut s, ip);
    if decimals > 0 {
        s.append(".");
        push_padded(&mut s, fp, decimals);
    }
    proof {
        reveal_strlit("-");
        reveal_strlit(".");
        assert(s@ =~= fixed_text(micros as int, decimals as nat));
    }
    s
}

} // verus!
