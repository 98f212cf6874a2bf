//! Fixed-point amounts.
//!
//! Every price, capital amount, profit and fraction in this crate is an
//! integer count of millionths: `1_000_000` units make one whole. Keeping
//! amounts as integers makes every comparison and every sizing rule exact.
//!
//! Venue feeds deliver prices as IEEE-754 doubles. This module decodes the bit
//! pattern of a double into units by integer arithmetic alone, and renders
//! units back into decimal text for outgoing orders.

use vstd::prelude::*;
use vstd::arithmetic::power2::{pow2, lemma_pow2_pos, lemma_pow2_adds, lemma_pow2_strictly_increases, lemma_pow2_unfold, lemma2_to64};
use vstd::arithmetic::div_mod::{lemma_div_denominator, lemma_div_plus_one, lemma_basic_div};
use vstd::bits::lemma_u128_shr_is_div;
use vstd::string::StringExecFns;

verus! {

/// Units per whole: amounts are counted in millionths.
pub const SCALE: u64 = 1_000_000;

/// Number of decimal places that [`SCALE`] stands for.
pub const DECIMALS: u32 = 6;

/// Two to the power of fifty-two: the number of values of the fraction
/// field of a double. The bit pattern of a double holds one sign bit, an
/// exponent field of eleven bits and a fraction field of fifty-two bits.
pub const FRACTION_RANGE: u64 = 0x10_0000_0000_0000;

/// The distance of `x` from zero.
pub open spec fn magnitude(x: int) -> int {
    if x < 0 {
        -x
    } else {
        x
    }
}

/// Whether the sign bit of the double is set.
pub open spec fn double_negative(bits: u64) -> bool {
    bits >= 0x8000_0000_0000_0000
}

/// The eleven-bit exponent field of the double.
pub open spec fn double_exponent_field(bits: u64) -> int {
    (bits as int / (FRACTION_RANGE as int)) % 2048
}

/// The fifty-two-bit fraction field of the double.
pub open spec fn double_fraction_field(bits: u64) -> int {
    bits as int % (FRACTION_RANGE as int)
}

/// Neither an infinity nor a NaN.
pub open spec fn double_is_finite(bits: u64) -> bool {
    double_exponent_field(bits) != 2047
}

/// The integer significand `m` of a finite double, whose magnitude is
/// `m * 2^(double_exponent(bits) - 1075)`.
pub open spec fn double_significand(bits: u64) -> int {
    if double_exponent_field(bits) == 0 {
        double_fraction_field(bits)
    } else {
        FRACTION_RANGE as int + double_fraction_field(bits)
    }
}

/// The biased exponent that goes with [`double_significand`]: subnormal
/// doubles share the exponent of the smallest normal ones.
pub open spec fn double_exponent(bits: u64) -> int {
    if double_exponent_field(bits) == 0 {
        1
    } else {
        double_exponent_field(bits)
    }
}

/// The magnitude of a finite double in units, rounded to the nearest unit
/// with halves rounded away from zero.
pub open spec fn double_scaled_magnitude(bits: u64) -> int {
    let e = double_exponent(bits);
    let m = double_significand(bits) * (SCALE as int);
    if e >= 1075 {
        m * pow2((e - 1075) as nat)
    } else {
        (m + pow2((1074 - e) as nat)) / (pow2((1075 - e) as nat) as int)
    }
}

/// The value of a double in units: `None` for infinities and NaNs and for
/// magnitudes beyond `i64::MAX` units.
pub open spec fn double_micros(bits: u64) -> Option<i64> {
    if !double_is_finite(bits) || double_scaled_magnitude(bits) > i64::MAX as int {
        None
    } else if double_negative(bits) {
        Some((-double_scaled_magnitude(bits)) as i64)
    } else {
        Some(double_scaled_magnitude(bits) as i64)
    }
}

/// The value of two to the power of seventy-four.
proof fn lemma_pow2_74()
    ensures
        pow2(74) == 0x400_0000_0000_0000_0000,
{
    lemma2_to64();
    lemma_pow2_adds(64, 10);
}

/// Rounding `m / 2^k` to the nearest integer, halves upward, is the same as
/// dropping `k - 1` low bits, adding one and halving.
proof fn lemma_round_by_shift(m: int, k: nat)
    requires
        0 <= m,
        k >= 1,
    ensures
        (m + pow2((k - 1) as nat)) / (pow2(k) as int) == (m / (pow2((k - 1) as nat) as int) + 1) / 2,
{
    let p = pow2((k - 1) as nat) as int;
    lemma_pow2_pos((k - 1) as nat);
    lemma_pow2_unfold(k);
    lemma_div_denominator(m + p, p, 2);
    lemma_div_plus_one(m, p);
}

/// Decodes the bit pattern of a double into units.
///
/// The result is the double's exact value times [`SCALE`], rounded to the
/// nearest unit with halves away from zero. Infinities, NaNs and values whose
/// magnitude exceeds `i64::MAX` units have no representation.
pub fn micros_from_double(bits: u64) -> (r: Option<i64>)
    ensures
        r == double_micros(bits),
{
    let field: u64 = (bits / FRACTION_RANGE) % 2048;
    let fraction: u64 = bits % FRACTION_RANGE;
    let negative: bool = bits >= 0x8000_0000_0000_0000;
    if field == 2047 {
        return None;
    }
    let significand: u64 = if field == 0 {
        fraction
    } else {
        FRACTION_RANGE + fraction
    };
    let exponent: u64 = if field == 0 {
        1
    } else {
        field
    };
    let m: u128 = (significand as u128) * (SCALE as u128);
    if exponent >= 1075 {
        proof {
            let grow = pow2((exponent - 1075) as nat) as int;
            lemma_pow2_pos((exponent - 1075) as nat);
            assert(m as int * grow >= m as int) by (nonlinear_arith)
                requires
                    m as int >= 0,
                    grow >= 1,
            ;
        }
        return None;
    }
    let k: u64 = 1075 - exponent;
    if k > 74 {
        proof {
            lemma_pow2_74();
            if k > 75 {
                lemma_pow2_strictly_increases(74, (k - 1) as nat);
            }
            lemma_pow2_unfold(k as nat);
            lemma_basic_div(m as int + pow2((k - 1) as nat) as int, pow2(k as nat) as int);
        }
        return Some(0);
    }
    let shift: u128 = (k - 1) as u128;
    let dropped: u128 = m >> shift;
    proof {
        lemma_u128_shr_is_div(m, shift);
        lemma_round_by_shift(m as int, k as nat);
    }
    let rounded: u128 = (dropped + 1) / 2;
    if rounded > i64::MAX as u128 {
        return None;
    }
    let value: i64 = rounded as i64;
    if negative {
        Some(-value)
    } else {
        Some(value)
    }
}

/// The character that writes the digit `d`.
pub open spec fn digit_char(d: int) -> char {
    if d == 0 {
        '0'
    } else if d == 1 {
        '1'
    } else if d == 2 {
        '2'
    } else if d == 3 {
        '3'
    } else if d == 4 {
        '4'
    } else if d == 5 {
        '5'
    } else if d == 6 {
        '6'
    } else if d == 7 {
        '7'
    } else if d == 8 {
        '8'
    } else {
        '9'
    }
}

/// The decimal digits of `n`, most significant first, without leading zeros.
pub open spec fn decimal_digits(n: nat) -> Seq<char>
    decreases n,
{
    if n < 10 {
        seq![digit_char(n as int)]
    } else {
        decimal_digits(n / 10).push(digit_char((n % 10) as int))
    }
}

/// The `width` lowest decimal digits of `n`, most significant first, with
/// leading zeros.
pub open spec fn padded_digits(n: nat, width: nat) -> Seq<char>
    decreases width,
{
    if width == 0 {
        Seq::empty()
    } else {
        padded_digits(n / 10, (width - 1) as nat).push(digit_char((n % 10) as int))
    }
}

/// An amount written as a decimal number: an optional minus sign, the whole
/// part, a point and six fractional digits.
pub open spec fn decimal_text(units: int) -> Seq<char> {
    let m = magnitude(units) as nat;
    let sign = if units < 0 {
        seq!['-']
    } else {
        Seq::empty()
    };
    sign + decimal_digits(m / (SCALE as nat)) + seq!['.'] + padded_digits(m % (SCALE as nat), DECIMALS as nat)
}

/// The text of one digit.
fn digit_text(d: u8) -> (r: &'static str)
    requires
        d < 10,
    ensures
        r@ == seq![digit_char(d as int)],
{
    proof {
        reveal_strlit("0");
        reveal_strlit("1");
        reveal_strlit("2");
        reveal_strlit("3");
        reveal_strlit("4");
        reveal_strlit("5");
        reveal_strlit("6");
        reveal_strlit("7");
        reveal_strlit("8");
        reveal_strlit("9");
    }
    let r = if d == 0 {
        "0"
    } else if d == 1 {
        "1"
    } else if d == 2 {
        "2"
    } else if d == 3 {
        "3"
    } else if d == 4 {
        "4"
    } else if d == 5 {
        "5"
    } else if d == 6 {
        "6"
    } else if d == 7 {
        "7"
    } else if d == 8 {
        "8"
    } else {
        "9"
    };
    r
}

/// Appends the decimal digits of `n`.
fn append_digits(out: &mut String, n: u128)
    ensures
        final(out)@ == old(out)@ + decimal_digits(n as nat),
    decreases n,
{
    if n >= 10 {
        append_digits(out, n / 10);
    }
    out.append(digit_text((n % 10) as u8));
}

/// Appends the `width` lowest decimal digits of `n`.
fn append_padded(out: &mut String, n: u64, width: u32)
    ensures
        final(out)@ == old(out)@ + padded_digits(n as nat, width as nat),
    decreases width,
{
    if width > 0 {
        append_padded(out, n / 10, width - 1);
        out.append(digit_text((n % 10) as u8));
    }
}

/// Writes an amount as a decimal number with six fractional digits.
pub fn format_micros(units: i128) -> (r: String)
    ensures
        r@ == decimal_text(units as int),
{
    let mut out = String::new();
    let m: u128 = if units < 0 {
        proof {
            reveal_strlit("-");
        }
        out.append("-");
        ((-(units + 1)) as u128) + 1
    } else {
        units as u128
    };
    append_digits(&mut out, m / (SCALE as u128));
    proof {
        reveal_strlit(".");
    }
    out.append(".");
    append_padded(&mut out, (m % (SCALE as u128)) as u64, DECIMALS);
    out
}

} // verus!
