//! Rounding a double to an integer, on the bits of the double.
//!
//! A finite double is a sign, and a mantissa times a power of two. Its
//! nearest integer, halves rounded away from zero, is computed here from
//! the 64 bits of its IEEE 754 form, in integers alone.

use crate::usage::saturated;
use vstd::arithmetic::power2::{
    lemma2_to64, lemma2_to64_rest, lemma_pow2_pos, lemma_pow2_strictly_increases,
    lemma_pow2_unfold, pow2,
};
use vstd::prelude::*;

verus! {

/// The number of values of the fraction of a double: two to the power of 52.
pub const FRACTION_RANGE: u64 = 0x10_0000_0000_0000;

/// The exponent field of a double whose value is its mantissa, as it stands.
pub const EXPONENT_OF_ONE: u64 = 1075;

/// Whether the sign bit is set.
pub open spec fn is_negative(bits: u64) -> bool {
    bits >= 0x8000_0000_0000_0000
}

/// The exponent field: the eleven bits below the sign.
pub open spec fn exponent_field(bits: u64) -> int {
    ((bits / FRACTION_RANGE) % 2048) as int
}

/// The fraction field: the lowest 52 bits.
pub open spec fn fraction_field(bits: u64) -> int {
    (bits % FRACTION_RANGE) as int
}

/// The integer nearest to `mantissa` times two to the power of `exponent`,
/// a half counted upwards.
pub open spec fn nearest(mantissa: nat, exponent: int) -> int {
    if exponent >= 0 {
        (mantissa * pow2(exponent as nat)) as int
    } else {
        ((mantissa + pow2((-exponent - 1) as nat)) / pow2((-exponent) as nat)) as int
    }
}

/// The integer nearest to the size of the double with these bits, a half
/// counted upwards. Of a double that is no number, the size is not asked.
pub open spec fn nearest_magnitude(bits: u64) -> int {
    if exponent_field(bits) == 0 {
        nearest(fraction_field(bits) as nat, -1074)
    } else {
        nearest((fraction_field(bits) + FRACTION_RANGE) as nat, exponent_field(bits) - 1075)
    }
}

/// The double with these bits, rounded to the nearest integer, halves away
/// from zero, and held to the range of `i64`: what `round` and a cast to
/// `i64` give. What is no number becomes zero, and the infinities become
/// the ends of the range.
pub open spec fn rounded_double(bits: u64) -> i64 {
    if exponent_field(bits) == 2047 {
        if fraction_field(bits) != 0 {
            0
        } else if is_negative(bits) {
            i64::MIN
        } else {
            i64::MAX
        }
    } else if is_negative(bits) {
        saturated(-nearest_magnitude(bits))
    } else {
        saturated(nearest_magnitude(bits))
    }
}

/// Two to the power of `e`.
fn power_of_two(e: u64) -> (power: u64)
    requires
        e < 64,
    ensures
        power == pow2(e as nat),
        power >= 1,
{
    let mut power: u64 = 1;
    let mut i: u64 = 0;
    proof {
        lemma2_to64();
    }
    while i < e
        invariant
            i <= e,
            e < 64,
            power == pow2(i as nat),
            power >= 1,
        decreases e - i,
    {
        proof {
            lemma_pow2_unfold((i + 1) as nat);
            lemma2_to64();
            if i + 1 < 64 {
                lemma_pow2_strictly_increases((i + 1) as nat, 64);
            }
        }
        power = power * 2;
        i += 1;
    }
    power
}

proof fn lemma_small_quotient(numerator: int, divisor: int)
    requires
        0 <= numerator < divisor,
    ensures
        numerator / divisor == 0,
{
    vstd::arithmetic::div_mod::lemma_basic_div(numerator, divisor);
}

/// The integer nearest to the size of a double that is a number, held at
/// two to the power of 63 where it is larger.
fn magnitude(exponent: u64, fraction: u64) -> (size: u64)
    requires
        exponent < 2047,
        fraction < FRACTION_RANGE,
    ensures
        size <= 0x8000_0000_0000_0000,
        size < 0x8000_0000_0000_0000 ==> size == if exponent == 0 {
            nearest(fraction as nat, -1074)
        } else {
            nearest((fraction + FRACTION_RANGE) as nat, exponent - 1075)
        },
        size == 0x8000_0000_0000_0000 ==> exponent != 0 && nearest(
            (fraction + FRACTION_RANGE) as nat,
            exponent - 1075,
        ) >= 0x8000_0000_0000_0000,
{
    proof {
        lemma2_to64();
        lemma2_to64_rest();
    }
    if exponent == 0 {
        proof {
            // fraction + 2^1073 < 2^1074
            lemma_pow2_strictly_increases(52, 1073);
            lemma_pow2_unfold(1074);
            lemma_small_quotient((fraction + pow2(1073)) as int, pow2(1074) as int);
        }
        return 0;
    }
    let mantissa: u64 = fraction + FRACTION_RANGE;
    if exponent >= EXPONENT_OF_ONE + 11 {
        proof {
            let shift = (exponent - 1075) as nat;
            if shift > 11 {
                lemma_pow2_strictly_increases(11, shift);
            }
            assert(mantissa * pow2(shift) >= 0x10_0000_0000_0000 * 2048) by (nonlinear_arith)
                requires
                    mantissa >= 0x10_0000_0000_0000,
                    pow2(shift) >= 2048,
            ;
        }
        return 0x8000_0000_0000_0000;
    }
    if exponent >= EXPONENT_OF_ONE {
        let factor = power_of_two(exponent - EXPONENT_OF_ONE);
        proof {
            let shift = (exponent - 1075) as nat;
            if shift < 10 {
                lemma_pow2_strictly_increases(shift, 10);
            }
            assert(mantissa * factor < 0x20_0000_0000_0000 * 1024) by (nonlinear_arith)
                requires
                    mantissa < 0x20_0000_0000_0000,
                    0 < factor <= 1024,
            ;
        }
        return mantissa * factor;
    }
    let shift: u64 = EXPONENT_OF_ONE - exponent;
    if shift >= 54 {
        proof {
            // mantissa + 2^(shift-1) < 2^shift
            if shift - 1 > 53 {
                lemma_pow2_strictly_increases(53, (shift - 1) as nat);
            }
            lemma_pow2_unfold(shift as nat);
            lemma_small_quotient((mantissa + pow2((shift - 1) as nat)) as int, pow2(shift as nat) as int);
        }
        return 0;
    }
    let half = power_of_two(shift - 1);
    let whole = power_of_two(shift);
    proof {
        if shift - 1 < 52 {
            lemma_pow2_strictly_increases((shift - 1) as nat, 52);
        }
        lemma_pow2_pos(shift as nat);
    }
    (mantissa + half) / whole
}

/// The double with the bits `bits`, rounded to the nearest integer, halves
/// away from zero, and held to the range of `i64`.
pub fn round_double(bits: u64) -> (rounded: i64)
    ensures
        rounded == rounded_double(bits),
{
    let negative = bits >= 0x8000_0000_0000_0000;
    let exponent = (bits / FRACTION_RANGE) % 2048;
    let fraction = bits % FRACTION_RANGE;
    if exponent == 2047 {
        return if fraction != 0 {
            0
        } else if negative {
            i64::MIN
        } else {
            i64::MAX
        };
    }
    let size = magnitude(exponent, fraction);
    if size >= 0x8000_0000_0000_0000 {
        if negative {
            i64::MIN
        } else {
            i64::MAX
        }
    } else if negative {
        -(size as i64)
    } else {
        size as i64
    }
}

} // verus!
