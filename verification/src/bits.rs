//! Double-precision bit patterns.
//!
//! The evaluator stores every number on its stack as the 64-bit pattern of an
//! IEEE-754 double (sign bit, 11 exponent bits, 52 fraction bits).  The checks
//! the command set needs — is the value zero, does it compare below zero, is it
//! a whole number, which whole number is it — read those fields directly, so
//! they are ordinary integer logic and are verified here.

use vstd::prelude::*;

verus! {

/// Mask of everything but the sign bit.
pub const ABS_MASK: u64 = 0x7FFF_FFFF_FFFF_FFFF;

/// Mask of the 52 fraction bits.
pub const FRAC_MASK: u64 = 0x000F_FFFF_FFFF_FFFF;

/// The hidden leading bit of a normal value's significand.
pub const HIDDEN_BIT: u64 = 0x0010_0000_0000_0000;

/// Raw exponent field reserved for infinities and NaNs.
pub const EXP_SPECIAL: u64 = 0x7FF;

/// Exponent bias.
pub const EXP_BIAS: u64 = 1023;

/// The raw (biased) exponent field of the pattern.
pub open spec fn raw_exp(b: u64) -> u64 {
    (b >> 52) & 0x7FF
}

/// The 52 explicit fraction bits of the pattern.
pub open spec fn fraction(b: u64) -> u64 {
    b & FRAC_MASK
}

/// Whether the sign bit is set.
pub open spec fn sign_bit(b: u64) -> bool {
    (b >> 63) == 1
}

/// Whether the pattern encodes zero (either sign).
pub open spec fn is_zero(b: u64) -> bool {
    b & ABS_MASK == 0
}

/// Whether the pattern encodes a NaN.
pub open spec fn is_nan(b: u64) -> bool {
    raw_exp(b) == EXP_SPECIAL && fraction(b) != 0
}

/// Whether the encoded value compares strictly below zero.
/// Negative zero and NaN do not.
pub open spec fn below_zero(b: u64) -> bool {
    sign_bit(b) && !is_zero(b) && !is_nan(b)
}

/// Whether the encoded value has a nonzero fractional part.  Infinities and
/// NaNs count: subtracting off their truncation yields NaN, which is not zero.
pub open spec fn not_whole(b: u64) -> bool {
    if is_zero(b) {
        false
    } else if raw_exp(b) == EXP_SPECIAL {
        true
    } else if raw_exp(b) < EXP_BIAS {
        // A nonzero magnitude below one, subnormals included.
        true
    } else if raw_exp(b) >= EXP_BIAS + 52 {
        // The significand's lowest bit already weighs one or more.
        false
    } else {
        // Fraction bits below the binary point must all be clear.
        fraction(b) & (((1u64 << ((52 - (raw_exp(b) - EXP_BIAS)) as u64)) - 1) as u64) != 0
    }
}

/// Whether the factorial command rejects this operand: a value below zero,
/// or one with a fractional part (which covers infinities and NaNs).
pub open spec fn fact_rejected(b: u64) -> bool {
    below_zero(b) || not_whole(b)
}

/// The unsigned integer a whole, non-negative encoded value truncates to,
/// saturating at `u64::MAX` for magnitudes of 2^64 and above.
pub open spec fn whole_value(b: u64) -> u64
    recommends
        !fact_rejected(b),
{
    if is_zero(b) || raw_exp(b) < EXP_BIAS {
        0
    } else {
        let e = (raw_exp(b) - EXP_BIAS) as u64;
        let m = (fraction(b) | HIDDEN_BIT) as u64;
        if e <= 52 {
            m >> ((52 - e) as u64)
        } else if e <= 63 {
            (m << ((e - 52) as u64)) as u64
        } else {
            0xFFFF_FFFF_FFFF_FFFF
        }
    }
}

/// The factorial of `n` in 64-bit wrapping arithmetic.
pub open spec fn fact_mod(n: u64) -> u64
    decreases n,
{
    if n == 0 {
        1u64
    } else {
        vstd::wrapping::u64_specs::wrapping_mul(fact_mod((n - 1) as u64), n)
    }
}

/// Whether the pattern encodes zero (either sign).
pub fn is_zero_bits(b: u64) -> (r: bool)
    ensures
        r == is_zero(b),
{
    b & ABS_MASK == 0
}

/// Whether the factorial command rejects this operand.
pub fn fact_rejected_bits(b: u64) -> (r: bool)
    ensures
        r == fact_rejected(b),
{
    let raw: u64 = (b >> 52) & 0x7FF;
    let frac: u64 = b & FRAC_MASK;
    let zero: bool = b & ABS_MASK == 0;
    let nan: bool = raw == EXP_SPECIAL && frac != 0;
    let below: bool = (b >> 63) == 1 && !zero && !nan;
    let nonwhole: bool = if zero {
        false
    } else if raw == EXP_SPECIAL {
        true
    } else if raw < EXP_BIAS {
        true
    } else if raw >= EXP_BIAS + 52 {
        false
    } else {
        let sh: u64 = 52 - (raw - EXP_BIAS);
        assert(1u64 << sh >= 1) by (bit_vector)
            requires
                sh <= 52u64,
        ;
        frac & ((1u64 << sh) - 1) != 0
    };
    below || nonwhole
}

/// The unsigned integer a whole, non-negative encoded value truncates to.
pub fn whole_value_bits(b: u64) -> (r: u64)
    ensures
        r == whole_value(b),
{
    let raw: u64 = (b >> 52) & 0x7FF;
    if b & ABS_MASK == 0 || raw < EXP_BIAS {
        0
    } else {
        let e: u64 = raw - EXP_BIAS;
        let m: u64 = (b & FRAC_MASK) | HIDDEN_BIT;
        if e <= 52 {
            m >> (52 - e)
        } else if e <= 63 {
            assert(m < 0x20_0000_0000_0000 && e - 52 <= 11) by (bit_vector)
                requires
                    m == (b & 0x000F_FFFF_FFFF_FFFFu64) | 0x0010_0000_0000_0000u64 && e <= 63u64,
            ;
            m << (e - 52)
        } else {
            0xFFFF_FFFF_FFFF_FFFF
        }
    }
}

/// The factorial of `n` in 64-bit wrapping arithmetic.
pub fn fact_value(n: u64) -> (r: u64)
    ensures
        r == fact_mod(n),
{
    let mut acc: u64 = 1;
    let mut i: u64 = 0;
    while i < n
        invariant
            i <= n,
            acc == fact_mod(i),
        decreases n - i,
    {
        i = i + 1;
        acc = acc.wrapping_mul(i);
    }
    acc
}

} // verus!
