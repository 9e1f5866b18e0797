//! Bit-level view of IEEE-754 single-precision values.
//!
//! Every sample, frequency, coefficient and intermediate value in this
//! library is carried as the 32-bit pattern of an IEEE-754 single-precision
//! number. The classification predicates and the comparison relations on
//! such patterns are fully determined by the bits, so they are defined here
//! as spec functions — phrased with arithmetic on the pattern, which the
//! solver reasons about directly — and the executable comparisons are
//! verified against them.

use vstd::prelude::*;

verus! {

/// The value of the sign bit of a single-precision pattern.
pub const SIGN_MASK: u32 = 0x8000_0000;
/// Exponent field all ones, fraction zero: the magnitude of an infinity.
pub const EXP_MASK: u32 = 0x7F80_0000;

/// The pattern of positive zero.
pub const POS_ZERO: u32 = 0x0000_0000;
/// The pattern of 1.0.
pub const ONE_BITS: u32 = 0x3F80_0000;
/// The pattern of 2.0.
pub const TWO_BITS: u32 = 0x4000_0000;

/// The sign bit of the pattern: set exactly for negative values
/// (including negative zero and NaNs with the sign bit set).
pub open spec fn sign_bit(a: u32) -> bool {
    a >= SIGN_MASK
}

/// The magnitude bits of the pattern: exponent and fraction, sign cleared.
pub open spec fn magnitude(a: u32) -> u32 {
    a % SIGN_MASK
}

/// A NaN pattern: exponent all ones and a non-zero fraction.
pub open spec fn is_nan(a: u32) -> bool {
    magnitude(a) > EXP_MASK
}

/// An infinity pattern: exponent all ones and a zero fraction.
pub open spec fn is_infinite(a: u32) -> bool {
    magnitude(a) == EXP_MASK
}

/// A finite pattern: neither an infinity nor a NaN.
pub open spec fn is_finite(a: u32) -> bool {
    magnitude(a) < EXP_MASK
}

/// A zero pattern, of either sign.
pub open spec fn is_zero(a: u32) -> bool {
    magnitude(a) == 0
}

/// Negative in the sense of the IEEE-754 order: sign bit set and not a
/// zero. Negative zero compares equal to zero, so it does not count.
pub open spec fn is_negative(a: u32) -> bool {
    sign_bit(a) && !is_zero(a)
}

/// IEEE-754 negation on patterns: the sign bit reversed, nothing rounded.
pub open spec fn fneg(a: u32) -> u32 {
    if a >= SIGN_MASK {
        (a - SIGN_MASK) as u32
    } else {
        (a + SIGN_MASK) as u32
    }
}

/// The IEEE-754 `<` relation on single-precision patterns.
///
/// For non-NaN operands the order is total up to the identification of the
/// two zeros: negative values order by descending magnitude bits, positive
/// values by ascending magnitude bits, and every negative value is below
/// every positive one. Comparisons involving a NaN are false.
pub open spec fn flt(a: u32, b: u32) -> bool {
    if is_nan(a) || is_nan(b) {
        false
    } else if sign_bit(a) && sign_bit(b) {
        magnitude(b) < magnitude(a)
    } else if sign_bit(a) {
        !(is_zero(a) && is_zero(b))
    } else if sign_bit(b) {
        false
    } else {
        magnitude(a) < magnitude(b)
    }
}

/// The IEEE-754 `==` relation on single-precision patterns: equal bits, or
/// the two zeros; false whenever an operand is a NaN.
pub open spec fn feq(a: u32, b: u32) -> bool {
    !is_nan(a) && !is_nan(b) && (a == b || (is_zero(a) && is_zero(b)))
}

/// The IEEE-754 `<=` relation on single-precision patterns.
pub open spec fn fle(a: u32, b: u32) -> bool {
    flt(a, b) || feq(a, b)
}

/// Executable IEEE-754 `<` on patterns.
pub fn lt_bits(a: u32, b: u32) -> (r: bool)
    ensures
        r == flt(a, b),
{
    let ma: u32 = a % SIGN_MASK;
    let mb: u32 = b % SIGN_MASK;
    if ma > EXP_MASK || mb > EXP_MASK {
        false
    } else if a >= SIGN_MASK && b >= SIGN_MASK {
        mb < ma
    } else if a >= SIGN_MASK {
        !(ma == 0 && mb == 0)
    } else if b >= SIGN_MASK {
        false
    } else {
        ma < mb
    }
}

/// Executable IEEE-754 `==` on patterns.
pub fn eq_bits(a: u32, b: u32) -> (r: bool)
    ensures
        r == feq(a, b),
{
    let ma: u32 = a % SIGN_MASK;
    let mb: u32 = b % SIGN_MASK;
    if ma > EXP_MASK || mb > EXP_MASK {
        false
    } else {
        a == b || (ma == 0 && mb == 0)
    }
}

/// Executable IEEE-754 `<=` on patterns.
pub fn le_bits(a: u32, b: u32) -> (r: bool)
    ensures
        r == fle(a, b),
{
    if lt_bits(a, b) {
        true
    } else {
        eq_bits(a, b)
    }
}

/// Executable test for a negative pattern (IEEE order, negative zero
/// excluded).
pub fn negative_bits(a: u32) -> (r: bool)
    ensures
        r == is_negative(a),
{
    a >= SIGN_MASK && a % SIGN_MASK != 0
}

/// Executable test for a NaN pattern.
pub fn nan_bits(a: u32) -> (r: bool)
    ensures
        r == is_nan(a),
{
    a % SIGN_MASK > EXP_MASK
}

/// Executable IEEE-754 negation: reverse the sign bit. Exact by definition
/// of the format; no rounding is involved.
pub fn neg_bits(a: u32) -> (r: u32)
    ensures
        r == fneg(a),
        magnitude(r) == magnitude(a),
{
    if a >= SIGN_MASK {
        a - SIGN_MASK
    } else {
        a + SIGN_MASK
    }
}

} // verus!
