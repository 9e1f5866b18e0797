//! Trusted elementary IEEE-754 single-precision operations.
//!
//! Rounded arithmetic cannot be defined inside the verifier, so each
//! elementary operation is named by an uninterpreted spec function and
//! performed by `rustc_apfloat`, a software implementation of IEEE-754
//! binary32 arithmetic that is a pure function of the operand bit patterns.
//! Every wrapper takes and returns bit patterns (`u32`), so the wrappers
//! together are the only trusted surface of the library. Beside each name
//! stand only the identities that IEEE-754 states directly (behaviour of
//! zeros, of signs, and of division by one); everything else the library
//! proves from the structure of its own computations.

use vstd::prelude::*;
use rustc_apfloat::Float;
use crate::ieee::{fneg, is_finite, is_infinite, is_nan, is_zero, neg_bits, sign_bit, ONE_BITS};

verus! {

/// The rounded single-precision sum of two patterns.
pub uninterp spec fn single_add(a: u32, b: u32) -> u32;

/// The rounded single-precision product of two patterns.
pub uninterp spec fn single_mul(a: u32, b: u32) -> u32;

/// The rounded single-precision quotient of two patterns.
pub uninterp spec fn single_div(a: u32, b: u32) -> u32;

/// The floor of a single-precision pattern as a 64-bit integer,
/// saturating at the bounds and zero for NaN.
pub uninterp spec fn single_floor(a: u32) -> i64;

/// The nearest single-precision pattern to a 64-bit integer.
pub uninterp spec fn single_from_i64(n: i64) -> u32;

/// A single-precision pattern scaled by a power of two, rounded.
pub uninterp spec fn single_scalbn(a: u32, n: i32) -> u32;

/// The single-precision difference, which IEEE-754 defines as the sum with
/// the second operand's sign reversed.
pub open spec fn single_sub(a: u32, b: u32) -> u32 {
    single_add(a, fneg(b))
}

/// Relies on `rustc_apfloat`'s `add_r` (round to nearest, ties to even).
/// IEEE-754 addition states directly: the sum of two zeros is a zero, and
/// adding a zero to a non-zero value returns that value unchanged.
#[verifier::external_body]
pub fn add_bits(a: u32, b: u32) -> (r: u32)
    ensures
        r == single_add(a, b),
        is_zero(a) && is_zero(b) ==> is_zero(r),
        is_zero(a) && !is_zero(b) && !is_nan(b) ==> r == b,
        is_zero(b) && !is_zero(a) && !is_nan(a) ==> r == a,
{
    let x = rustc_apfloat::ieee::Single::from_bits(a as u128);
    let y = rustc_apfloat::ieee::Single::from_bits(b as u128);
    ((x + y).value.to_bits()) as u32
}

/// Relies on `rustc_apfloat`'s `mul_r` (round to nearest, ties to even).
/// IEEE-754 multiplication states directly: a zero times a finite value is
/// a zero, and outside the invalid case (zero times infinity) the result is
/// not a NaN and its sign is the exclusive or of the operand signs.
#[verifier::external_body]
pub fn mul_bits(a: u32, b: u32) -> (r: u32)
    ensures
        r == single_mul(a, b),
        is_zero(a) && is_finite(b) ==> is_zero(r),
        is_zero(b) && is_finite(a) ==> is_zero(r),
        !is_nan(a) && !is_nan(b) && !(is_zero(a) && is_infinite(b)) && !(is_zero(b)
            && is_infinite(a)) ==> !is_nan(r) && sign_bit(r) == (sign_bit(a) != sign_bit(b)),
{
    let x = rustc_apfloat::ieee::Single::from_bits(a as u128);
    let y = rustc_apfloat::ieee::Single::from_bits(b as u128);
    ((x * y).value.to_bits()) as u32
}

/// Relies on `rustc_apfloat`'s `div_r` (round to nearest, ties to even).
/// IEEE-754 division states directly: division by one is exact, and outside
/// the invalid cases (zero over zero, infinity over infinity) the result is
/// not a NaN and its sign is the exclusive or of the operand signs.
#[verifier::external_body]
pub fn div_bits(a: u32, b: u32) -> (r: u32)
    ensures
        r == single_div(a, b),
        !is_nan(a) && b == ONE_BITS ==> r == a,
        !is_nan(a) && !is_nan(b) && !(is_zero(a) && is_zero(b)) && !(is_infinite(a)
            && is_infinite(b)) ==> !is_nan(r) && sign_bit(r) == (sign_bit(a) != sign_bit(b)),
{
    let x = rustc_apfloat::ieee::Single::from_bits(a as u128);
    let y = rustc_apfloat::ieee::Single::from_bits(b as u128);
    ((x / y).value.to_bits()) as u32
}

/// Relies on `rustc_apfloat`'s `to_i128_r` rounding toward negative
/// infinity: the floor of the value, saturated to the 64-bit range, zero
/// for a NaN.
#[verifier::external_body]
pub fn floor_bits(a: u32) -> (r: i64)
    ensures
        r == single_floor(a),
{
    let x = rustc_apfloat::ieee::Single::from_bits(a as u128);
    let mut exact = false;
    let n = rustc_apfloat::Float::to_i128_r(x, 64, rustc_apfloat::Round::TowardNegative, &mut exact);
    n.value as i64
}

/// Relies on `rustc_apfloat`'s `from_i128`: the integer rounded to the
/// nearest single-precision value.
#[verifier::external_body]
pub fn i64_to_bits(n: i64) -> (r: u32)
    ensures
        r == single_from_i64(n),
{
    let x = rustc_apfloat::Float::from_i128(n as i128);
    let v: rustc_apfloat::ieee::Single = x.value;
    (v.to_bits()) as u32
}

/// Relies on `rustc_apfloat`'s `scalbn`: the value scaled by `2^n`, rounded
/// to nearest, overflowing to an infinity and underflowing to a zero.
#[verifier::external_body]
pub fn scalbn_bits(a: u32, n: i32) -> (r: u32)
    ensures
        r == single_scalbn(a, n),
{
    let x = rustc_apfloat::ieee::Single::from_bits(a as u128);
    let y = rustc_apfloat::Float::scalbn(x, n);
    (y.to_bits()) as u32
}

/// Verified IEEE-754 subtraction: addition of the negated second operand,
/// which is how IEEE-754 (and `rustc_apfloat` itself) defines it.
pub fn sub_bits(a: u32, b: u32) -> (r: u32)
    ensures
        r == single_sub(a, b),
        is_zero(a) && is_zero(b) ==> is_zero(r),
        is_zero(b) && !is_zero(a) && !is_nan(a) ==> r == a,
{
    let nb = neg_bits(b);
    add_bits(a, nb)
}

} // verus!
