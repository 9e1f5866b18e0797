//! Verified single-precision kernels for the transcendental values the
//! coefficient designer needs: sine and cosine of the normalized angular
//! frequency (which always lies in `[0, pi]`), and the linear amplitude
//! `10^(x)` derived from a decibel gain.
//!
//! Each kernel is an ordinary polynomial evaluation over the trusted
//! elementary operations, so its contract pins the result exactly: the
//! returned pattern is the stated composition of rounded operations.
//! The polynomials are Taylor expansions whose truncation error over the
//! reduced argument ranges lies below single-precision resolution.

use vstd::prelude::*;
use crate::arith::{add_bits, floor_bits, i64_to_bits, mul_bits, scalbn_bits, sub_bits, single_add,
    single_floor, single_from_i64, single_mul, single_scalbn, single_sub};
use crate::ieee::{fle, le_bits, ONE_BITS};

verus! {

/// The pattern of pi.
pub const PI_BITS: u32 = 0x4049_0FDB;
/// The pattern of pi/2.
pub const PI_HALF_BITS: u32 = 0x3FC9_0FDB;
/// The pattern of 2*pi.
pub const TWO_PI_BITS: u32 = 0x40C9_0FDB;
/// The pattern of ln 2.
pub const LN2_BITS: u32 = 0x3F31_7218;
/// The pattern of log2 10.
pub const LOG2_10_BITS: u32 = 0x4054_9A78;

/// Odd Taylor coefficients of the sine: -1/3!, 1/5!, -1/7!, 1/9!, -1/11!, 1/13!.
pub const SIN_C3: u32 = 0xBE2A_AAAB;
pub const SIN_C5: u32 = 0x3C08_8889;
pub const SIN_C7: u32 = 0xB950_0D01;
pub const SIN_C9: u32 = 0x3638_EF1D;
pub const SIN_C11: u32 = 0xB2D7_322B;
pub const SIN_C13: u32 = 0x2F30_9231;

/// Even Taylor coefficients of the cosine: -1/2!, 1/4!, ..., -1/14!.
pub const COS_C2: u32 = 0xBF00_0000;
pub const COS_C4: u32 = 0x3D2A_AAAB;
pub const COS_C6: u32 = 0xBAB6_0B61;
pub const COS_C8: u32 = 0x37D0_0D01;
pub const COS_C10: u32 = 0xB493_F27E;
pub const COS_C12: u32 = 0x310F_76C7;
pub const COS_C14: u32 = 0xAD49_CBA5;

/// Taylor coefficients of the exponential: 1/2!, 1/3!, ..., 1/9!.
pub const EXP_C2: u32 = 0x3F00_0000;
pub const EXP_C3: u32 = 0x3E2A_AAAB;
pub const EXP_C4: u32 = 0x3D2A_AAAB;
pub const EXP_C5: u32 = 0x3C08_8889;
pub const EXP_C6: u32 = 0x3AB6_0B61;
pub const EXP_C7: u32 = 0x3950_0D01;
pub const EXP_C8: u32 = 0x37D0_0D01;
pub const EXP_C9: u32 = 0x3638_EF1D;

/// The sine polynomial on `[0, pi/2]`: `x * (1 + t*(C3 + t*(C5 + ...)))`
/// with `t = x*x`, every operation rounded to single precision.
pub open spec fn spec_sin_kernel(x: u32) -> u32 {
    let t = single_mul(x, x);
    let acc = single_add(single_mul(SIN_C13, t), SIN_C11);
    let acc = single_add(single_mul(acc, t), SIN_C9);
    let acc = single_add(single_mul(acc, t), SIN_C7);
    let acc = single_add(single_mul(acc, t), SIN_C5);
    let acc = single_add(single_mul(acc, t), SIN_C3);
    single_mul(x, single_add(single_mul(acc, t), ONE_BITS))
}

/// The cosine polynomial on `[0, pi/2]`: `1 + t*(C2 + t*(C4 + ...))` with
/// `t = x*x`, every operation rounded to single precision.
pub open spec fn spec_cos_kernel(x: u32) -> u32 {
    let t = single_mul(x, x);
    let acc = single_add(single_mul(COS_C14, t), COS_C12);
    let acc = single_add(single_mul(acc, t), COS_C10);
    let acc = single_add(single_mul(acc, t), COS_C8);
    let acc = single_add(single_mul(acc, t), COS_C6);
    let acc = single_add(single_mul(acc, t), COS_C4);
    let acc = single_add(single_mul(acc, t), COS_C2);
    single_add(single_mul(acc, t), ONE_BITS)
}

/// The sine on `[0, pi]`: arguments above pi/2 are reflected through
/// `sin(x) = sin(pi - x)` before the kernel polynomial is applied.
pub open spec fn spec_sin(x: u32) -> u32 {
    if fle(x, PI_HALF_BITS) {
        spec_sin_kernel(x)
    } else {
        spec_sin_kernel(single_sub(PI_BITS, x))
    }
}

/// The cosine on `[0, pi]`: arguments above pi/2 use
/// `cos(x) = -cos(pi - x)` before the kernel polynomial is applied.
pub open spec fn spec_cos(x: u32) -> u32 {
    if fle(x, PI_HALF_BITS) {
        spec_cos_kernel(x)
    } else {
        crate::ieee::fneg(spec_cos_kernel(single_sub(PI_BITS, x)))
    }
}

/// The exponential polynomial for arguments in `[0, ln 2)`:
/// `1 + z*(1 + z*(C2 + z*(C3 + ...)))`, every operation rounded.
pub open spec fn spec_exp_kernel(z: u32) -> u32 {
    let acc = single_add(single_mul(EXP_C9, z), EXP_C8);
    let acc = single_add(single_mul(acc, z), EXP_C7);
    let acc = single_add(single_mul(acc, z), EXP_C6);
    let acc = single_add(single_mul(acc, z), EXP_C5);
    let acc = single_add(single_mul(acc, z), EXP_C4);
    let acc = single_add(single_mul(acc, z), EXP_C3);
    let acc = single_add(single_mul(acc, z), EXP_C2);
    let acc = single_add(single_mul(acc, z), ONE_BITS);
    single_add(single_mul(acc, z), ONE_BITS)
}

/// Saturation of a 64-bit exponent to the 32-bit range expected by the
/// power-of-two scaling operation.
pub open spec fn spec_clamp_exp(n: i64) -> i32 {
    if n > i32::MAX as i64 {
        i32::MAX
    } else if n < i32::MIN as i64 {
        i32::MIN
    } else {
        n as i32
    }
}

/// `10^t` by decomposition `10^t = 2^(t*log2 10) = 2^n * e^(f*ln 2)` with
/// `n` the floor of `t*log2 10` and `f` its fractional part, every
/// operation rounded to single precision.
pub open spec fn spec_pow10(t: u32) -> u32 {
    let u = single_mul(t, LOG2_10_BITS);
    let n = single_floor(u);
    let f = single_sub(u, single_from_i64(n));
    let z = single_mul(f, LN2_BITS);
    single_scalbn(spec_exp_kernel(z), spec_clamp_exp(n))
}

/// Sine of a pattern in `[0, pi]` (total on all patterns; meaningful on
/// that range).
pub fn sin_bits(x: u32) -> (r: u32)
    ensures
        r == spec_sin(x),
{
    if le_bits(x, PI_HALF_BITS) {
        sin_kernel(x)
    } else {
        sin_kernel(sub_bits(PI_BITS, x))
    }
}

/// Cosine of a pattern in `[0, pi]` (total on all patterns; meaningful on
/// that range).
pub fn cos_bits(x: u32) -> (r: u32)
    ensures
        r == spec_cos(x),
{
    if le_bits(x, PI_HALF_BITS) {
        cos_kernel(x)
    } else {
        crate::ieee::neg_bits(cos_kernel(sub_bits(PI_BITS, x)))
    }
}

/// The sine kernel polynomial, evaluated by Horner's scheme.
fn sin_kernel(x: u32) -> (r: u32)
    ensures
        r == spec_sin_kernel(x),
{
    let t = mul_bits(x, x);
    let acc = add_bits(mul_bits(SIN_C13, t), SIN_C11);
    let acc = add_bits(mul_bits(acc, t), SIN_C9);
    let acc = add_bits(mul_bits(acc, t), SIN_C7);
    let acc = add_bits(mul_bits(acc, t), SIN_C5);
    let acc = add_bits(mul_bits(acc, t), SIN_C3);
    mul_bits(x, add_bits(mul_bits(acc, t), ONE_BITS))
}

/// The cosine kernel polynomial, evaluated by Horner's scheme.
fn cos_kernel(x: u32) -> (r: u32)
    ensures
        r == spec_cos_kernel(x),
{
    let t = mul_bits(x, x);
    let acc = add_bits(mul_bits(COS_C14, t), COS_C12);
    let acc = add_bits(mul_bits(acc, t), COS_C10);
    let acc = add_bits(mul_bits(acc, t), COS_C8);
    let acc = add_bits(mul_bits(acc, t), COS_C6);
    let acc = add_bits(mul_bits(acc, t), COS_C4);
    let acc = add_bits(mul_bits(acc, t), COS_C2);
    add_bits(mul_bits(acc, t), ONE_BITS)
}

/// `10^t` for a pattern `t` (total on all patterns).
pub fn pow10_bits(t: u32) -> (r: u32)
    ensures
        r == spec_pow10(t),
{
    let u = mul_bits(t, LOG2_10_BITS);
    let n: i64 = floor_bits(u);
    let f = sub_bits(u, i64_to_bits(n));
    let z = mul_bits(f, LN2_BITS);
    let e = exp_kernel(z);
    let ni: i32 = if n > i32::MAX as i64 {
        i32::MAX
    } else if n < i32::MIN as i64 {
        i32::MIN
    } else {
        n as i32
    };
    scalbn_bits(e, ni)
}

/// The exponential kernel polynomial, evaluated by Horner's scheme.
fn exp_kernel(z: u32) -> (r: u32)
    ensures
        r == spec_exp_kernel(z),
{
    let acc = add_bits(mul_bits(EXP_C9, z), EXP_C8);
    let acc = add_bits(mul_bits(acc, z), EXP_C7);
    let acc = add_bits(mul_bits(acc, z), EXP_C6);
    let acc = add_bits(mul_bits(acc, z), EXP_C5);
    let acc = add_bits(mul_bits(acc, z), EXP_C4);
    let acc = add_bits(mul_bits(acc, z), EXP_C3);
    let acc = add_bits(mul_bits(acc, z), EXP_C2);
    let acc = add_bits(mul_bits(acc, z), ONE_BITS);
    add_bits(mul_bits(acc, z), ONE_BITS)
}

} // verus!
