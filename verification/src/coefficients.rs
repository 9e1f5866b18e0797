//! The coefficient designer: from (filter type, sample rate, characteristic
//! frequency, Q) to the five normalized biquad taps, or a validation error.
//!
//! The derivation follows the classical analog-prototype bilinear-transform
//! design equations per filter type, evaluated in single precision: the
//! normalized angular frequency `w0 = 2*pi*f0/fs`, `sin w0`, `cos w0`,
//! `alpha = sin w0 / (2 q)`, and for the shelving and peaking types a
//! linear amplitude `A = 10^(gain_db/40)`. The five returned taps are the
//! type's numerator and denominator expressions, each divided by the
//! denominator's leading term `a0`. Every step is pinned exactly, as a
//! composition of rounded single-precision operations.

use vstd::prelude::*;
use crate::Errors;
use crate::frequency::Hertz;
use crate::arith::{add_bits, div_bits, mul_bits, sub_bits, single_add, single_div, single_mul,
    single_sub};
use crate::ieee::{fle, flt, fneg, is_finite, is_nan, le_bits, lt_bits, neg_bits, ONE_BITS,
    POS_ZERO, TWO_BITS};
use crate::math::{cos_bits, pow10_bits, sin_bits, spec_cos, spec_pow10, spec_sin, TWO_PI_BITS};

verus! {

/// The pattern of -2.0.
pub const NEG_TWO_BITS: u32 = 0xC000_0000;
/// The pattern of 40.0, the decibel divisor giving the amplitude exponent.
pub const FORTY_BITS: u32 = 0x4220_0000;
/// The pattern of 80.0, the decibel divisor giving the square root of the
/// amplitude.
pub const EIGHTY_BITS: u32 = 0x42A0_0000;
/// The pattern of the Butterworth quality factor, `1/sqrt(2)`.
pub const Q_BUTTERWORTH: u32 = 0x3F35_04F3;

/// The supported filter types. The shelving and peaking types carry their
/// gain in decibels (as a single-precision pattern).
#[derive(Copy, Clone, Debug, PartialEq, Eq, Structural)]
pub enum Type {
    LowPass,
    HighPass,
    BandPass,
    Notch,
    AllPass,
    LowShelf(u32),
    HighShelf(u32),
    PeakingEQ(u32),
}

/// The five normalized transfer-function taps after dividing through by the
/// leading denominator coefficient, so `a0` itself is 1 and not stored.
/// A plain copyable value with no hidden invariant; in normal use it is
/// produced by `from_params` from a validated parameter tuple.
#[derive(Copy, Clone, Debug, PartialEq, Eq, Structural)]
pub struct Coefficients {
    pub a1: u32,
    pub a2: u32,
    pub b0: u32,
    pub b1: u32,
    pub b2: u32,
}

/// All five taps are finite patterns.
pub open spec fn coeffs_finite(c: Coefficients) -> bool {
    is_finite(c.a1) && is_finite(c.a2) && is_finite(c.b0) && is_finite(c.b1) && is_finite(c.b2)
}

/// A well-formed filter type: a carried decibel gain is never a NaN.
pub open spec fn type_wf(filter: Type) -> bool {
    match filter {
        Type::LowShelf(g) => !is_nan(g),
        Type::HighShelf(g) => !is_nan(g),
        Type::PeakingEQ(g) => !is_nan(g),
        _ => true,
    }
}

/// The normalized angular frequency `2*pi*f0/fs`, rounded per step.
pub open spec fn spec_w0(fs: u32, f0: u32) -> u32 {
    single_div(single_mul(TWO_PI_BITS, f0), fs)
}

/// The resonance width term `sin(w0) / (2 q)`, rounded per step.
pub open spec fn spec_alpha(s: u32, q: u32) -> u32 {
    single_div(s, single_mul(TWO_BITS, q))
}

/// Division of every tap by the leading denominator term.
pub open spec fn spec_normalize(b0: u32, b1: u32, b2: u32, a0: u32, a1: u32, a2: u32)
    -> Coefficients {
    Coefficients {
        a1: single_div(a1, a0),
        a2: single_div(a2, a0),
        b0: single_div(b0, a0),
        b1: single_div(b1, a0),
        b2: single_div(b2, a0),
    }
}

/// The designed coefficient set for a validated parameter tuple: the
/// canonical per-type biquad design equations over `sin w0`, `cos w0`,
/// `alpha` and (for shelving and peaking types) the linear amplitude, every
/// operation rounded to single precision in the order the implementation
/// performs it. The band-pass type is the constant-skirt-gain variant
/// (peak gain Q).
pub open spec fn spec_design(filter: Type, fs: u32, f0: u32, q: u32) -> Coefficients {
    let w0 = spec_w0(fs, f0);
    let s = spec_sin(w0);
    let c = spec_cos(w0);
    let alpha = spec_alpha(s, q);
    match filter {
        Type::LowPass => {
            let b1 = single_sub(ONE_BITS, c);
            let b0 = single_div(b1, TWO_BITS);
            spec_normalize(
                b0,
                b1,
                b0,
                single_add(ONE_BITS, alpha),
                single_mul(NEG_TWO_BITS, c),
                single_sub(ONE_BITS, alpha),
            )
        },
        Type::HighPass => {
            let t = single_add(ONE_BITS, c);
            let b0 = single_div(t, TWO_BITS);
            spec_normalize(
                b0,
                fneg(t),
                b0,
                single_add(ONE_BITS, alpha),
                single_mul(NEG_TWO_BITS, c),
                single_sub(ONE_BITS, alpha),
            )
        },
        Type::BandPass => {
            let b0 = single_div(s, TWO_BITS);
            spec_normalize(
                b0,
                POS_ZERO,
                fneg(b0),
                single_add(ONE_BITS, alpha),
                single_mul(NEG_TWO_BITS, c),
                single_sub(ONE_BITS, alpha),
            )
        },
        Type::Notch => {
            spec_normalize(
                ONE_BITS,
                single_mul(NEG_TWO_BITS, c),
                ONE_BITS,
                single_add(ONE_BITS, alpha),
                single_mul(NEG_TWO_BITS, c),
                single_sub(ONE_BITS, alpha),
            )
        },
        Type::AllPass => {
            spec_normalize(
                single_sub(ONE_BITS, alpha),
                single_mul(NEG_TWO_BITS, c),
                single_add(ONE_BITS, alpha),
                single_add(ONE_BITS, alpha),
                single_mul(NEG_TWO_BITS, c),
                single_sub(ONE_BITS, alpha),
            )
        },
        Type::LowShelf(g) => {
            let a = spec_pow10(single_div(g, FORTY_BITS));
            let sqrt_a = spec_pow10(single_div(g, EIGHTY_BITS));
            let ap1 = single_add(a, ONE_BITS);
            let am1 = single_sub(a, ONE_BITS);
            let am1c = single_mul(am1, c);
            let ap1c = single_mul(ap1, c);
            let saa = single_mul(TWO_BITS, single_mul(sqrt_a, alpha));
            spec_normalize(
                single_mul(a, single_add(single_sub(ap1, am1c), saa)),
                single_mul(TWO_BITS, single_mul(a, single_sub(am1, ap1c))),
                single_mul(a, single_sub(single_sub(ap1, am1c), saa)),
                single_add(single_add(ap1, am1c), saa),
                single_mul(NEG_TWO_BITS, single_add(am1, ap1c)),
                single_sub(single_add(ap1, am1c), saa),
            )
        },
        Type::HighShelf(g) => {
            let a = spec_pow10(single_div(g, FORTY_BITS));
            let sqrt_a = spec_pow10(single_div(g, EIGHTY_BITS));
            let ap1 = single_add(a, ONE_BITS);
            let am1 = single_sub(a, ONE_BITS);
            let am1c = single_mul(am1, c);
            let ap1c = single_mul(ap1, c);
            let saa = single_mul(TWO_BITS, single_mul(sqrt_a, alpha));
            spec_normalize(
                single_mul(a, single_add(single_add(ap1, am1c), saa)),
                single_mul(NEG_TWO_BITS, single_mul(a, single_add(am1, ap1c))),
                single_mul(a, single_sub(single_add(ap1, am1c), saa)),
                single_add(single_sub(ap1, am1c), saa),
                single_mul(TWO_BITS, single_sub(am1, ap1c)),
                single_sub(single_sub(ap1, am1c), saa),
            )
        },
        Type::PeakingEQ(g) => {
            let a = spec_pow10(single_div(g, FORTY_BITS));
            let aa = single_mul(alpha, a);
            let ad = single_div(alpha, a);
            spec_normalize(
                single_add(ONE_BITS, aa),
                single_mul(NEG_TWO_BITS, c),
                single_sub(ONE_BITS, aa),
                single_add(ONE_BITS, ad),
                single_mul(NEG_TWO_BITS, c),
                single_sub(ONE_BITS, ad),
            )
        },
    }
}

impl Coefficients {
    /// Designs the coefficient set for the given parameters, validating
    /// first that the characteristic frequency lies strictly below the
    /// Nyquist frequency (half the sample rate) and then that the quality
    /// factor is strictly positive; the computation itself cannot fail.
    pub fn from_params(filter: Type, fs: Hertz, f0: Hertz, q_value: u32)
        -> (r: Result<Coefficients, Errors>)
        requires
            fs.wf(),
            f0.wf(),
            !is_nan(q_value),
            type_wf(filter),
        ensures
            r == Err::<Coefficients, Errors>(Errors::OutsideNyquist) <==> !flt(
                f0.bits(),
                single_div(fs.bits(), TWO_BITS),
            ),
            r == Err::<Coefficients, Errors>(Errors::NegativeQ) <==> (flt(
                f0.bits(),
                single_div(fs.bits(), TWO_BITS),
            ) && fle(q_value, POS_ZERO)),
            r is Ok <==> (flt(f0.bits(), single_div(fs.bits(), TWO_BITS)) && !fle(
                q_value,
                POS_ZERO,
            )),
            r matches Ok(c) ==> c == spec_design(filter, fs.bits(), f0.bits(), q_value),
    {
        let half = div_bits(fs.to_bits(), TWO_BITS);
        if !lt_bits(f0.to_bits(), half) {
            return Err(Errors::OutsideNyquist);
        }
        if le_bits(q_value, POS_ZERO) {
            return Err(Errors::NegativeQ);
        }
        let w0 = div_bits(mul_bits(TWO_PI_BITS, f0.to_bits()), fs.to_bits());
        let s = sin_bits(w0);
        let c = cos_bits(w0);
        let alpha = div_bits(s, mul_bits(TWO_BITS, q_value));
        match filter {
            Type::LowPass => {
                let b1 = sub_bits(ONE_BITS, c);
                let b0 = div_bits(b1, TWO_BITS);
                let a0 = add_bits(ONE_BITS, alpha);
                let a1 = mul_bits(NEG_TWO_BITS, c);
                let a2 = sub_bits(ONE_BITS, alpha);
                Ok(normalize(b0, b1, b0, a0, a1, a2))
            },
            Type::HighPass => {
                let t = add_bits(ONE_BITS, c);
                let b0 = div_bits(t, TWO_BITS);
                let a0 = add_bits(ONE_BITS, alpha);
                let a1 = mul_bits(NEG_TWO_BITS, c);
                let a2 = sub_bits(ONE_BITS, alpha);
                Ok(normalize(b0, neg_bits(t), b0, a0, a1, a2))
            },
            Type::BandPass => {
                let b0 = div_bits(s, TWO_BITS);
                let a0 = add_bits(ONE_BITS, alpha);
                let a1 = mul_bits(NEG_TWO_BITS, c);
                let a2 = sub_bits(ONE_BITS, alpha);
                Ok(normalize(b0, POS_ZERO, neg_bits(b0), a0, a1, a2))
            },
            Type::Notch => {
                let b1 = mul_bits(NEG_TWO_BITS, c);
                let a0 = add_bits(ONE_BITS, alpha);
                let a2 = sub_bits(ONE_BITS, alpha);
                Ok(normalize(ONE_BITS, b1, ONE_BITS, a0, b1, a2))
            },
            Type::AllPass => {
                let b0 = sub_bits(ONE_BITS, alpha);
                let b1 = mul_bits(NEG_TWO_BITS, c);
                let b2 = add_bits(ONE_BITS, alpha);
                Ok(normalize(b0, b1, b2, b2, b1, b0))
            },
            Type::LowShelf(g) => {
                let a = pow10_bits(div_bits(g, FORTY_BITS));
                let sqrt_a = pow10_bits(div_bits(g, EIGHTY_BITS));
                let ap1 = add_bits(a, ONE_BITS);
                let am1 = sub_bits(a, ONE_BITS);
                let am1c = mul_bits(am1, c);
                let ap1c = mul_bits(ap1, c);
                let saa = mul_bits(TWO_BITS, mul_bits(sqrt_a, alpha));
                let b0 = mul_bits(a, add_bits(sub_bits(ap1, am1c), saa));
                let b1 = mul_bits(TWO_BITS, mul_bits(a, sub_bits(am1, ap1c)));
                let b2 = mul_bits(a, sub_bits(sub_bits(ap1, am1c), saa));
                let a0 = add_bits(add_bits(ap1, am1c), saa);
                let a1 = mul_bits(NEG_TWO_BITS, add_bits(am1, ap1c));
                let a2 = sub_bits(add_bits(ap1, am1c), saa);
                Ok(normalize(b0, b1, b2, a0, a1, a2))
            },
            Type::HighShelf(g) => {
                let a = pow10_bits(div_bits(g, FORTY_BITS));
                let sqrt_a = pow10_bits(div_bits(g, EIGHTY_BITS));
                let ap1 = add_bits(a, ONE_BITS);
                let am1 = sub_bits(a, ONE_BITS);
                let am1c = mul_bits(am1, c);
                let ap1c = mul_bits(ap1, c);
                let saa = mul_bits(TWO_BITS, mul_bits(sqrt_a, alpha));
                let b0 = mul_bits(a, add_bits(add_bits(ap1, am1c), saa));
                let b1 = mul_bits(NEG_TWO_BITS, mul_bits(a, add_bits(am1, ap1c)));
                let b2 = mul_bits(a, sub_bits(add_bits(ap1, am1c), saa));
                let a0 = add_bits(sub_bits(ap1, am1c), saa);
                let a1 = mul_bits(TWO_BITS, sub_bits(am1, ap1c));
                let a2 = sub_bits(sub_bits(ap1, am1c), saa);
                Ok(normalize(b0, b1, b2, a0, a1, a2))
            },
            Type::PeakingEQ(g) => {
                let a = pow10_bits(div_bits(g, FORTY_BITS));
                let aa = mul_bits(alpha, a);
                let ad = div_bits(alpha, a);
                let b0 = add_bits(ONE_BITS, aa);
                let b1 = mul_bits(NEG_TWO_BITS, c);
                let b2 = sub_bits(ONE_BITS, aa);
                let a0 = add_bits(ONE_BITS, ad);
                let a2 = sub_bits(ONE_BITS, ad);
                Ok(normalize(b0, b1, b2, a0, b1, a2))
            },
        }
    }
}

/// Division of every raw tap by the leading denominator term `a0`.
fn normalize(b0: u32, b1: u32, b2: u32, a0: u32, a1: u32, a2: u32) -> (r: Coefficients)
    ensures
        r == spec_normalize(b0, b1, b2, a0, a1, a2),
{
    Coefficients {
        a1: div_bits(a1, a0),
        a2: div_bits(a2, a0),
        b0: div_bits(b0, a0),
        b1: div_bits(b1, a0),
        b2: div_bits(b2, a0),
    }
}

} // verus!
