//! Second-order IIR ("biquad") filter sections.
//!
//! The library designs normalized biquad coefficients from human-facing
//! parameters (filter type, sample rate, characteristic frequency, Q) and
//! applies them to a sample stream through one of two realization
//! structures: Direct Form 1, which retunes without disturbing its delay
//! memory, and Direct Form 2 Transposed, which needs fewer operations per
//! sample and suits static filters.
//!
//! All values are IEEE-754 single-precision numbers carried as their 32-bit
//! patterns (`u32`), so the validation rules, the state recurrences and the
//! exact arithmetic structure of every computation are verified; the
//! elementary rounded operations themselves are performed by a software
//! IEEE-754 implementation behind narrow trusted wrappers.

use vstd::prelude::*;

pub mod arith;
pub mod coefficients;
pub mod frequency;
pub mod ieee;
pub mod math;

pub use crate::coefficients::{Coefficients, Type, Q_BUTTERWORTH};
pub use crate::frequency::Hertz;

use crate::arith::{add_bits, mul_bits, sub_bits, single_add, single_mul, single_sub};
use crate::coefficients::coeffs_finite;
use crate::ieee::{feq, is_finite, is_zero, POS_ZERO};

verus! {

/// Errors reported by the fallible constructors: each names the invalid
/// design-time input that produced it.
#[derive(Copy, Clone, Debug, PartialEq, Eq, Structural)]
pub enum Errors {
    /// The characteristic frequency is not strictly below half the sample
    /// rate (also the symptom of swapped frequency arguments).
    OutsideNyquist,
    /// The quality factor is not strictly positive.
    NegativeQ,
    /// A frequency was constructed from a negative magnitude.
    NegativeFrequency,
}

/// The Direct Form 1 output recurrence:
/// `b0*input + b1*x1 + b2*x2 - a1*y1 - a2*y2`, each operation rounded to
/// single precision in left-to-right order.
pub open spec fn df1_output(c: Coefficients, x1: u32, x2: u32, y1: u32, y2: u32, input: u32)
    -> u32 {
    single_sub(
        single_sub(
            single_add(
                single_add(single_mul(c.b0, input), single_mul(c.b1, x1)),
                single_mul(c.b2, x2),
            ),
            single_mul(c.a1, y1),
        ),
        single_mul(c.a2, y2),
    )
}

/// The required capabilities of a biquad realization: a single-sample
/// transform and a coefficient hot-swap, with the common laws every
/// realization obeys.
pub trait Biquad: Sized {
    /// The coefficient set the realization currently applies.
    spec fn coefficient_set(&self) -> Coefficients;

    /// Whether every delay register holds an IEEE-754 zero: the state of a
    /// freshly constructed realization, holding no signal energy.
    spec fn at_rest(&self) -> bool;

    /// The realization after one transform step on `input`.
    spec fn stepped(&self, input: u32) -> Self;

    /// The output of one transform step on `input`.
    spec fn response(&self, input: u32) -> u32;

    /// The realization with the coefficient set replaced and every delay
    /// register untouched.
    spec fn retuned(&self, new_coefficients: Coefficients) -> Self;

    /// A single iteration of the biquad, applying the filtering on the
    /// input. Total: it never fails, and non-finite values propagate by
    /// ordinary IEEE-754 rules. From a resting state with a finite
    /// coefficient set, a zero input produces a zero output and leaves the
    /// realization at rest (so an all-zero input sequence of any length
    /// produces an all-zero output sequence, by induction), and any finite
    /// input produces an output IEEE-equal to the rounded product
    /// `b0 * input` — the same first response in every realization.
    fn run(&mut self, input: u32) -> (r: u32)
        ensures
            *final(self) == old(self).stepped(input),
            r == old(self).response(input),
            final(self).coefficient_set() == old(self).coefficient_set(),
            old(self).at_rest() && is_zero(input) && coeffs_finite(old(self).coefficient_set())
                ==> is_zero(r) && final(self).at_rest(),
            old(self).at_rest() && is_finite(input) && coeffs_finite(old(self).coefficient_set())
                ==> feq(r, single_mul(old(self).coefficient_set().b0, input)),
    ;

    /// Updating of coefficients: the delay-line memory is left untouched,
    /// only the weighting of that memory on the next call changes.
    fn update_coefficients(&mut self, new_coefficients: Coefficients)
        ensures
            *final(self) == old(self).retuned(new_coefficients),
            final(self).coefficient_set() == new_coefficients,
            final(self).at_rest() == old(self).at_rest(),
    ;
}

/// Internal states and coefficients of the Direct Form 1 realization.
#[derive(Copy, Clone, Debug)]
pub struct DirectForm1 {
    pub y1: u32,
    pub y2: u32,
    pub x1: u32,
    pub x2: u32,
    pub coeffs: Coefficients,
}

impl DirectForm1 {
    /// Creates a Direct Form 1 biquad from a set of filter coefficients,
    /// with every delay register zero-initialized.
    pub fn new(coefficients: Coefficients) -> (r: DirectForm1)
        ensures
            r == (DirectForm1 {
                y1: POS_ZERO,
                y2: POS_ZERO,
                x1: POS_ZERO,
                x2: POS_ZERO,
                coeffs: coefficients,
            }),
            r.at_rest(),
            r.coefficient_set() == coefficients,
    {
        DirectForm1 { y1: POS_ZERO, y2: POS_ZERO, x1: POS_ZERO, x2: POS_ZERO, coeffs: coefficients }
    }
}

impl Biquad for DirectForm1 {
    open spec fn coefficient_set(&self) -> Coefficients {
        self.coeffs
    }

    open spec fn at_rest(&self) -> bool {
        is_zero(self.x1) && is_zero(self.x2) && is_zero(self.y1) && is_zero(self.y2)
    }

    open spec fn stepped(&self, input: u32) -> DirectForm1 {
        DirectForm1 {
            y1: df1_output(self.coeffs, self.x1, self.x2, self.y1, self.y2, input),
            y2: self.y1,
            x1: input,
            x2: self.x1,
            coeffs: self.coeffs,
        }
    }

    open spec fn response(&self, input: u32) -> u32 {
        df1_output(self.coeffs, self.x1, self.x2, self.y1, self.y2, input)
    }

    open spec fn retuned(&self, new_coefficients: Coefficients) -> DirectForm1 {
        DirectForm1 {
            y1: self.y1,
            y2: self.y2,
            x1: self.x1,
            x2: self.x2,
            coeffs: new_coefficients,
        }
    }

    fn run(&mut self, input: u32) -> (r: u32) {
        let out = sub_bits(
            sub_bits(
                add_bits(
                    add_bits(mul_bits(self.coeffs.b0, input), mul_bits(self.coeffs.b1, self.x1)),
                    mul_bits(self.coeffs.b2, self.x2),
                ),
                mul_bits(self.coeffs.a1, self.y1),
            ),
            mul_bits(self.coeffs.a2, self.y2),
        );
        self.x2 = self.x1;
        self.x1 = input;
        self.y2 = self.y1;
        self.y1 = out;
        out
    }

    fn update_coefficients(&mut self, new_coefficients: Coefficients) {
        self.coeffs = new_coefficients;
    }
}

/// Internal states and coefficients of the Direct Form 2 Transposed
/// realization.
#[derive(Copy, Clone, Debug)]
pub struct DirectForm2Transposed {
    pub s1: u32,
    pub s2: u32,
    pub coeffs: Coefficients,
}

impl DirectForm2Transposed {
    /// Creates a Direct Form 2 Transposed biquad from a set of filter
    /// coefficients, with both state registers zero-initialized.
    pub fn new(coefficients: Coefficients) -> (r: DirectForm2Transposed)
        ensures
            r == (DirectForm2Transposed { s1: POS_ZERO, s2: POS_ZERO, coeffs: coefficients }),
            r.at_rest(),
            r.coefficient_set() == coefficients,
    {
        DirectForm2Transposed { s1: POS_ZERO, s2: POS_ZERO, coeffs: coefficients }
    }
}

impl Biquad for DirectForm2Transposed {
    open spec fn coefficient_set(&self) -> Coefficients {
        self.coeffs
    }

    open spec fn at_rest(&self) -> bool {
        is_zero(self.s1) && is_zero(self.s2)
    }

    open spec fn stepped(&self, input: u32) -> DirectForm2Transposed {
        let out = single_add(self.s1, single_mul(self.coeffs.b0, input));
        DirectForm2Transposed {
            s1: single_sub(
                single_add(self.s2, single_mul(self.coeffs.b1, input)),
                single_mul(self.coeffs.a1, out),
            ),
            s2: single_sub(single_mul(self.coeffs.b2, input), single_mul(self.coeffs.a2, out)),
            coeffs: self.coeffs,
        }
    }

    open spec fn response(&self, input: u32) -> u32 {
        single_add(self.s1, single_mul(self.coeffs.b0, input))
    }

    open spec fn retuned(&self, new_coefficients: Coefficients) -> DirectForm2Transposed {
        DirectForm2Transposed { s1: self.s1, s2: self.s2, coeffs: new_coefficients }
    }

    fn run(&mut self, input: u32) -> (r: u32) {
        let out = add_bits(self.s1, mul_bits(self.coeffs.b0, input));
        self.s1 = sub_bits(
            add_bits(self.s2, mul_bits(self.coeffs.b1, input)),
            mul_bits(self.coeffs.a1, out),
        );
        self.s2 = sub_bits(mul_bits(self.coeffs.b2, input), mul_bits(self.coeffs.a2, out));
        out
    }

    fn update_coefficients(&mut self, new_coefficients: Coefficients) {
        self.coeffs = new_coefficients;
    }
}

/// A filter holding no initial energy and fed no input produces no output:
/// driving any realization with an all-zero input sequence of any length,
/// from a resting state and with a finite coefficient set, yields an
/// all-zero output sequence and leaves the realization at rest.
pub fn zero_input_response<B: Biquad>(b: &mut B, n: usize) -> (outs: Vec<u32>)
    requires
        old(b).at_rest(),
        coeffs_finite(old(b).coefficient_set()),
    ensures
        outs.len() == n,
        forall|i: int| 0 <= i < n ==> is_zero(outs[i]),
        final(b).at_rest(),
{
    let mut outs: Vec<u32> = Vec::new();
    let mut k: usize = 0;
    while k < n
        invariant
            k <= n,
            outs.len() == k,
            forall|i: int| 0 <= i < k ==> is_zero(outs[i]),
            b.at_rest(),
            coeffs_finite(b.coefficient_set()),
        decreases n - k,
    {
        let o = b.run(POS_ZERO);
        outs.push(o);
        k += 1;
    }
    outs
}

/// Retuning a Direct Form 1 realization does not reset its memory: the
/// response to the next input weighs the delay registers exactly as they
/// stood before the coefficient swap, only with the new coefficients.
pub proof fn lemma_retune_keeps_memory_df1(d: DirectForm1, c: Coefficients, input: u32)
    ensures
        d.retuned(c).x1 == d.x1 && d.retuned(c).x2 == d.x2 && d.retuned(c).y1 == d.y1 && d.retuned(
            c,
        ).y2 == d.y2,
        d.retuned(c).response(input) == df1_output(c, d.x1, d.x2, d.y1, d.y2, input),
{
}

/// Retuning a Direct Form 2 Transposed realization does not reset its
/// memory: the response to the next input reads the first state register
/// exactly as it stood before the coefficient swap.
pub proof fn lemma_retune_keeps_memory_df2t(d: DirectForm2Transposed, c: Coefficients, input: u32)
    ensures
        d.retuned(c).s1 == d.s1 && d.retuned(c).s2 == d.s2,
        d.retuned(c).response(input) == single_add(d.s1, single_mul(c.b0, input)),
{
}

} // verus!
