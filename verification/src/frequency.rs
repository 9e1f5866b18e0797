//! The validated frequency value type.
//!
//! A `Hertz` wraps the single-precision pattern of a non-negative frequency
//! in hertz. It can be built from a rate (`from_hz`) or from a sampling
//! period (`from_dt`, the reciprocal), with unit-scaled helpers for
//! ergonomic literal construction; equality and order compare the
//! underlying magnitude with IEEE-754 semantics. A NaN is never a valid
//! input. A zero sampling period yields an explicit infinite-magnitude
//! frequency (the reciprocal of positive zero), never a silently wrong
//! finite value.

use vstd::prelude::*;
use core::cmp::Ordering;
use vstd::std_specs::cmp::{PartialEqSpec, PartialOrdSpec};
use crate::Errors;
use crate::arith::{div_bits, mul_bits, single_div, single_mul};
use crate::ieee::{eq_bits, feq, flt, is_nan, is_negative, lt_bits, negative_bits, sign_bit,
    ONE_BITS};

verus! {

/// The pattern of 1000.0, the hertz in a kilohertz.
pub const KILO_BITS: u32 = 0x447A_0000;
/// The pattern of 1000000.0, the hertz in a megahertz.
pub const MEGA_BITS: u32 = 0x4974_2400;

/// A frequency in hertz, stored as the pattern of a single-precision
/// number. Invariant: the value is never a NaN and never negative.
#[derive(Copy, Clone, Debug)]
pub struct Hertz {
    hz: u32,
}

impl Hertz {
    /// The stored single-precision pattern, in hertz.
    pub closed spec fn bits(self) -> u32 {
        self.hz
    }

    /// The invariant every constructed frequency satisfies: the pattern is
    /// neither a NaN nor negative.
    pub open spec fn wf(self) -> bool {
        !is_nan(self.bits()) && !is_negative(self.bits())
    }

    /// The stored single-precision pattern, in hertz.
    pub fn to_bits(&self) -> (r: u32)
        ensures
            r == self.bits(),
    {
        self.hz
    }

    /// Fallible construction from a rate in hertz: every non-negative
    /// pattern is accepted and stored unchanged; a negative one is rejected
    /// with `NegativeFrequency`.
    pub fn from_hz(hz: u32) -> (r: Result<Hertz, Errors>)
        requires
            !is_nan(hz),
        ensures
            r matches Ok(h) ==> h.bits() == hz && h.wf(),
            r is Ok <==> !is_negative(hz),
            r is Err <==> r == Err::<Hertz, Errors>(Errors::NegativeFrequency) && is_negative(hz),
    {
        if negative_bits(hz) {
            Err(Errors::NegativeFrequency)
        } else {
            Ok(Hertz { hz })
        }
    }

    /// Fallible construction from a sampling period in seconds: the rate is
    /// the reciprocal of the period, and a negative derived rate is
    /// rejected with `NegativeFrequency`. The reciprocal of a zero period
    /// is an explicit infinite-magnitude frequency. A period of one second
    /// is exactly the rate of one hertz.
    pub fn from_dt(dt: u32) -> (r: Result<Hertz, Errors>)
        requires
            !is_nan(dt),
        ensures
            r matches Ok(h) ==> h.bits() == single_div(ONE_BITS, dt) && h.wf(),
            r is Ok <==> !is_negative(single_div(ONE_BITS, dt)),
            r is Err <==> r == Err::<Hertz, Errors>(Errors::NegativeFrequency) && is_negative(
                single_div(ONE_BITS, dt)),
            dt == ONE_BITS ==> (r matches Ok(h) && h.bits() == ONE_BITS),
    {
        let rate = div_bits(ONE_BITS, dt);
        if negative_bits(rate) {
            Err(Errors::NegativeFrequency)
        } else {
            Ok(Hertz { hz: rate })
        }
    }

    /// Literal construction from a rate in hertz. The corresponding
    /// run-time entry point is `from_hz`; here a negative rate is excluded
    /// by contract instead of rejected.
    pub fn hz(hz: u32) -> (r: Hertz)
        requires
            !is_nan(hz),
            !is_negative(hz),
        ensures
            r.bits() == hz,
            r.wf(),
    {
        Hertz { hz }
    }

    /// Literal construction from a rate in kilohertz: the rate times 1000.
    pub fn khz(khz: u32) -> (r: Hertz)
        requires
            !is_nan(khz),
            !is_negative(khz),
        ensures
            r.bits() == single_mul(khz, KILO_BITS),
            r.wf(),
    {
        let hz = mul_bits(khz, KILO_BITS);
        Hertz { hz }
    }

    /// Literal construction from a rate in megahertz: the rate times one
    /// million.
    pub fn mhz(mhz: u32) -> (r: Hertz)
        requires
            !is_nan(mhz),
            !is_negative(mhz),
        ensures
            r.bits() == single_mul(mhz, MEGA_BITS),
            r.wf(),
    {
        let hz = mul_bits(mhz, MEGA_BITS);
        Hertz { hz }
    }

    /// Literal construction from a sampling period in seconds: the rate is
    /// the reciprocal of the period. A negative period is excluded by
    /// contract; the run-time entry point is `from_dt`.
    pub fn dt(dt: u32) -> (r: Hertz)
        requires
            !is_nan(dt),
            !sign_bit(dt),
        ensures
            r.bits() == single_div(ONE_BITS, dt),
            r.wf(),
    {
        let hz = div_bits(ONE_BITS, dt);
        Hertz { hz }
    }
}

impl PartialEq for Hertz {
    /// Frequencies are equal exactly when their magnitudes are equal in the
    /// IEEE-754 sense.
    fn eq(&self, other: &Hertz) -> (r: bool) {
        eq_bits(self.hz, other.hz)
    }
}

impl vstd::std_specs::cmp::PartialEqSpecImpl for Hertz {
    open spec fn obeys_eq_spec() -> bool {
        true
    }

    open spec fn eq_spec(&self, other: &Hertz) -> bool {
        feq(self.bits(), other.bits())
    }
}

impl vstd::std_specs::cmp::PartialOrdSpecImpl for Hertz {
    open spec fn obeys_partial_cmp_spec() -> bool {
        true
    }

    open spec fn partial_cmp_spec(&self, other: &Hertz) -> Option<Ordering> {
        if feq(self.bits(), other.bits()) {
            Some(Ordering::Equal)
        } else if flt(self.bits(), other.bits()) {
            Some(Ordering::Less)
        } else if flt(other.bits(), self.bits()) {
            Some(Ordering::Greater)
        } else {
            None
        }
    }
}

impl PartialOrd for Hertz {
    /// Frequencies are ordered by their underlying hertz magnitude with
    /// IEEE-754 comparison semantics.
    fn partial_cmp(&self, other: &Hertz) -> (r: Option<Ordering>) {
        if eq_bits(self.hz, other.hz) {
            Some(Ordering::Equal)
        } else if lt_bits(self.hz, other.hz) {
            Some(Ordering::Less)
        } else if lt_bits(other.hz, self.hz) {
            Some(Ordering::Greater)
        } else {
            None
        }
    }
}

/// Ordering of well-formed frequencies is consistent with the underlying
/// magnitude and total: of `a < b`, `a == b` and `b < a` (in the IEEE-754
/// sense on the stored patterns) exactly one holds, and the comparison
/// operators decide by exactly those relations.
pub proof fn lemma_order_by_magnitude(a: Hertz, b: Hertz)
    requires
        a.wf(),
        b.wf(),
    ensures
        a.partial_cmp_spec(&b) == Some(Ordering::Less) <==> flt(a.bits(), b.bits()),
        a.partial_cmp_spec(&b) == Some(Ordering::Equal) <==> feq(a.bits(), b.bits()),
        a.partial_cmp_spec(&b) == Some(Ordering::Greater) <==> flt(b.bits(), a.bits()),
        a.eq_spec(&b) <==> feq(a.bits(), b.bits()),
        flt(a.bits(), b.bits()) || feq(a.bits(), b.bits()) || flt(b.bits(), a.bits()),
        flt(a.bits(), b.bits()) ==> !feq(a.bits(), b.bits()) && !flt(b.bits(), a.bits()),
        feq(a.bits(), b.bits()) ==> !flt(a.bits(), b.bits()) && !flt(b.bits(), a.bits()),
{
}

/// The order on well-formed frequencies is transitive.
pub proof fn lemma_order_transitive(a: Hertz, b: Hertz, c: Hertz)
    requires
        a.wf(),
        b.wf(),
        c.wf(),
        flt(a.bits(), b.bits()),
        flt(b.bits(), c.bits()),
    ensures
        flt(a.bits(), c.bits()),
{
}

} // verus!
