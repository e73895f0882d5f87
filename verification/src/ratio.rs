//! Exact fractions for telemetry ratios.
//!
//! Hardware fractions (usage in `[0, 1]`, used memory over total memory) are
//! kept as integer rationals instead of machine floats, so a ratio is finite
//! by construction and percentage rounding is exact.

use vstd::prelude::*;

verus! {

/// An exact non-negative fraction `num / den`.
///
/// A well-formed ratio has a non-zero denominator, so its value is always
/// finite; the numeric guard below is the only place a zero denominator is
/// ever accepted, and it normalizes that degenerate division to zero.
#[derive(Clone, Copy, PartialEq, Eq, Structural, Debug)]
pub struct Ratio {
    pub num: u64,
    pub den: u64,
}

impl Ratio {
    /// Well-formedness: the denominator is non-zero, so the fraction is a
    /// finite number.
    pub open spec fn wf(self) -> bool {
        self.den >= 1
    }

    /// The fraction lies in the unit interval `[0, 1]`.
    pub open spec fn in_unit(self) -> bool {
        self.num <= self.den
    }

    /// Builds the fraction `num / den`.
    pub fn new(num: u64, den: u64) -> (r: Ratio)
        requires
            den >= 1,
        ensures
            r == (Ratio { num, den }),
            r.wf(),
    {
        Ratio { num, den }
    }

    /// The fraction zero, the safe default for an absent or unreadable load
    /// value: the display treats "no data" and "no load" alike for numeric
    /// series.
    pub fn zero() -> (r: Ratio)
        ensures
            r == spec_zero(),
            r.wf(),
            r.in_unit(),
    {
        Ratio { num: 0, den: 1 }
    }

    /// The fraction as a whole percentage, rounded half up, computed exactly.
    pub fn rounded_percent(&self) -> (p: u128)
        requires
            self.wf(),
        ensures
            p == percent_of(self.num as nat, self.den as nat),
            self.in_unit() ==> p <= 100,
    {
        proof {
            if self.num <= self.den {
                lemma_percent_unit_bound(self.num as nat, self.den as nat);
            }
        }
        let n: u128 = self.num as u128;
        let d: u128 = self.den as u128;
        (200 * n + d) / (2 * d)
    }
}

/// The zero fraction.
pub open spec fn spec_zero() -> Ratio {
    Ratio { num: 0, den: 1 }
}

/// `num / den` as a whole percentage, rounded half up:
/// `round(100 * num / den) == floor(100 * num / den + 1/2)
///  == floor((200 * num + den) / (2 * den))`.
pub open spec fn percent_of(num: nat, den: nat) -> nat
    recommends
        den >= 1,
{
    (200 * num + den) / (2 * den)
}

/// A fraction in the unit interval rounds to a percentage of at most 100.
proof fn lemma_percent_unit_bound(num: nat, den: nat)
    requires
        den >= 1,
        num <= den,
    ensures
        percent_of(num, den) <= 100,
{
    assert(200 * num + den <= 201 * den) by (nonlinear_arith)
        requires
            num <= den,
    ;
    assert((200 * num + den) / (2 * den) <= (201 * den) / (2 * den)) by (nonlinear_arith)
        requires
            den >= 1,
            200 * num + den <= 201 * den,
    ;
    assert((201 * den) / (2 * den) <= 100) by (nonlinear_arith)
        requires
            den >= 1,
    ;
}

/// The numeric guard: forming the ratio `num / den` never produces a
/// non-finite value. A zero denominator, the one way a division here could
/// fail to be a finite number, is silently normalized to the zero fraction
/// and treated as "no load" rather than as an error.
pub fn guard_div(num: u64, den: u64) -> (r: Ratio)
    ensures
        den >= 1 ==> r == (Ratio { num, den }),
        den == 0 ==> r == spec_zero(),
        r.wf(),
{
    if den == 0 {
        Ratio::zero()
    } else {
        Ratio { num, den }
    }
}

} // verus!
