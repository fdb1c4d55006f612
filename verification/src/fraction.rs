//! Exact duty fractions.
//!
//! A duty fraction is the proportion of a cycle during which a pin is held
//! asserted.  It is carried as an exact ratio of two machine words, so the
//! threshold test `fraction < j / num_samples` that drives the sample
//! buffer is decided precisely, with no rounding.

use vstd::prelude::*;

verus! {

/// A duty fraction `num / den`.  A fraction is in range when `den` is
/// nonzero and `num <= den`, which places the ratio in the unit interval.
#[derive(Clone, Copy, Debug, PartialEq, Eq, Structural)]
pub struct Fraction {
    pub num: u32,
    pub den: u32,
}

/// Whether `f` lies in the unit interval.
pub open spec fn fraction_in_range(f: Fraction) -> bool {
    f.den > 0 && f.num <= f.den
}

/// Whether the ratio `j / n` strictly exceeds the fraction `f`, decided by
/// cross-multiplication: `j / n > num / den  <=>  j * den > num * n`.
pub open spec fn ratio_exceeds(f: Fraction, j: int, n: int) -> bool {
    j * f.den > f.num * n
}

/// Whether `f` is a positive fraction.
pub open spec fn fraction_positive(f: Fraction) -> bool {
    f.num > 0
}

impl Fraction {
    /// The fraction `num / den`.
    pub fn new(num: u32, den: u32) -> (r: Fraction)
        ensures
            r == (Fraction { num, den }),
    {
        Fraction { num, den }
    }

    /// Whether the fraction lies in the unit interval.
    pub fn in_range(&self) -> (r: bool)
        ensures
            r == fraction_in_range(*self),
    {
        self.den > 0 && self.num <= self.den
    }

    /// Whether the fraction is positive.
    pub fn positive(&self) -> (r: bool)
        ensures
            r == fraction_positive(*self),
    {
        self.num > 0
    }

    /// Whether the time-slot ratio `j / n` strictly exceeds this fraction.
    /// This is the point in the cycle where the pin de-asserts.
    pub fn exceeded_by(&self, j: usize, n: usize) -> (r: bool)
        requires
            j <= 0xffff_ffff,
            n <= 0xffff_ffff,
        ensures
            r == ratio_exceeds(*self, j as int, n as int),
    {
        proof {
            assert((j as u64) * (self.den as u64) <= 0xffff_ffffu64 * 0xffff_ffffu64
                && (self.num as u64) * (n as u64) <= 0xffff_ffffu64 * 0xffff_ffffu64)
                by (nonlinear_arith)
                requires
                    j <= 0xffff_ffff,
                    n <= 0xffff_ffff,
                    self.den <= 0xffff_ffff,
                    self.num <= 0xffff_ffff,
            ;
        }
        (j as u64) * (self.den as u64) > (self.num as u64) * (n as u64)
    }
}

} // verus!
