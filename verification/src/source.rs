//! The Gaussian excitation, up to the exponential.
//!
//! At step `n` the source amplitude is `exp(-(n - delay)^2 / width^2)`. The
//! argument of the exponential is a ratio of two integers, computed here
//! exactly; a driver takes the exponential.

use vstd::arithmetic::mul::lemma_mul_upper_bound;
use vstd::prelude::*;

verus! {

/// Shape of the pulse, in time steps.
#[derive(Clone, Copy, Debug, PartialEq, Eq, Structural)]
pub struct Pulse {
    /// Step at which the pulse peaks.
    pub delay: u32,
    /// Steps from the peak to the point where the amplitude is `1/e`.
    pub width: u32,
}

/// The amplitude `exp(-num / den)`.
#[derive(Clone, Copy, Debug, PartialEq, Eq, Structural)]
pub struct PulseExponent {
    pub num: u64,
    pub den: u64,
}

impl Pulse {
    /// Numerator of the exponent at step `n`: the squared distance from
    /// the peak.
    pub open spec fn distance_squared(self, n: int) -> int {
        (n - self.delay) * (n - self.delay)
    }

    /// Denominator of the exponent: the squared width.
    pub open spec fn width_squared(self) -> int {
        self.width * self.width
    }

    /// The exponent of the amplitude at step `n`.
    pub open spec fn exponent_spec(self, n: int) -> PulseExponent {
        PulseExponent { num: self.distance_squared(n) as u64, den: self.width_squared() as u64 }
    }

    /// The pulse is symmetric about its peak: steps at the same distance
    /// before and after `delay` have the same exponent, hence the same
    /// amplitude.
    pub proof fn lemma_symmetric(self, d: int)
        ensures
            self.exponent_spec(self.delay - d) == self.exponent_spec(self.delay + d),
    {
        assert((0 - d) * (0 - d) == d * d) by (nonlinear_arith);
    }

    /// At the peak the numerator of the exponent is zero, and nowhere else.
    /// With a width that is not zero the amplitude there is `exp(0)`, which
    /// is one.
    pub proof fn lemma_peak(self, n: int)
        ensures
            self.distance_squared(n) == 0 <==> n == self.delay,
            self.exponent_spec(self.delay as int).num == 0,
    {
        let away = n - self.delay;
        assert(away * away == 0 <==> away == 0) by (nonlinear_arith);
    }

    /// The exponent of the amplitude at step `n`.
    pub fn exponent(&self, n: u32) -> (e: PulseExponent)
        ensures
            e == self.exponent_spec(n as int),
            e.num == self.distance_squared(n as int),
            e.den == self.width_squared(),
    {
        let away: u32 = if n >= self.delay {
            n - self.delay
        } else {
            self.delay - n
        };
        proof {
            assert(away * away == (n - self.delay) * (n - self.delay)) by (nonlinear_arith)
                requires
                    away == n - self.delay || away == self.delay - n,
            ;
            lemma_mul_upper_bound(away as int, 0xffff_ffff, away as int, 0xffff_ffff);
            lemma_mul_upper_bound(self.width as int, 0xffff_ffff, self.width as int, 0xffff_ffff);
        }
        PulseExponent {
            num: (away as u64) * (away as u64),
            den: (self.width as u64) * (self.width as u64),
        }
    }
}

} // verus!
