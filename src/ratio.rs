//! Exact fractions of unsigned integers, used wherever a statistic is a quotient.
use vstd::prelude::*;

verus! {

/// A rational number as a pair of mathematical integers.
pub ghost struct Rational {
    pub num: int,
    pub den: int,
}

impl Rational {
    /// Two rationals with positive denominators stand for the same number.
    pub open spec fn same_value(self, other: Rational) -> bool {
        self.num * other.den == other.num * self.den
    }

    /// The sum of two rationals, not reduced.
    pub open spec fn plus(self, other: Rational) -> Rational {
        Rational { num: self.num * other.den + other.num * self.den, den: self.den * other.den }
    }

    /// Whether this rational is exactly one.
    pub open spec fn is_one(self) -> bool {
        self.den != 0 && self.num == self.den
    }

    /// Whether this rational is strictly greater than the integer `k`.
    pub open spec fn exceeds(self, k: int) -> bool {
        self.num > k * self.den
    }
}

/// A quotient `numer / denom` of unsigned integers, kept unreduced.
#[derive(Clone, Copy, Debug, PartialEq, Eq, Structural)]
pub struct Fraction {
    pub numer: u128,
    pub denom: u128,
}

impl View for Fraction {
    type V = Rational;

    open spec fn view(&self) -> Rational {
        Rational { num: self.numer as int, den: self.denom as int }
    }
}

impl Fraction {
    /// Whether the fraction is strictly greater than the integer `k`.
    pub fn exceeds(&self, k: u64) -> (r: bool)
        requires
            self.denom <= u64::MAX,
        ensures
            r == self@.exceeds(k as int),
    {
        proof {
            assert((k as int) * (self.denom as int) <= (u64::MAX as int) * (u64::MAX as int))
                by (nonlinear_arith)
                requires
                    k <= u64::MAX,
                    self.denom <= u64::MAX,
            ;
        }
        self.numer > (k as u128) * self.denom
    }
}

} // verus!
