//! Tallies of coin flips and the statistics reported on them.
use vstd::prelude::*;
use crate::ratio::{Fraction, Rational};

verus! {

/// Score above which a running tally raises an audible alert.
pub const ALERT_THRESHOLD: u64 = 10;

/// The absolute difference between the two counts.
pub open spec fn imbalance(ones: int, zeros: int) -> int {
    if ones >= zeros {
        ones - zeros
    } else {
        zeros - ones
    }
}

/// Imbalance score: `|ones - zeros| / (ones + zeros) * 1000`.
pub open spec fn score_of(ones: int, zeros: int) -> Rational {
    Rational { num: 1000 * imbalance(ones, zeros), den: ones + zeros }
}

/// Percentage variance: `|ratio_ones - ratio_zeros| * 100`.
pub open spec fn variance_of(ones: int, zeros: int) -> Rational {
    Rational { num: 100 * imbalance(ones, zeros), den: ones + zeros }
}

/// Share of ones among all rounds.
pub open spec fn ratio_ones_of(ones: int, zeros: int) -> Rational {
    Rational { num: ones, den: ones + zeros }
}

/// Share of zeros among all rounds.
pub open spec fn ratio_zeros_of(ones: int, zeros: int) -> Rational {
    Rational { num: zeros, den: ones + zeros }
}

/// Ones per zero; zero when no zero was drawn.
pub open spec fn exact_ratio_of(ones: int, zeros: int) -> Rational {
    if zeros > 0 {
        Rational { num: ones, den: zeros }
    } else {
        Rational { num: 0, den: 1 }
    }
}

/// The divisor of the reduced ratio: the total modulo the smaller count.
///
/// This formula is kept as the experiments have always reported it. It is
/// not a greatest-common-divisor reduction, and the two sides it yields need
/// not be whole numbers; read the reduced ratio as a rough indicator only.
pub open spec fn reduction_base(ones: int, zeros: int) -> int {
    if ones > zeros {
        (ones + zeros) % zeros
    } else {
        (ones + zeros) % ones
    }
}

/// Whether the reduced ratio falls back to `1:1`: a count is zero, or the
/// reduction base is.
pub open spec fn reduction_defaults(ones: int, zeros: int) -> bool {
    ones == 0 || zeros == 0 || reduction_base(ones, zeros) == 0
}

/// The ones side of the reduced ratio.
pub open spec fn reduced_ones_of(ones: int, zeros: int) -> Rational {
    if reduction_defaults(ones, zeros) {
        Rational { num: 1, den: 1 }
    } else {
        Rational { num: ones, den: reduction_base(ones, zeros) }
    }
}

/// The zeros side of the reduced ratio.
pub open spec fn reduced_zeros_of(ones: int, zeros: int) -> Rational {
    if reduction_defaults(ones, zeros) {
        Rational { num: 1, den: 1 }
    } else {
        Rational { num: zeros, den: reduction_base(ones, zeros) }
    }
}

/// Running counts of the ones and zeros drawn in a trial.
#[derive(Clone, Copy, Debug, PartialEq, Eq, Structural)]
pub struct Tally {
    pub ones: u64,
    pub zeros: u64,
}

impl Tally {
    /// Number of rounds recorded so far.
    pub open spec fn rounds(self) -> int {
        self.ones + self.zeros
    }

    /// An empty tally.
    pub fn new() -> (r: Tally)
        ensures
            r.ones == 0,
            r.zeros == 0,
    {
        Tally { ones: 0, zeros: 0 }
    }

    /// Number of rounds recorded so far, or `None` past `u64::MAX`.
    pub fn total(&self) -> (r: Option<u64>)
        ensures
            r == (if self.rounds() <= u64::MAX { Some(self.rounds() as u64) } else { None::<u64> }),
    {
        self.ones.checked_add(self.zeros)
    }

    /// Counts one round: a one when `bit` is set, a zero otherwise.
    pub fn record(&mut self, bit: bool)
        requires
            old(self).rounds() < u64::MAX,
        ensures
            bit ==> final(self).ones == old(self).ones + 1 && final(self).zeros == old(self).zeros,
            !bit ==> final(self).ones == old(self).ones && final(self).zeros == old(self).zeros + 1,
            final(self).rounds() == old(self).rounds() + 1,
    {
        if bit {
            self.ones = self.ones + 1;
        } else {
            self.zeros = self.zeros + 1;
        }
    }
}

/// The summary printed at the end of a coin-flip trial.
#[derive(Clone, Copy, Debug, PartialEq, Eq, Structural)]
pub struct TrialStats {
    pub total: u128,
    pub rem_ones: Fraction,
    pub rem_zeros: Fraction,
    pub exact_ratio: Fraction,
    pub ratio_ones: Fraction,
    pub ratio_zeros: Fraction,
    pub difference: u64,
    pub score: Fraction,
    pub variance: Fraction,
}

/// `|one_count - zero_count|` computed without overflow.
pub fn difference(one_count: u64, zero_count: u64) -> (r: u64)
    ensures
        r == imbalance(one_count as int, zero_count as int),
{
    if one_count >= zero_count {
        one_count - zero_count
    } else {
        zero_count - one_count
    }
}

/// The imbalance score `|ones - zeros| / (ones + zeros) * 1000`, exactly.
pub fn capture_score(one_count: u64, zero_count: u64) -> (r: Fraction)
    requires
        one_count + zero_count > 0,
    ensures
        r@ == score_of(one_count as int, zero_count as int),
{
    let d = difference(one_count, zero_count);
    Fraction { numer: 1000 * (d as u128), denom: one_count as u128 + zero_count as u128 }
}

/// Whether a tally's score is above the alert threshold.
pub fn alerts(one_count: u64, zero_count: u64) -> (r: bool)
    requires
        one_count + zero_count > 0,
    ensures
        r == score_of(one_count as int, zero_count as int).exceeds(ALERT_THRESHOLD as int),
{
    let d = difference(one_count, zero_count) as u128;
    let total = one_count as u128 + zero_count as u128;
    let threshold = ALERT_THRESHOLD as u128;
    assert(threshold * total <= 10 * (2 * u64::MAX as int)) by (nonlinear_arith)
        requires
            threshold == 10,
            total <= 2 * u64::MAX as int,
    ;
    1000 * d > threshold * total
}

/// All summary statistics of a trial with the given counts.
pub fn record_stats(one_count: u64, zero_count: u64) -> (r: TrialStats)
    requires
        one_count + zero_count > 0,
    ensures
        r.total == one_count + zero_count,
        r.rem_ones@ == reduced_ones_of(one_count as int, zero_count as int),
        r.rem_zeros@ == reduced_zeros_of(one_count as int, zero_count as int),
        r.exact_ratio@ == exact_ratio_of(one_count as int, zero_count as int),
        r.ratio_ones@ == ratio_ones_of(one_count as int, zero_count as int),
        r.ratio_zeros@ == ratio_zeros_of(one_count as int, zero_count as int),
        r.difference == imbalance(one_count as int, zero_count as int),
        r.score@ == score_of(one_count as int, zero_count as int),
        r.variance@ == variance_of(one_count as int, zero_count as int),
{
    let ones = one_count as u128;
    let zeros = zero_count as u128;
    let total = ones + zeros;
    let one_to_one = Fraction { numer: 1, denom: 1 };
    let (rem_ones, rem_zeros) = if ones == 0 || zeros == 0 {
        (one_to_one, one_to_one)
    } else {
        let base = if ones > zeros {
            total % zeros
        } else {
            total % ones
        };
        if base == 0 {
            (one_to_one, one_to_one)
        } else {
            (Fraction { numer: ones, denom: base }, Fraction { numer: zeros, denom: base })
        }
    };
    let exact_ratio = if zeros > 0 {
        Fraction { numer: ones, denom: zeros }
    } else {
        Fraction { numer: 0, denom: 1 }
    };
    let difference = difference(one_count, zero_count);
    let d = difference as u128;
    TrialStats {
        total,
        rem_ones,
        rem_zeros,
        exact_ratio,
        ratio_ones: Fraction { numer: ones, denom: total },
        ratio_zeros: Fraction { numer: zeros, denom: total },
        difference,
        score: Fraction { numer: 1000 * d, denom: total },
        variance: Fraction { numer: 100 * d, denom: total },
    }
}

/// The share of ones and the share of zeros add up to exactly one whenever
/// at least one round was drawn.
pub proof fn lemma_ratios_sum_to_one(ones: nat, zeros: nat)
    requires
        ones + zeros > 0,
    ensures
        ratio_ones_of(ones as int, zeros as int).plus(ratio_zeros_of(ones as int, zeros as int)).is_one(),
{
    let t = ones + zeros;
    assert(ones * t + zeros * t == t * t) by (nonlinear_arith)
        requires
            t == ones + zeros,
    ;
    assert(t * t != 0) by (nonlinear_arith)
        requires
            t > 0,
    ;
}

/// The imbalance score is never negative, and among tallies with the same
/// number of rounds it is proportional to `|ones - zeros|`, with factor
/// `1000 / rounds`.
pub proof fn lemma_score_linear(ones1: nat, zeros1: nat, ones2: nat, zeros2: nat)
    requires
        ones1 + zeros1 > 0,
        ones1 + zeros1 == ones2 + zeros2,
    ensures
        score_of(ones1 as int, zeros1 as int).num >= 0,
        score_of(ones1 as int, zeros1 as int).den > 0,
        score_of(ones1 as int, zeros1 as int).same_value(
            Rational { num: 1000 * imbalance(ones1 as int, zeros1 as int), den: (ones1 + zeros1) as int },
        ),
        score_of(ones1 as int, zeros1 as int).num * imbalance(ones2 as int, zeros2 as int)
            == score_of(ones2 as int, zeros2 as int).num * imbalance(ones1 as int, zeros1 as int),
        score_of(ones1 as int, zeros1 as int).den == score_of(ones2 as int, zeros2 as int).den,
{
    let d1 = imbalance(ones1 as int, zeros1 as int);
    let d2 = imbalance(ones2 as int, zeros2 as int);
    assert((1000 * d1) * d2 == (1000 * d2) * d1) by (nonlinear_arith);
}

/// The reduced ratio never divides by zero: when either count is zero it is
/// `1:1`, and otherwise each side's divisor is positive.
pub proof fn lemma_reduction_defined(ones: nat, zeros: nat)
    ensures
        (ones == 0 || zeros == 0) ==> reduced_ones_of(ones as int, zeros as int) == (Rational { num: 1, den: 1 })
            && reduced_zeros_of(ones as int, zeros as int) == (Rational { num: 1, den: 1 }),
        reduced_ones_of(ones as int, zeros as int).den > 0,
        reduced_zeros_of(ones as int, zeros as int).den > 0,
{
    if !reduction_defaults(ones as int, zeros as int) {
        assert(reduction_base(ones as int, zeros as int) >= 0);
    }
}

} // verus!
