//! Amounts of SOL and stSOL, and exact rational scaling of them.
use vstd::prelude::*;

verus! {

/// An amount of SOL, in lamports.
#[derive(Clone, Copy, Debug, Default, PartialEq, Eq, Structural)]
pub struct Lamports(pub u64);

/// An amount of stSOL, in its smallest unit.
#[derive(Clone, Copy, Debug, Default, PartialEq, Eq, Structural)]
pub struct StLamports(pub u64);

/// The fraction `numerator / denominator`.
#[derive(Clone, Copy, Debug, PartialEq, Eq, Structural)]
pub struct Rational {
    pub numerator: u64,
    pub denominator: u64,
}

/// `amount * ratio`, rounded down: `None` where the denominator is zero or
/// the result does not fit in a `u64`.
pub open spec fn scaled(amount: u64, ratio: Rational) -> Option<u64> {
    if ratio.denominator == 0 {
        None
    } else {
        let q = (amount as int) * (ratio.numerator as int) / (ratio.denominator as int);
        if q <= u64::MAX {
            Some(q as u64)
        } else {
            None
        }
    }
}

impl StLamports {
    /// Multiplies by a fraction, rounding down. The product is formed in 128
    /// bits, so only the final quotient can overflow.
    pub fn mul_rational(self, ratio: Rational) -> (res: Option<StLamports>)
        ensures
            res == (match scaled(self.0, ratio) {
                Some(q) => Some(StLamports(q)),
                None => None::<StLamports>,
            }),
    {
        if ratio.denominator == 0 {
            return None;
        }
        let a: u128 = self.0 as u128;
        let n: u128 = ratio.numerator as u128;
        assert(a * n <= 0xffff_ffff_ffff_ffffu128 * 0xffff_ffff_ffff_ffffu128) by (nonlinear_arith)
            requires
                a <= 0xffff_ffff_ffff_ffffu128,
                n <= 0xffff_ffff_ffff_ffffu128,
        ;
        let product: u128 = a * n;
        let q: u128 = product / (ratio.denominator as u128);
        if q > (u64::MAX as u128) {
            None
        } else {
            Some(StLamports(q as u64))
        }
    }

    /// Division by a count, rounding down; `None` where the count is zero.
    pub fn checked_div(self, divisor: u64) -> (res: Option<StLamports>)
        ensures
            divisor == 0 ==> res is None,
            divisor != 0 ==> res == Some(StLamports((self.0 / divisor) as u64)),
    {
        if divisor == 0 {
            None
        } else {
            Some(StLamports(self.0 / divisor))
        }
    }

    /// Multiplication by a count; `None` where the product overflows.
    pub fn checked_mul(self, factor: u64) -> (res: Option<StLamports>)
        ensures
            self.0 * factor > u64::MAX ==> res is None,
            self.0 * factor <= u64::MAX ==> res == Some(StLamports((self.0 * factor) as u64)),
    {
        match self.0.checked_mul(factor) {
            Some(p) => Some(StLamports(p)),
            None => None,
        }
    }

    /// Subtraction; `None` where `other` is the larger.
    pub fn checked_sub(self, other: StLamports) -> (res: Option<StLamports>)
        ensures
            self.0 < other.0 ==> res is None,
            self.0 >= other.0 ==> res == Some(StLamports((self.0 - other.0) as u64)),
    {
        if self.0 < other.0 {
            None
        } else {
            Some(StLamports(self.0 - other.0))
        }
    }
}

} // verus!
