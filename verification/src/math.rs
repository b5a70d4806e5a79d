//! Checked scaled-integer arithmetic shared by the vesting and staking engines.
//!
//! Every multiply-then-divide step of the engines goes through one of the two
//! functions here. Both multiply before they divide, so no fractional share is
//! truncated early, and both report a result that does not fit instead of
//! wrapping.

use crate::error_kind::ErrorKind;
use vstd::arithmetic::div_mod::*;
use vstd::prelude::*;

verus! {

/// Scale of the reward-per-share accumulator: twelve decimal digits of
/// fractional resolution.
pub const PRECISION: i128 = 1_000_000_000_000;

/// Failure of a checked arithmetic step.
#[derive(Copy, Clone, Debug, PartialEq, Eq, Structural)]
pub enum ArithmeticError {
    /// The exact result, or the product on the way to it, does not fit the
    /// integer type (a zero divisor included).
    Overflow,
}

impl ArithmeticError {
    /// The kind of failure.
    pub open spec fn kind_value(self) -> ErrorKind {
        ErrorKind::Arithmetic
    }

    /// The kind of failure.
    pub fn kind(&self) -> (r: ErrorKind)
        ensures
            r == self.kind_value(),
    {
        ErrorKind::Arithmetic
    }
}

/// `floor(a * b / c)` for a positive divisor; for a negative one the quotient
/// of Euclidean division.
pub open spec fn mul_div_value(a: int, b: int, c: int) -> int {
    (a * b) / c
}

/// The inputs on which [`mul_div`] succeeds: a non-zero divisor, a product
/// that fits 128 signed bits, and a quotient that fits them too.
pub open spec fn mul_div_fits(a: int, b: int, c: int) -> bool {
    &&& c != 0
    &&& i128::MIN <= a * b <= i128::MAX
    &&& i128::MIN <= mul_div_value(a, b, c) <= i128::MAX
}

/// Checked `a * b / c`: the product is formed first, then divided, rounding
/// toward negative infinity for a positive divisor.
pub fn mul_div(a: i128, b: i128, c: i128) -> (r: Result<i128, ArithmeticError>)
    ensures
        r is Ok <==> mul_div_fits(a as int, b as int, c as int),
        r is Ok ==> r->Ok_0 == mul_div_value(a as int, b as int, c as int),
        r is Err ==> r == Err::<i128, ArithmeticError>(ArithmeticError::Overflow),
{
    match a.checked_mul(b) {
        None => Err(ArithmeticError::Overflow),
        Some(product) => match product.checked_div_euclid(c) {
            None => Err(ArithmeticError::Overflow),
            Some(quotient) => Ok(quotient),
        },
    }
}

/// `floor(amount * part / whole)` over the naturals.
pub open spec fn prorate_value(amount: nat, part: nat, whole: nat) -> nat {
    (amount * part) / whole
}

/// Dividing a sum of a multiple of `d` and a rest splits into the multiple's
/// factor and the rest's quotient.
pub proof fn lemma_split_quotient(q: int, r: int, p: int, d: int)
    requires
        d > 0,
    ensures
        ((q * d + r) * p) / d == q * p + (r * p) / d,
{
    assert((q * d + r) * p == r * p + (q * p) * d) by (nonlinear_arith);
    lemma_hoist_over_denominator(r * p, q * p, d as nat);
}

/// A share of an amount is no more than the amount.
pub proof fn lemma_prorate_bounded(amount: nat, part: nat, whole: nat)
    requires
        whole > 0,
        part <= whole,
    ensures
        prorate_value(amount, part, whole) <= amount,
{
    assert(amount * part <= amount * whole) by (nonlinear_arith)
        requires
            part <= whole,
    ;
    lemma_div_is_ordered((amount * part) as int, (amount * whole) as int, whole as int);
    lemma_div_multiples_vanish(amount as int, whole as int);
    assert(amount * whole == whole * amount) by (nonlinear_arith);
}

/// A larger part gives a share that is no smaller.
pub proof fn lemma_prorate_monotone(amount: nat, part1: nat, part2: nat, whole: nat)
    requires
        whole > 0,
        part1 <= part2,
    ensures
        prorate_value(amount, part1, whole) <= prorate_value(amount, part2, whole),
{
    assert(amount * part1 <= amount * part2) by (nonlinear_arith)
        requires
            part1 <= part2,
    ;
    lemma_div_is_ordered((amount * part1) as int, (amount * part2) as int, whole as int);
}

/// Exact `floor(amount * part / whole)` without a wide intermediate: the
/// amount is split into whole multiples of `whole` and a rest, so that the
/// only product taken of two unbounded factors is the result's own leading
/// term. `None` exactly when `whole` is zero or the result does not fit.
pub fn prorate(amount: u128, part: u64, whole: u64) -> (r: Option<u128>)
    ensures
        r is Some <==> whole != 0 && prorate_value(amount as nat, part as nat, whole as nat)
            <= u128::MAX,
        r is Some ==> r->Some_0 == prorate_value(amount as nat, part as nat, whole as nat),
{
    if whole == 0 {
        return None;
    }
    let w: u128 = whole as u128;
    let p: u128 = part as u128;
    let q: u128 = amount / w;
    let rest: u128 = amount % w;
    proof {
        lemma_fundamental_div_mod(amount as int, w as int);
        assert(amount == q * w + rest) by (nonlinear_arith)
            requires
                amount == w * q + rest,
        ;
        lemma_split_quotient(q as int, rest as int, p as int, w as int);
        assert(rest * p <= 0xffff_ffff_ffff_ffff * 0xffff_ffff_ffff_ffff) by (nonlinear_arith)
            requires
                0 <= rest <= 0xffff_ffff_ffff_ffff,
                0 <= p <= 0xffff_ffff_ffff_ffff,
        ;
    }
    let tail: u128 = (rest * p) / w;
    match q.checked_mul(p) {
        None => None,
        Some(head) => head.checked_add(tail),
    }
}

} // verus!
