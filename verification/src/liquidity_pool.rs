//! The staking pool: pro-rata rewards through a reward-per-share accumulator.
//!
//! The pool emits rewards at a fixed rate while anything is staked. Rather
//! than crediting every depositor on every tick, it keeps one accumulator of
//! the reward earned per staked unit, scaled by [`PRECISION`], and brings it up
//! to date at the start of every call that touches the pool. A position
//! remembers how much of the accumulator it has already been paid for; what it
//! is owed is the difference.

use crate::address::Address;
use crate::error_kind::ErrorKind;
use crate::math::{mul_div, mul_div_fits, mul_div_value, PRECISION};
use vstd::arithmetic::div_mod::lemma_fundamental_div_mod;
use vstd::prelude::*;

verus! {

/// Why an operation on the pool was refused.
#[derive(Copy, Clone, Debug, Eq, PartialEq, Structural)]
pub enum PoolError {
    AlreadyInitialized,
    NotInitialized,
    Paused,
    InvalidAmount,
    InsufficientStake,
    InsufficientBalance,
    ArithmeticOverflow,
}

impl PoolError {
    /// The kind of failure.
    pub open spec fn kind_value(self) -> ErrorKind {
        match self {
            PoolError::AlreadyInitialized => ErrorKind::State,
            PoolError::NotInitialized => ErrorKind::State,
            PoolError::Paused => ErrorKind::State,
            PoolError::InvalidAmount => ErrorKind::Validation,
            PoolError::InsufficientStake => ErrorKind::Resource,
            PoolError::InsufficientBalance => ErrorKind::Resource,
            PoolError::ArithmeticOverflow => ErrorKind::Arithmetic,
        }
    }

    /// The kind of failure.
    pub fn kind(&self) -> (r: ErrorKind)
        ensures
            r == self.kind_value(),
    {
        match self {
            PoolError::AlreadyInitialized => ErrorKind::State,
            PoolError::NotInitialized => ErrorKind::State,
            PoolError::Paused => ErrorKind::State,
            PoolError::InvalidAmount => ErrorKind::Validation,
            PoolError::InsufficientStake => ErrorKind::Resource,
            PoolError::InsufficientBalance => ErrorKind::Resource,
            PoolError::ArithmeticOverflow => ErrorKind::Arithmetic,
        }
    }
}

/// The pool-wide figures.
#[derive(Copy, Clone, Debug, Eq, PartialEq, Structural)]
pub struct PoolInfo {
    /// The sum of all positions' stakes.
    pub total_staked: i128,
    /// Reward earned per staked unit since the pool began, scaled by
    /// [`PRECISION`].
    pub acc_reward_per_share: i128,
    /// The time up to which the accumulator is current.
    pub last_reward_time: u64,
    /// Reward units emitted per unit of time.
    pub reward_rate: i128,
}

/// One depositor's position.
#[derive(Copy, Clone, Debug, Eq, PartialEq, Structural)]
pub struct UserInfo {
    /// What the depositor has staked.
    pub amount: i128,
    /// The part of `amount * acc_reward_per_share / PRECISION` that was
    /// settled when the position was last touched.
    pub reward_debt: i128,
}

impl PoolInfo {
    /// Figures that a pool may have: nothing negative.
    pub open spec fn wf(self) -> bool {
        self.total_staked >= 0 && self.acc_reward_per_share >= 0 && self.reward_rate >= 0
    }

    /// Whether bringing the pool up to `now` changes the accumulator: time has
    /// passed and something is staked.
    pub open spec fn accrues(self, now: int) -> bool {
        now > self.last_reward_time && self.total_staked != 0
    }

    /// The reward emitted between the last accrual and `now`. An interval in
    /// which nothing is staked emits nothing: its rewards are foregone.
    pub open spec fn emitted(self, now: int) -> int {
        if self.accrues(now) {
            (now - self.last_reward_time) * self.reward_rate
        } else {
            0
        }
    }

    /// By how much the accumulator grows when the pool is brought up to
    /// `now`: the emitted reward per staked unit, scaled and rounded down.
    pub open spec fn increment(self, now: int) -> int {
        if self.accrues(now) {
            mul_div_value(self.emitted(now), PRECISION as int, self.total_staked as int)
        } else {
            0
        }
    }

    /// Whether every step of bringing the pool up to `now` fits the integer
    /// type.
    pub open spec fn accrual_fits(self, now: int) -> bool {
        self.accrues(now) ==> {
            &&& i128::MIN <= self.emitted(now) <= i128::MAX
            &&& mul_div_fits(self.emitted(now), PRECISION as int, self.total_staked as int)
            &&& i128::MIN <= self.acc_reward_per_share + self.increment(now) <= i128::MAX
        }
    }

    /// The pool brought up to `now`: the accumulator grown by the increment,
    /// and the accrual time advanced, never set back.
    pub open spec fn accrued(self, now: u64) -> PoolInfo {
        PoolInfo {
            total_staked: self.total_staked,
            acc_reward_per_share: (self.acc_reward_per_share + self.increment(now as int)) as i128,
            last_reward_time: if now > self.last_reward_time {
                now
            } else {
                self.last_reward_time
            },
            reward_rate: self.reward_rate,
        }
    }

    /// What bringing the pool up to `now` returns.
    pub open spec fn accrue_outcome(self, now: u64) -> Result<PoolInfo, PoolError> {
        if self.accrual_fits(now as int) {
            Ok(self.accrued(now))
        } else {
            Err(PoolError::ArithmeticOverflow)
        }
    }

    /// The figures brought up to `now`, the pool itself left as it is.
    pub fn accrue(&self, now: u64) -> (r: Result<PoolInfo, PoolError>)
        ensures
            r == self.accrue_outcome(now),
    {
        if now <= self.last_reward_time {
            return Ok(*self);
        }
        if self.total_staked == 0 {
            return Ok(
                PoolInfo {
                    total_staked: self.total_staked,
                    acc_reward_per_share: self.acc_reward_per_share,
                    last_reward_time: now,
                    reward_rate: self.reward_rate,
                },
            );
        }
        let time_elapsed: i128 = (now - self.last_reward_time) as i128;
        let rewards = match time_elapsed.checked_mul(self.reward_rate) {
            None => {
                return Err(PoolError::ArithmeticOverflow);
            },
            Some(rewards) => rewards,
        };
        let increment = match mul_div(rewards, PRECISION, self.total_staked) {
            Err(_) => {
                return Err(PoolError::ArithmeticOverflow);
            },
            Ok(increment) => increment,
        };
        match self.acc_reward_per_share.checked_add(increment) {
            None => Err(PoolError::ArithmeticOverflow),
            Some(acc) => Ok(
                PoolInfo {
                    total_staked: self.total_staked,
                    acc_reward_per_share: acc,
                    last_reward_time: now,
                    reward_rate: self.reward_rate,
                },
            ),
        }
    }
}

impl UserInfo {
    /// The position of someone who has staked nothing.
    pub open spec fn empty() -> UserInfo {
        UserInfo { amount: 0, reward_debt: 0 }
    }

    /// The position's whole claim on the accumulator, rounded down to reward
    /// units.
    pub open spec fn entitlement(self, acc: int) -> int {
        mul_div_value(self.amount as int, acc, PRECISION as int)
    }

    /// What the position is owed at an accumulator value: its entitlement
    /// less what was settled before.
    pub open spec fn pending(self, acc: int) -> int {
        self.entitlement(acc) - self.reward_debt
    }

    /// Whether computing what the position is owed fits the integer type.
    pub open spec fn pending_fits(self, acc: int) -> bool {
        &&& mul_div_fits(self.amount as int, acc, PRECISION as int)
        &&& i128::MIN <= self.pending(acc) <= i128::MAX
    }

    /// A position that the pool may hold at an accumulator value: nothing
    /// negative, and no more settled than the position is entitled to.
    pub open spec fn wf(self, acc: int) -> bool {
        &&& self.amount >= 0
        &&& self.reward_debt >= 0
        &&& self.reward_debt * PRECISION <= self.amount * acc
    }

    /// The position of a stake of `amount` that is settled at an accumulator
    /// value: everything up to that value counts as paid for.
    pub open spec fn settled(amount: int, acc: int) -> UserInfo {
        UserInfo {
            amount: amount as i128,
            reward_debt: mul_div_value(amount, acc, PRECISION as int) as i128,
        }
    }

    /// What computing the owed reward returns.
    pub open spec fn pending_outcome(self, acc: i128) -> Result<i128, PoolError> {
        if self.pending_fits(acc as int) {
            Ok(self.pending(acc as int) as i128)
        } else {
            Err(PoolError::ArithmeticOverflow)
        }
    }

    /// What the position is owed at an accumulator value.
    pub fn pending_reward(&self, acc: i128) -> (r: Result<i128, PoolError>)
        ensures
            r == self.pending_outcome(acc),
    {
        let entitlement = match mul_div(self.amount, acc, PRECISION) {
            Err(_) => {
                return Err(PoolError::ArithmeticOverflow);
            },
            Ok(entitlement) => entitlement,
        };
        match entitlement.checked_sub(self.reward_debt) {
            None => Err(PoolError::ArithmeticOverflow),
            Some(pending) => Ok(pending),
        }
    }
}

/// What a deposit or a withdrawal comes to: the pool's figures and the
/// position after it, and the reward to pay out to the depositor.
#[derive(Copy, Clone, Debug, Eq, PartialEq, Structural)]
pub struct Settlement {
    pub pool: PoolInfo,
    pub position: UserInfo,
    pub reward: i128,
}

/// The reward that is paid for an owed amount: the amount itself, and nothing
/// where nothing is owed.
pub open spec fn payable(pending: i128) -> i128 {
    if pending > 0 {
        pending
    } else {
        0
    }
}

impl PoolInfo {
    /// What a view of a position's owed reward at `now` returns: the accrual
    /// replayed on a copy of the figures, and the position's due at the
    /// accumulator that results.
    pub open spec fn pending_outcome(self, position: UserInfo, now: u64) -> Result<
        i128,
        PoolError,
    > {
        match self.accrue_outcome(now) {
            Err(e) => Err(e),
            Ok(pool) => position.pending_outcome(pool.acc_reward_per_share),
        }
    }

    /// What a position is owed at `now`, the pool left as it is.
    pub fn pending_rewards(&self, position: &UserInfo, now: u64) -> (r: Result<i128, PoolError>)
        ensures
            r == self.pending_outcome(*position, now),
    {
        match self.accrue(now) {
            Err(e) => Err(e),
            Ok(pool) => position.pending_reward(pool.acc_reward_per_share),
        }
    }

    /// What a deposit of `amount` into a position at `now` comes to. The pool
    /// is brought up to date first; the reward owed under the old stake is
    /// paid from `reward_balance` before the stake grows; then the position
    /// is settled at its new stake. Refused, in this order: an amount that is
    /// not positive, an accrual that overflows, an owed reward that overflows
    /// or exceeds the balance, a new stake or total that overflows.
    pub open spec fn deposit_outcome(
        self,
        position: UserInfo,
        amount: i128,
        now: u64,
        reward_balance: i128,
    ) -> Result<Settlement, PoolError> {
        if amount <= 0 {
            Err(PoolError::InvalidAmount)
        } else {
            match self.accrue_outcome(now) {
                Err(e) => Err(e),
                Ok(pool) => match position.pending_outcome(pool.acc_reward_per_share) {
                    Err(e) => Err(e),
                    Ok(pending) => if payable(pending) > reward_balance {
                        Err(PoolError::InsufficientBalance)
                    } else if position.amount + amount > i128::MAX || pool.total_staked + amount
                        > i128::MAX || !mul_div_fits(
                        position.amount + amount,
                        pool.acc_reward_per_share as int,
                        PRECISION as int,
                    ) {
                        Err(PoolError::ArithmeticOverflow)
                    } else {
                        Ok(
                            Settlement {
                                pool: PoolInfo {
                                    total_staked: (pool.total_staked + amount) as i128,
                                    ..pool
                                },
                                position: UserInfo::settled(
                                    position.amount + amount,
                                    pool.acc_reward_per_share as int,
                                ),
                                reward: payable(pending),
                            },
                        )
                    },
                },
            }
        }
    }

    /// A deposit of `amount` into a position at `now`; neither the pool nor
    /// the position is changed, the result holds what they become.
    pub fn deposit(&self, position: &UserInfo, amount: i128, now: u64, reward_balance: i128) -> (r:
        Result<Settlement, PoolError>)
        ensures
            r == self.deposit_outcome(*position, amount, now, reward_balance),
    {
        if amount <= 0 {
            return Err(PoolError::InvalidAmount);
        }
        let pool = match self.accrue(now) {
            Err(e) => {
                return Err(e);
            },
            Ok(pool) => pool,
        };
        let pending = match position.pending_reward(pool.acc_reward_per_share) {
            Err(e) => {
                return Err(e);
            },
            Ok(pending) => pending,
        };
        let reward: i128 = if pending > 0 {
            pending
        } else {
            0
        };
        if reward > reward_balance {
            return Err(PoolError::InsufficientBalance);
        }
        let staked = match position.amount.checked_add(amount) {
            None => {
                return Err(PoolError::ArithmeticOverflow);
            },
            Some(staked) => staked,
        };
        let total_staked = match pool.total_staked.checked_add(amount) {
            None => {
                return Err(PoolError::ArithmeticOverflow);
            },
            Some(total_staked) => total_staked,
        };
        let reward_debt = match mul_div(staked, pool.acc_reward_per_share, PRECISION) {
            Err(_) => {
                return Err(PoolError::ArithmeticOverflow);
            },
            Ok(reward_debt) => reward_debt,
        };
        Ok(
            Settlement {
                pool: PoolInfo {
                    total_staked,
                    acc_reward_per_share: pool.acc_reward_per_share,
                    last_reward_time: pool.last_reward_time,
                    reward_rate: pool.reward_rate,
                },
                position: UserInfo { amount: staked, reward_debt },
                reward,
            },
        )
    }

    /// What a withdrawal of `amount` from a position at `now` comes to. The
    /// pool is brought up to date first; the reward owed under the old stake
    /// is paid from `reward_balance`; then the position is settled at its
    /// smaller stake. Refused, in this order: an amount that is not positive,
    /// an accrual that overflows, a stake smaller than the amount, an owed
    /// reward that overflows or exceeds the balance, a new total or settled
    /// reward that overflows.
    pub open spec fn withdraw_outcome(
        self,
        position: UserInfo,
        amount: i128,
        now: u64,
        reward_balance: i128,
    ) -> Result<Settlement, PoolError> {
        if amount <= 0 {
            Err(PoolError::InvalidAmount)
        } else {
            match self.accrue_outcome(now) {
                Err(e) => Err(e),
                Ok(pool) => if position.amount < amount {
                    Err(PoolError::InsufficientStake)
                } else {
                    match position.pending_outcome(pool.acc_reward_per_share) {
                        Err(e) => Err(e),
                        Ok(pending) => if payable(pending) > reward_balance {
                            Err(PoolError::InsufficientBalance)
                        } else if pool.total_staked - amount < i128::MIN || !mul_div_fits(
                            position.amount - amount,
                            pool.acc_reward_per_share as int,
                            PRECISION as int,
                        ) {
                            Err(PoolError::ArithmeticOverflow)
                        } else {
                            Ok(
                                Settlement {
                                    pool: PoolInfo {
                                        total_staked: (pool.total_staked - amount) as i128,
                                        ..pool
                                    },
                                    position: UserInfo::settled(
                                        position.amount - amount,
                                        pool.acc_reward_per_share as int,
                                    ),
                                    reward: payable(pending),
                                },
                            )
                        },
                    }
                },
            }
        }
    }

    /// A withdrawal of `amount` from a position at `now`; neither the pool
    /// nor the position is changed, the result holds what they become.
    pub fn withdraw(&self, position: &UserInfo, amount: i128, now: u64, reward_balance: i128) -> (r:
        Result<Settlement, PoolError>)
        ensures
            r == self.withdraw_outcome(*position, amount, now, reward_balance),
    {
        if amount <= 0 {
            return Err(PoolError::InvalidAmount);
        }
        let pool = match self.accrue(now) {
            Err(e) => {
                return Err(e);
            },
            Ok(pool) => pool,
        };
        if position.amount < amount {
            return Err(PoolError::InsufficientStake);
        }
        let pending = match position.pending_reward(pool.acc_reward_per_share) {
            Err(e) => {
                return Err(e);
            },
            Ok(pending) => pending,
        };
        let reward: i128 = if pending > 0 {
            pending
        } else {
            0
        };
        if reward > reward_balance {
            return Err(PoolError::InsufficientBalance);
        }
        let staked: i128 = position.amount - amount;
        let total_staked = match pool.total_staked.checked_sub(amount) {
            None => {
                return Err(PoolError::ArithmeticOverflow);
            },
            Some(total_staked) => total_staked,
        };
        let reward_debt = match mul_div(staked, pool.acc_reward_per_share, PRECISION) {
            Err(_) => {
                return Err(PoolError::ArithmeticOverflow);
            },
            Ok(reward_debt) => reward_debt,
        };
        Ok(
            Settlement {
                pool: PoolInfo {
                    total_staked,
                    acc_reward_per_share: pool.acc_reward_per_share,
                    last_reward_time: pool.last_reward_time,
                    reward_rate: pool.reward_rate,
                },
                position: UserInfo { amount: staked, reward_debt },
                reward,
            },
        )
    }
}

/// Bringing a pool up to date never lowers the accumulator nor sets the
/// accrual time back, and leaves the stake and the rate as they were.
pub proof fn lemma_accrual_monotone(pool: PoolInfo, now: u64)
    requires
        pool.wf(),
        pool.accrual_fits(now as int),
    ensures
        pool.accrued(now).wf(),
        pool.accrued(now).acc_reward_per_share >= pool.acc_reward_per_share,
        pool.accrued(now).acc_reward_per_share == pool.acc_reward_per_share + pool.increment(
            now as int,
        ),
        pool.accrued(now).last_reward_time >= pool.last_reward_time,
        pool.accrued(now).last_reward_time >= now,
        pool.accrued(now).total_staked == pool.total_staked,
        pool.accrued(now).reward_rate == pool.reward_rate,
        pool.emitted(now as int) >= 0,
        pool.increment(now as int) >= 0,
        pool.increment(now as int) * pool.total_staked <= pool.emitted(now as int) * PRECISION,
{
    if pool.accrues(now as int) {
        lemma_fundamental_div_mod(pool.emitted(now as int) * PRECISION, pool.total_staked as int);
    }
}

/// A position that the pool may hold stays one when the accumulator grows,
/// and what it is owed is never negative.
pub proof fn lemma_position_survives_accrual(position: UserInfo, acc: int, later_acc: int)
    requires
        position.wf(acc),
        acc <= later_acc,
    ensures
        position.wf(later_acc),
        position.pending(later_acc) >= 0,
        position.entitlement(later_acc) >= 0,
{
    assert(position.amount * acc <= position.amount * later_acc) by (nonlinear_arith)
        requires
            position.amount >= 0,
            acc <= later_acc,
    ;
}

/// A depositor with their position.
#[derive(Copy, Clone, Debug, Eq, PartialEq, Structural)]
pub struct Staker {
    pub owner: Address,
    pub info: UserInfo,
}

/// The parties fixed when the pool is set up.
#[derive(Copy, Clone, Debug, Eq, PartialEq, Structural)]
pub struct PoolConfig {
    pub admin: Address,
    pub staking_token: Address,
    pub reward_token: Address,
}

/// The sum of a figure over all depositors.
pub open spec fn sum_over(stakers: Seq<Staker>, figure: spec_fn(Staker) -> int) -> int
    decreases stakers.len(),
{
    if stakers.len() == 0 {
        0
    } else {
        sum_over(stakers.drop_last(), figure) + figure(stakers.last())
    }
}

/// A depositor's stake.
pub open spec fn stake_figure() -> spec_fn(Staker) -> int {
    |staker: Staker| staker.info.amount as int
}

/// What a depositor is owed at an accumulator value, in reward units.
pub open spec fn pending_figure(acc: int) -> spec_fn(Staker) -> int {
    |staker: Staker| staker.info.pending(acc)
}

/// A depositor's unsettled claim on the accumulator, in scaled units: the
/// owed reward before it is rounded down.
pub open spec fn claim_figure(acc: int) -> spec_fn(Staker) -> int {
    |staker: Staker| staker.info.amount * acc - staker.info.reward_debt * PRECISION
}

/// The sum of all stakes.
pub open spec fn total_stake(stakers: Seq<Staker>) -> int {
    sum_over(stakers, stake_figure())
}

/// The sum of what all depositors are owed at an accumulator value.
pub open spec fn total_pending(stakers: Seq<Staker>, acc: int) -> int {
    sum_over(stakers, pending_figure(acc))
}

/// The sum of all depositors' unsettled claims, in scaled units.
pub open spec fn total_claim(stakers: Seq<Staker>, acc: int) -> int {
    sum_over(stakers, claim_figure(acc))
}

/// Adding a depositor adds their figure to the sum.
pub proof fn lemma_sum_push(stakers: Seq<Staker>, staker: Staker, figure: spec_fn(Staker) -> int)
    ensures
        sum_over(stakers.push(staker), figure) == sum_over(stakers, figure) + figure(staker),
{
    assert(stakers.push(staker).drop_last() =~= stakers);
}

/// Replacing a depositor's entry replaces their figure in the sum.
pub proof fn lemma_sum_update(
    stakers: Seq<Staker>,
    index: int,
    staker: Staker,
    figure: spec_fn(Staker) -> int,
)
    requires
        0 <= index < stakers.len(),
    ensures
        sum_over(stakers.update(index, staker), figure) == sum_over(stakers, figure) - figure(
            stakers[index],
        ) + figure(staker),
    decreases stakers.len(),
{
    let updated = stakers.update(index, staker);
    if index == stakers.len() - 1 {
        assert(updated.drop_last() =~= stakers.drop_last());
    } else {
        assert(updated.drop_last() =~= stakers.drop_last().update(index, staker));
        lemma_sum_update(stakers.drop_last(), index, staker, figure);
    }
}

/// A figure that is nowhere above another sums to no more.
pub proof fn lemma_sum_ordered(
    stakers: Seq<Staker>,
    lower: spec_fn(Staker) -> int,
    upper: spec_fn(Staker) -> int,
)
    requires
        forall|i: int| 0 <= i < stakers.len() ==> lower(#[trigger] stakers[i]) <= upper(stakers[i]),
    ensures
        sum_over(stakers, lower) <= sum_over(stakers, upper),
    decreases stakers.len(),
{
    if stakers.len() > 0 {
        let front = stakers.drop_last();
        lemma_sum_ordered(front, lower, upper);
    }
}

/// A figure that is everywhere another plus a multiple of a third sums to the
/// other's sum plus that multiple of the third's.
pub proof fn lemma_sum_linear(
    stakers: Seq<Staker>,
    whole: spec_fn(Staker) -> int,
    base: spec_fn(Staker) -> int,
    factor: int,
    unit: spec_fn(Staker) -> int,
)
    requires
        forall|i: int|
            0 <= i < stakers.len() ==> whole(#[trigger] stakers[i]) == base(stakers[i]) + factor
                * unit(stakers[i]),
    ensures
        sum_over(stakers, whole) == sum_over(stakers, base) + factor * sum_over(stakers, unit),
    decreases stakers.len(),
{
    if stakers.len() > 0 {
        let front = stakers.drop_last();
        lemma_sum_linear(front, whole, base, factor, unit);
        assert(factor * (sum_over(front, unit) + unit(stakers.last())) == factor * sum_over(
            front,
            unit,
        ) + factor * unit(stakers.last())) by (nonlinear_arith);
    }
}

/// Where no figure is negative, none is above the sum.
pub proof fn lemma_sum_bounds_each(
    stakers: Seq<Staker>,
    figure: spec_fn(Staker) -> int,
    index: int,
)
    requires
        forall|i: int| 0 <= i < stakers.len() ==> figure(#[trigger] stakers[i]) >= 0,
        0 <= index < stakers.len(),
    ensures
        0 <= figure(stakers[index]) <= sum_over(stakers, figure),
    decreases stakers.len(),
{
    let front = stakers.drop_last();
    lemma_sum_nonnegative(front, figure);
    if index < stakers.len() - 1 {
        lemma_sum_bounds_each(front, figure, index);
    }
}

/// Where no figure is negative, the sum is not.
pub proof fn lemma_sum_nonnegative(stakers: Seq<Staker>, figure: spec_fn(Staker) -> int)
    requires
        forall|i: int| 0 <= i < stakers.len() ==> figure(#[trigger] stakers[i]) >= 0,
    ensures
        sum_over(stakers, figure) >= 0,
    decreases stakers.len(),
{
    if stakers.len() > 0 {
        let front = stakers.drop_last();
        lemma_sum_nonnegative(front, figure);
    }
}

/// The pool as a mathematical value: the parties, once set, the pause flag,
/// the pool-wide figures, and the depositors in the order in which they
/// first deposited.
#[verifier::ext_equal]
pub struct PoolState {
    pub config: Option<PoolConfig>,
    pub paused: bool,
    pub pool: PoolInfo,
    pub stakers: Seq<Staker>,
}

impl PoolState {
    /// What holds of every pool: no depositor before it is set up, figures
    /// that are not negative, a total that is the sum of the stakes, positions
    /// that are settled for no more than they are entitled to, and one
    /// position for each depositor.
    pub open spec fn wf(self) -> bool {
        &&& self.config is None ==> self.stakers.len() == 0
        &&& self.pool.wf()
        &&& self.pool.total_staked == total_stake(self.stakers)
        &&& forall|i: int|
            0 <= i < self.stakers.len() ==> (#[trigger] self.stakers[i]).info.wf(
                self.pool.acc_reward_per_share as int,
            )
        &&& forall|i: int, j: int|
            #![trigger self.stakers[i], self.stakers[j]]
            0 <= i < j < self.stakers.len() ==> self.stakers[i].owner != self.stakers[j].owner
    }

    /// Whether the pool holds a position for `user`.
    pub open spec fn holds(self, user: Address) -> bool {
        exists|i: int| 0 <= i < self.stakers.len() && (#[trigger] self.stakers[i]).owner == user
    }

    /// Where the pool holds the position of `user`.
    pub open spec fn index_of(self, user: Address) -> int
        recommends
            self.holds(user),
    {
        choose|i: int| 0 <= i < self.stakers.len() && (#[trigger] self.stakers[i]).owner == user
    }

    /// The position of `user`; the empty position for someone who never
    /// deposited.
    pub open spec fn position(self, user: Address) -> UserInfo {
        if self.holds(user) {
            self.stakers[self.index_of(user)].info
        } else {
            UserInfo::empty()
        }
    }

    /// The depositors with the position of `user` set to `info`: replaced
    /// where the pool holds one, added at the end where it does not.
    pub open spec fn with_position(self, user: Address, info: UserInfo) -> Seq<Staker> {
        if self.holds(user) {
            self.stakers.update(self.index_of(user), Staker { owner: user, info })
        } else {
            self.stakers.push(Staker { owner: user, info })
        }
    }

    /// What setting up the pool returns: it succeeds once, with a rate that
    /// is not negative.
    pub open spec fn initialize_outcome(self, reward_rate: i128) -> Result<(), PoolError> {
        if self.config is Some {
            Err(PoolError::AlreadyInitialized)
        } else if reward_rate < 0 {
            Err(PoolError::InvalidAmount)
        } else {
            Ok(())
        }
    }

    /// The pool after an attempt to set it up at `now`.
    pub open spec fn after_initialize(self, config: PoolConfig, reward_rate: i128, now: u64)
        -> PoolState {
        if self.initialize_outcome(reward_rate) is Ok {
            PoolState {
                config: Some(config),
                paused: false,
                pool: PoolInfo {
                    total_staked: 0,
                    acc_reward_per_share: 0,
                    last_reward_time: now,
                    reward_rate,
                },
                stakers: self.stakers,
            }
        } else {
            self
        }
    }

    /// What bringing the pool up to `now` returns.
    pub open spec fn update_outcome(self, now: u64) -> Result<(), PoolError> {
        if self.config is None {
            Err(PoolError::NotInitialized)
        } else if self.pool.accrue_outcome(now) is Err {
            Err(PoolError::ArithmeticOverflow)
        } else {
            Ok(())
        }
    }

    /// The pool after an attempt to bring it up to `now`.
    pub open spec fn after_update(self, now: u64) -> PoolState {
        if self.update_outcome(now) is Ok {
            PoolState { pool: self.pool.accrued(now), ..self }
        } else {
            self
        }
    }

    /// What a view of the reward owed to `user` at `now` returns.
    pub open spec fn pending_outcome(self, user: Address, now: u64) -> Result<i128, PoolError> {
        if self.config is None {
            Err(PoolError::NotInitialized)
        } else {
            self.pool.pending_outcome(self.position(user), now)
        }
    }

    /// What a deposit comes to for the pool and the position of `user`.
    pub open spec fn deposit_settlement(
        self,
        user: Address,
        amount: i128,
        now: u64,
        reward_balance: i128,
    ) -> Result<Settlement, PoolError> {
        if self.config is None {
            Err(PoolError::NotInitialized)
        } else if self.paused {
            Err(PoolError::Paused)
        } else {
            self.pool.deposit_outcome(self.position(user), amount, now, reward_balance)
        }
    }

    /// What a deposit returns: the reward paid out, or the reason for
    /// refusing.
    pub open spec fn deposit_outcome(
        self,
        user: Address,
        amount: i128,
        now: u64,
        reward_balance: i128,
    ) -> Result<i128, PoolError> {
        match self.deposit_settlement(user, amount, now, reward_balance) {
            Ok(settlement) => Ok(settlement.reward),
            Err(e) => Err(e),
        }
    }

    /// The pool after a deposit: brought up to date and with the position
    /// settled at its new stake where the deposit succeeded, unchanged where
    /// it did not.
    pub open spec fn after_deposit(
        self,
        user: Address,
        amount: i128,
        now: u64,
        reward_balance: i128,
    ) -> PoolState {
        match self.deposit_settlement(user, amount, now, reward_balance) {
            Ok(settlement) => PoolState {
                pool: settlement.pool,
                stakers: self.with_position(user, settlement.position),
                ..self
            },
            Err(_) => self,
        }
    }

    /// What a withdrawal comes to for the pool and the position of `user`.
    pub open spec fn withdraw_settlement(
        self,
        user: Address,
        amount: i128,
        now: u64,
        reward_balance: i128,
    ) -> Result<Settlement, PoolError> {
        if self.config is None {
            Err(PoolError::NotInitialized)
        } else if self.paused {
            Err(PoolError::Paused)
        } else {
            self.pool.withdraw_outcome(self.position(user), amount, now, reward_balance)
        }
    }

    /// What a withdrawal returns: the reward paid out, or the reason for
    /// refusing.
    pub open spec fn withdraw_outcome(
        self,
        user: Address,
        amount: i128,
        now: u64,
        reward_balance: i128,
    ) -> Result<i128, PoolError> {
        match self.withdraw_settlement(user, amount, now, reward_balance) {
            Ok(settlement) => Ok(settlement.reward),
            Err(e) => Err(e),
        }
    }

    /// The pool after a withdrawal: brought up to date and with the position
    /// settled at its new stake where the withdrawal succeeded, unchanged
    /// where it did not.
    pub open spec fn after_withdraw(
        self,
        user: Address,
        amount: i128,
        now: u64,
        reward_balance: i128,
    ) -> PoolState {
        match self.withdraw_settlement(user, amount, now, reward_balance) {
            Ok(settlement) => PoolState {
                pool: settlement.pool,
                stakers: self.with_position(user, settlement.position),
                ..self
            },
            Err(_) => self,
        }
    }
}

/// In a well-formed pool every position, an empty one included, is one that
/// the pool may hold, and stakes no more than the pool's total.
pub proof fn lemma_position_wf(state: PoolState, user: Address)
    requires
        state.wf(),
    ensures
        state.position(user).wf(state.pool.acc_reward_per_share as int),
        state.position(user).amount <= state.pool.total_staked,
{
    if state.holds(user) {
        let index = state.index_of(user);
        lemma_sum_bounds_each(state.stakers, stake_figure(), index);
    }
}

/// Setting one position of a well-formed pool, with the pool's figures moved
/// on to match, gives a well-formed pool.
pub proof fn lemma_with_position_keeps_wf(
    state: PoolState,
    user: Address,
    info: UserInfo,
    pool: PoolInfo,
)
    requires
        state.wf(),
        state.config is Some,
        pool.wf(),
        pool.acc_reward_per_share >= state.pool.acc_reward_per_share,
        info.wf(pool.acc_reward_per_share as int),
        pool.total_staked == state.pool.total_staked - state.position(user).amount + info.amount,
    ensures
        (PoolState { pool, stakers: state.with_position(user, info), ..state }).wf(),
{
    let after = PoolState { pool, stakers: state.with_position(user, info), ..state };
    let entry = Staker { owner: user, info };
    if state.holds(user) {
        let index = state.index_of(user);
        lemma_sum_update(state.stakers, index, entry, stake_figure());
    } else {
        lemma_sum_push(state.stakers, entry, stake_figure());
    }
    assert forall|i: int| 0 <= i < after.stakers.len() implies (#[trigger] after.stakers[i]).info.wf(
        pool.acc_reward_per_share as int,
    ) by {
        if i < state.stakers.len() && after.stakers[i] == state.stakers[i] {
            lemma_position_survives_accrual(
                state.stakers[i].info,
                state.pool.acc_reward_per_share as int,
                pool.acc_reward_per_share as int,
            );
        }
    }
}

/// A settlement of a well-formed pool's position is itself well-formed: the
/// figures are not negative, the accumulator and the accrual time have not
/// gone back, the position is owed nothing more at the new accumulator, and
/// the total has moved by what the stake has.
pub proof fn lemma_settlement_sound(
    pool: PoolInfo,
    position: UserInfo,
    amount: i128,
    now: u64,
    reward_balance: i128,
)
    requires
        pool.wf(),
        position.wf(pool.acc_reward_per_share as int),
        position.amount <= pool.total_staked,
    ensures
        pool.deposit_outcome(position, amount, now, reward_balance) matches Ok(settled) ==> {
            &&& settled.pool.wf()
            &&& settled.pool == (PoolInfo {
                total_staked: (pool.total_staked + amount) as i128,
                ..pool.accrued(now)
            })
            &&& settled.pool.acc_reward_per_share >= pool.acc_reward_per_share
            &&& settled.pool.last_reward_time >= pool.last_reward_time
            &&& settled.position.wf(settled.pool.acc_reward_per_share as int)
            &&& settled.position.amount == position.amount + amount
            &&& settled.position.pending(settled.pool.acc_reward_per_share as int) == 0
            &&& settled.reward == position.pending(settled.pool.acc_reward_per_share as int)
            &&& 0 <= settled.reward <= reward_balance
        },
        pool.withdraw_outcome(position, amount, now, reward_balance) matches Ok(settled) ==> {
            &&& settled.pool.wf()
            &&& settled.pool == (PoolInfo {
                total_staked: (pool.total_staked - amount) as i128,
                ..pool.accrued(now)
            })
            &&& settled.pool.acc_reward_per_share >= pool.acc_reward_per_share
            &&& settled.pool.last_reward_time >= pool.last_reward_time
            &&& settled.position.wf(settled.pool.acc_reward_per_share as int)
            &&& settled.position.amount == position.amount - amount
            &&& settled.position.pending(settled.pool.acc_reward_per_share as int) == 0
            &&& settled.reward == position.pending(settled.pool.acc_reward_per_share as int)
            &&& 0 <= settled.reward <= reward_balance
        },
{
    if pool.accrual_fits(now as int) {
        lemma_position_survives_accrual(
            position,
            pool.acc_reward_per_share as int,
            pool.accrued(now).acc_reward_per_share as int,
        );
    }
}

/// Bringing a well-formed pool up to date leaves it well-formed.
pub proof fn lemma_accrual_keeps_wf(state: PoolState, now: u64)
    requires
        state.wf(),
    ensures
        state.after_update(now).wf(),
{
    if state.update_outcome(now) is Ok {
        let after = state.after_update(now);
        assert forall|i: int| 0 <= i < after.stakers.len() implies (
        #[trigger] after.stakers[i]).info.wf(after.pool.acc_reward_per_share as int) by {
            lemma_position_survives_accrual(
                state.stakers[i].info,
                state.pool.acc_reward_per_share as int,
                after.pool.acc_reward_per_share as int,
            );
        }
    }
}

/// Deposits, withdrawals and accruals leave a well-formed pool well-formed.
pub proof fn lemma_operations_keep_wf(
    state: PoolState,
    user: Address,
    amount: i128,
    now: u64,
    reward_balance: i128,
)
    requires
        state.wf(),
    ensures
        state.after_update(now).wf(),
        state.after_deposit(user, amount, now, reward_balance).wf(),
        state.after_withdraw(user, amount, now, reward_balance).wf(),
{
    lemma_position_wf(state, user);
    lemma_accrual_keeps_wf(state, now);
    match state.deposit_settlement(user, amount, now, reward_balance) {
        Ok(settled) => {
            lemma_with_position_keeps_wf(state, user, settled.position, settled.pool);
        },
        Err(_) => {},
    }
    match state.withdraw_settlement(user, amount, now, reward_balance) {
        Ok(settled) => {
            lemma_with_position_keeps_wf(state, user, settled.position, settled.pool);
        },
        Err(_) => {},
    }
}

/// The staking pool: its parties, its pause flag, its figures and every
/// depositor's position.
pub struct LiquidityPool {
    config: Option<PoolConfig>,
    paused: bool,
    pool: PoolInfo,
    stakers: Vec<Staker>,
}

impl View for LiquidityPool {
    type V = PoolState;

    closed spec fn view(&self) -> PoolState {
        PoolState {
            config: self.config,
            paused: self.paused,
            pool: self.pool,
            stakers: self.stakers@,
        }
    }
}

impl LiquidityPool {
    /// A pool on which nothing has been set up yet.
    pub fn new() -> (r: LiquidityPool)
        ensures
            r@.wf(),
            r@ == (PoolState {
                config: None,
                paused: false,
                pool: PoolInfo {
                    total_staked: 0,
                    acc_reward_per_share: 0,
                    last_reward_time: 0,
                    reward_rate: 0,
                },
                stakers: Seq::empty(),
            }),
    {
        let r = LiquidityPool {
            config: None,
            paused: false,
            pool: PoolInfo {
                total_staked: 0,
                acc_reward_per_share: 0,
                last_reward_time: 0,
                reward_rate: 0,
            },
            stakers: Vec::new(),
        };
        r
    }

    /// Fixes the parties and the reward rate, and starts accrual at `now`. A
    /// pool is set up once, and its rate is not negative: rewards are never
    /// taken back. A refused call changes nothing.
    pub fn initialize(
        &mut self,
        admin: Address,
        staking_token: Address,
        reward_token: Address,
        reward_rate: i128,
        now: u64,
    ) -> (r: Result<(), PoolError>)
        requires
            old(self)@.wf(),
        ensures
            final(self)@.wf(),
            r == old(self)@.initialize_outcome(reward_rate),
            final(self)@ == old(self)@.after_initialize(
                PoolConfig { admin, staking_token, reward_token },
                reward_rate,
                now,
            ),
    {
        if self.config.is_some() {
            return Err(PoolError::AlreadyInitialized);
        }
        if reward_rate < 0 {
            return Err(PoolError::InvalidAmount);
        }
        self.config = Some(PoolConfig { admin, staking_token, reward_token });
        self.paused = false;
        self.pool =
        PoolInfo { total_staked: 0, acc_reward_per_share: 0, last_reward_time: now, reward_rate };
        Ok(())
    }

    /// The parties fixed when the pool was set up.
    pub fn get_config(&self) -> (r: Option<PoolConfig>)
        ensures
            r == self@.config,
    {
        self.config
    }

    /// The pool-wide figures, as of the last accrual.
    pub fn get_pool_info(&self) -> (r: Result<PoolInfo, PoolError>)
        ensures
            r == if self@.config is Some {
                Ok::<PoolInfo, PoolError>(self@.pool)
            } else {
                Err(PoolError::NotInitialized)
            },
    {
        if self.config.is_none() {
            return Err(PoolError::NotInitialized);
        }
        Ok(self.pool)
    }

    /// Where the pool holds the position of `user`, if it holds one.
    fn find(&self, user: Address) -> (r: Option<usize>)
        requires
            self@.wf(),
        ensures
            r is Some <==> self@.holds(user),
            r is Some ==> r->Some_0 == self@.index_of(user) && r->Some_0 < self.stakers.len(),
    {
        let mut i: usize = 0;
        while i < self.stakers.len()
            invariant
                i <= self.stakers.len(),
                self@.wf(),
                forall|k: int| 0 <= k < i ==> (#[trigger] self.stakers@[k]).owner != user,
            decreases self.stakers.len() - i,
        {
            if self.stakers[i].owner == user {
                return Some(i);
            }
            i += 1;
        }
        None
    }

    /// The position of `user`; the empty position for someone who never
    /// deposited.
    pub fn get_user_info(&self, user: Address) -> (r: UserInfo)
        requires
            self@.wf(),
        ensures
            r == self@.position(user),
    {
        match self.find(user) {
            Some(index) => self.stakers[index].info,
            None => UserInfo { amount: 0, reward_debt: 0 },
        }
    }

    /// Sets the position of `user`.
    fn set_user_info(&mut self, user: Address, info: UserInfo)
        requires
            old(self)@.wf(),
        ensures
            final(self)@ == (PoolState {
                stakers: old(self)@.with_position(user, info),
                ..old(self)@
            }),
    {
        let entry = Staker { owner: user, info };
        match self.find(user) {
            Some(index) => {
                self.stakers.set(index, entry);
            },
            None => {
                self.stakers.push(entry);
            },
        }
    }

    /// Whether deposits and withdrawals are suspended.
    pub fn is_paused(&self) -> (r: bool)
        ensures
            r == self@.paused,
    {
        self.paused
    }

    /// Suspends or resumes deposits and withdrawals. Refused before the pool
    /// is set up.
    pub fn set_pause(&mut self, paused: bool) -> (r: Result<(), PoolError>)
        requires
            old(self)@.wf(),
        ensures
            final(self)@.wf(),
            r is Ok <==> old(self)@.config is Some,
            r is Err ==> r == Err::<(), PoolError>(PoolError::NotInitialized) && final(self)@
                == old(self)@,
            r is Ok ==> final(self)@ == (PoolState { paused, ..old(self)@ }),
    {
        if self.config.is_none() {
            return Err(PoolError::NotInitialized);
        }
        self.paused = paused;
        Ok(())
    }

    /// Brings the accumulator up to `now`. Every deposit and withdrawal does
    /// this first; nothing accrues in between calls. A refused call changes
    /// nothing.
    pub fn update_pool(&mut self, now: u64) -> (r: Result<(), PoolError>)
        requires
            old(self)@.wf(),
        ensures
            final(self)@.wf(),
            r == old(self)@.update_outcome(now),
            final(self)@ == old(self)@.after_update(now),
    {
        if self.config.is_none() {
            return Err(PoolError::NotInitialized);
        }
        proof {
            lemma_accrual_keeps_wf(self@, now);
        }
        match self.pool.accrue(now) {
            Err(e) => Err(e),
            Ok(pool) => {
                self.pool = pool;
                Ok(())
            },
        }
    }

    /// The reward owed to `user` at `now`, the pool left as it is: exactly
    /// what a deposit or withdrawal at the same time would pay out.
    pub fn get_pending_rewards(&self, user: Address, now: u64) -> (r: Result<i128, PoolError>)
        requires
            self@.wf(),
        ensures
            r == self@.pending_outcome(user, now),
    {
        if self.config.is_none() {
            return Err(PoolError::NotInitialized);
        }
        let position = self.get_user_info(user);
        self.pool.pending_rewards(&position, now)
    }

    /// Stakes `amount` for `user` at `now` and returns the reward to pay out
    /// to them, which is what they were owed under their old stake and is
    /// covered by `reward_balance`, the pool's holding of the reward token.
    /// The caller pulls `amount` of the staking token from the user and pays
    /// the reward. A refused deposit changes nothing.
    pub fn deposit(&mut self, user: Address, amount: i128, now: u64, reward_balance: i128) -> (r:
        Result<i128, PoolError>)
        requires
            old(self)@.wf(),
        ensures
            final(self)@.wf(),
            r == old(self)@.deposit_outcome(user, amount, now, reward_balance),
            final(self)@ == old(self)@.after_deposit(user, amount, now, reward_balance),
    {
        if self.config.is_none() {
            return Err(PoolError::NotInitialized);
        }
        if self.paused {
            return Err(PoolError::Paused);
        }
        proof {
            lemma_operations_keep_wf(self@, user, amount, now, reward_balance);
        }
        let position = self.get_user_info(user);
        match self.pool.deposit(&position, amount, now, reward_balance) {
            Err(e) => Err(e),
            Ok(settlement) => {
                self.set_user_info(user, settlement.position);
                self.pool = settlement.pool;
                Ok(settlement.reward)
            },
        }
    }

    /// Returns `amount` of the stake of `user` at `now`, and the reward to
    /// pay out to them, which is what they were owed under their old stake
    /// and is covered by `reward_balance`. The caller hands back `amount` of
    /// the staking token and pays the reward. A refused withdrawal changes
    /// nothing.
    pub fn withdraw(&mut self, user: Address, amount: i128, now: u64, reward_balance: i128) -> (r:
        Result<i128, PoolError>)
        requires
            old(self)@.wf(),
        ensures
            final(self)@.wf(),
            r == old(self)@.withdraw_outcome(user, amount, now, reward_balance),
            final(self)@ == old(self)@.after_withdraw(user, amount, now, reward_balance),
    {
        if self.config.is_none() {
            return Err(PoolError::NotInitialized);
        }
        if self.paused {
            return Err(PoolError::Paused);
        }
        proof {
            lemma_operations_keep_wf(self@, user, amount, now, reward_balance);
        }
        let position = self.get_user_info(user);
        match self.pool.withdraw(&position, amount, now, reward_balance) {
            Err(e) => Err(e),
            Ok(settlement) => {
                self.set_user_info(user, settlement.position);
                self.pool = settlement.pool;
                Ok(settlement.reward)
            },
        }
    }
}

/// A figure that is everywhere a multiple of another sums to that multiple of
/// the other's sum.
pub proof fn lemma_sum_scaled(
    stakers: Seq<Staker>,
    whole: spec_fn(Staker) -> int,
    factor: int,
    unit: spec_fn(Staker) -> int,
)
    requires
        forall|i: int|
            0 <= i < stakers.len() ==> whole(#[trigger] stakers[i]) == factor * unit(stakers[i]),
    ensures
        sum_over(stakers, whole) == factor * sum_over(stakers, unit),
    decreases stakers.len(),
{
    if stakers.len() > 0 {
        let front = stakers.drop_last();
        lemma_sum_scaled(front, whole, factor, unit);
        assert(factor * (sum_over(front, unit) + unit(stakers.last())) == factor * sum_over(
            front,
            unit,
        ) + factor * unit(stakers.last())) by (nonlinear_arith);
    }
}

/// What rounding a claim down to reward units leaves over, in scaled units.
pub open spec fn dust(amount: int, acc: int) -> int {
    (amount * acc) % (PRECISION as int)
}

impl PoolState {
    /// Whether `funding` reward units cover every depositor's unsettled
    /// claim, rounding dust included.
    pub open spec fn covered(self, funding: int) -> bool {
        total_claim(self.stakers, self.pool.acc_reward_per_share as int) <= funding * PRECISION
    }

    /// What all depositors together are owed at `now`: the sum of what a view
    /// of each position's pending reward returns.
    pub open spec fn total_owed(self, now: u64) -> int {
        total_pending(self.stakers, self.pool.accrued(now).acc_reward_per_share as int)
    }
}

/// What the depositors of a well-formed pool are owed together, as of the
/// last accrual, is no more than any funding that covers their claims.
pub proof fn lemma_pending_within_cover(state: PoolState, funding: int)
    requires
        state.wf(),
        state.covered(funding),
    ensures
        0 <= total_pending(state.stakers, state.pool.acc_reward_per_share as int) <= funding,
{
    let acc = state.pool.acc_reward_per_share as int;
    let scaled = |staker: Staker| PRECISION * pending_figure(acc)(staker);
    lemma_sum_scaled(state.stakers, scaled, PRECISION as int, pending_figure(acc));
    lemma_sum_ordered(state.stakers, scaled, claim_figure(acc));
    lemma_sum_nonnegative(state.stakers, pending_figure(acc));
}

/// Bringing a pool up to date raises the depositors' claims by no more than
/// the reward emitted in the interval: funding that covered the claims
/// before covers them after, once the emission is added to it.
pub proof fn lemma_accrual_within_emission(state: PoolState, now: u64, funding: int)
    requires
        state.wf(),
        state.covered(funding),
        state.update_outcome(now) is Ok,
    ensures
        state.after_update(now).wf(),
        state.after_update(now).covered(funding + state.pool.emitted(now as int)),
        state.pool.emitted(now as int) >= 0,
{
    let acc = state.pool.acc_reward_per_share as int;
    let after = state.after_update(now);
    let later_acc = after.pool.acc_reward_per_share as int;
    let increment = state.pool.increment(now as int);
    lemma_accrual_monotone(state.pool, now);
    assert forall|i: int| 0 <= i < state.stakers.len() implies claim_figure(later_acc)(
        #[trigger] state.stakers[i],
    ) == claim_figure(acc)(state.stakers[i]) + increment * stake_figure()(state.stakers[i]) by {
        let info = state.stakers[i].info;
        assert(info.amount * (acc + increment) == info.amount * acc + increment * info.amount)
            by (nonlinear_arith);
    }
    lemma_sum_linear(
        state.stakers,
        claim_figure(later_acc),
        claim_figure(acc),
        increment,
        stake_figure(),
    );
}

/// The sum of what all depositors are owed never exceeds the reward funding:
/// where funding covers the depositors' claims as of the last accrual, then
/// at every later time the depositors together are owed no more than that
/// funding and the reward emitted since.
pub proof fn lemma_owed_within_funding(state: PoolState, now: u64, funding: int)
    requires
        state.wf(),
        state.covered(funding),
        state.update_outcome(now) is Ok,
    ensures
        0 <= state.total_owed(now) <= funding + state.pool.emitted(now as int),
{
    lemma_accrual_within_emission(state, now, funding);
    lemma_pending_within_cover(state.after_update(now), funding + state.pool.emitted(now as int));
}

/// A pool that was just set up is covered without any funding.
pub proof fn lemma_fresh_pool_covered(state: PoolState, config: PoolConfig, reward_rate: i128, now: u64)
    requires
        state.wf(),
        state.initialize_outcome(reward_rate) is Ok,
    ensures
        state.after_initialize(config, reward_rate, now).wf(),
        state.after_initialize(config, reward_rate, now).covered(0),
{
}

/// Replacing the position of `user` changes the depositors' claims by the
/// difference between the new position's claim and the old one's.
pub proof fn lemma_claim_after_touch(state: PoolState, user: Address, info: UserInfo, acc: int)
    requires
        state.wf(),
    ensures
        total_claim(state.with_position(user, info), acc) == total_claim(state.stakers, acc) - (
        state.position(user).amount * acc - state.position(user).reward_debt * PRECISION) + (
        info.amount * acc - info.reward_debt * PRECISION),
{
    let entry = Staker { owner: user, info };
    if state.holds(user) {
        lemma_sum_update(state.stakers, state.index_of(user), entry, claim_figure(acc));
    } else {
        lemma_sum_push(state.stakers, entry, claim_figure(acc));
    }
}

/// The exact account of a deposit or withdrawal: the depositors' claims fall
/// by the reward paid out, and move by the rounding dust of the touched
/// position, which is less than one reward unit before and after.
pub proof fn lemma_settlement_accounting(
    state: PoolState,
    user: Address,
    settled: Settlement,
)
    requires
        state.wf(),
        state.config is Some,
        settled.pool.acc_reward_per_share >= state.pool.acc_reward_per_share,
        settled.position == UserInfo::settled(
            settled.position.amount as int,
            settled.pool.acc_reward_per_share as int,
        ),
        settled.position.amount >= 0,
        mul_div_fits(
            settled.position.amount as int,
            settled.pool.acc_reward_per_share as int,
            PRECISION as int,
        ),
        settled.reward == state.position(user).pending(settled.pool.acc_reward_per_share as int),
    ensures
        total_claim(
            state.with_position(user, settled.position),
            settled.pool.acc_reward_per_share as int,
        ) == total_claim(state.stakers, settled.pool.acc_reward_per_share as int) - settled.reward
            * PRECISION - dust(
            state.position(user).amount as int,
            settled.pool.acc_reward_per_share as int,
        ) + dust(settled.position.amount as int, settled.pool.acc_reward_per_share as int),
        0 <= dust(state.position(user).amount as int, settled.pool.acc_reward_per_share as int)
            < PRECISION,
        0 <= dust(settled.position.amount as int, settled.pool.acc_reward_per_share as int)
            < PRECISION,
{
    lemma_claim_after_touch(
        state,
        user,
        settled.position,
        settled.pool.acc_reward_per_share as int,
    );
}

/// A deposit or a withdrawal costs the funding the reward it pays and less
/// than one reward unit of rounding dust: where funding covered the
/// depositors' claims before, the funding with the emission added, the reward
/// taken away and one unit added covers them after.
pub proof fn lemma_touch_costs_under_one_unit(
    state: PoolState,
    user: Address,
    amount: i128,
    now: u64,
    reward_balance: i128,
    funding: int,
)
    requires
        state.wf(),
        state.covered(funding),
    ensures
        state.deposit_outcome(user, amount, now, reward_balance) matches Ok(paid)
            ==> state.after_deposit(user, amount, now, reward_balance).covered(
            funding + state.pool.emitted(now as int) - paid + 1,
        ),
        state.withdraw_outcome(user, amount, now, reward_balance) matches Ok(paid)
            ==> state.after_withdraw(user, amount, now, reward_balance).covered(
            funding + state.pool.emitted(now as int) - paid + 1,
        ),
{
    match state.deposit_settlement(user, amount, now, reward_balance) {
        Ok(settled) => {
            lemma_accrual_within_emission(state, now, funding);
            lemma_settlement_accounting(state, user, settled);
        },
        Err(_) => {},
    }
    match state.withdraw_settlement(user, amount, now, reward_balance) {
        Ok(settled) => {
            lemma_accrual_within_emission(state, now, funding);
            lemma_settlement_accounting(state, user, settled);
        },
        Err(_) => {},
    }
}

/// A deposit draws the reward it pays from the funding: where funding
/// covered the depositors' claims before, the funding with the emission added
/// and the reward taken away covers them after, unless the new stake rounds
/// with more dust than the old one.
pub proof fn lemma_deposit_keeps_cover(
    state: PoolState,
    user: Address,
    amount: i128,
    now: u64,
    reward_balance: i128,
    funding: int,
)
    requires
        state.wf(),
        state.covered(funding),
        state.deposit_outcome(user, amount, now, reward_balance) is Ok,
        dust(
            state.position(user).amount + amount,
            state.pool.accrued(now).acc_reward_per_share as int,
        ) <= dust(
            state.position(user).amount as int,
            state.pool.accrued(now).acc_reward_per_share as int,
        ),
    ensures
        state.after_deposit(user, amount, now, reward_balance).wf(),
        state.after_deposit(user, amount, now, reward_balance).covered(
            funding + state.pool.emitted(now as int) - state.deposit_outcome(
                user,
                amount,
                now,
                reward_balance,
            )->Ok_0,
        ),
{
    let settled = state.deposit_settlement(user, amount, now, reward_balance)->Ok_0;
    lemma_operations_keep_wf(state, user, amount, now, reward_balance);
    lemma_accrual_within_emission(state, now, funding);
    lemma_settlement_accounting(state, user, settled);
}

/// A withdrawal draws the reward it pays from the funding: where funding
/// covered the depositors' claims before, the funding with the emission added
/// and the reward taken away covers them after, unless the new stake rounds
/// with more dust than the old one.
pub proof fn lemma_withdraw_keeps_cover(
    state: PoolState,
    user: Address,
    amount: i128,
    now: u64,
    reward_balance: i128,
    funding: int,
)
    requires
        state.wf(),
        state.covered(funding),
        state.withdraw_outcome(user, amount, now, reward_balance) is Ok,
        dust(
            state.position(user).amount - amount,
            state.pool.accrued(now).acc_reward_per_share as int,
        ) <= dust(
            state.position(user).amount as int,
            state.pool.accrued(now).acc_reward_per_share as int,
        ),
    ensures
        state.after_withdraw(user, amount, now, reward_balance).wf(),
        state.after_withdraw(user, amount, now, reward_balance).covered(
            funding + state.pool.emitted(now as int) - state.withdraw_outcome(
                user,
                amount,
                now,
                reward_balance,
            )->Ok_0,
        ),
{
    let settled = state.withdraw_settlement(user, amount, now, reward_balance)->Ok_0;
    lemma_operations_keep_wf(state, user, amount, now, reward_balance);
    lemma_accrual_within_emission(state, now, funding);
    lemma_settlement_accounting(state, user, settled);
}

/// After the position of `user` is set, it is what it was set to, and every
/// other depositor's position is what it was.
pub proof fn lemma_with_position_lookup(
    state: PoolState,
    user: Address,
    info: UserInfo,
    pool: PoolInfo,
    other: Address,
)
    requires
        state.wf(),
    ensures
        (PoolState { pool, stakers: state.with_position(user, info), ..state }).position(user)
            == info,
        other != user ==> (PoolState {
            pool,
            stakers: state.with_position(user, info),
            ..state
        }).position(other) == state.position(other),
{
    let after = PoolState { pool, stakers: state.with_position(user, info), ..state };
    let placed = if state.holds(user) {
        state.index_of(user)
    } else {
        state.stakers.len() as int
    };
    assert(after.stakers[placed].owner == user);
    if other != user && state.holds(other) {
        let at = state.index_of(other);
        assert(after.stakers[at] == state.stakers[at]);
    }
}

/// An operation is all or nothing: one that is refused leaves the pool
/// exactly as it was, the accrual that it began with included.
pub proof fn lemma_refused_changes_nothing(
    state: PoolState,
    config: PoolConfig,
    reward_rate: i128,
    user: Address,
    amount: i128,
    now: u64,
    reward_balance: i128,
)
    ensures
        state.initialize_outcome(reward_rate) is Err ==> state.after_initialize(
            config,
            reward_rate,
            now,
        ) == state,
        state.update_outcome(now) is Err ==> state.after_update(now) == state,
        state.deposit_outcome(user, amount, now, reward_balance) is Err ==> state.after_deposit(
            user,
            amount,
            now,
            reward_balance,
        ) == state,
        state.withdraw_outcome(user, amount, now, reward_balance) is Err ==> state.after_withdraw(
            user,
            amount,
            now,
            reward_balance,
        ) == state,
{
}

/// A view of the owed reward agrees with what is paid: where a deposit or a
/// withdrawal at `now` succeeds, it pays exactly what a view of the pending
/// reward at `now` returns.
pub proof fn lemma_view_matches_payout(
    state: PoolState,
    user: Address,
    amount: i128,
    now: u64,
    reward_balance: i128,
)
    requires
        state.wf(),
    ensures
        state.deposit_outcome(user, amount, now, reward_balance) matches Ok(paid)
            ==> state.pending_outcome(user, now) == Ok::<i128, PoolError>(paid),
        state.withdraw_outcome(user, amount, now, reward_balance) matches Ok(paid)
            ==> state.pending_outcome(user, now) == Ok::<i128, PoolError>(paid),
{
    lemma_position_wf(state, user);
    lemma_settlement_sound(state.pool, state.position(user), amount, now, reward_balance);
}

/// The accumulator and the accrual time never go back, and the rate never
/// changes, whatever is done to the pool and whether or not it is refused.
pub proof fn lemma_accumulator_never_decreases(
    state: PoolState,
    user: Address,
    amount: i128,
    now: u64,
    reward_balance: i128,
)
    requires
        state.wf(),
    ensures
        state.after_update(now).pool.acc_reward_per_share >= state.pool.acc_reward_per_share,
        state.after_update(now).pool.last_reward_time >= state.pool.last_reward_time,
        state.after_update(now).pool.reward_rate == state.pool.reward_rate,
        state.after_deposit(user, amount, now, reward_balance).pool.acc_reward_per_share
            >= state.pool.acc_reward_per_share,
        state.after_deposit(user, amount, now, reward_balance).pool.last_reward_time
            >= state.pool.last_reward_time,
        state.after_deposit(user, amount, now, reward_balance).pool.reward_rate
            == state.pool.reward_rate,
        state.after_withdraw(user, amount, now, reward_balance).pool.acc_reward_per_share
            >= state.pool.acc_reward_per_share,
        state.after_withdraw(user, amount, now, reward_balance).pool.last_reward_time
            >= state.pool.last_reward_time,
        state.after_withdraw(user, amount, now, reward_balance).pool.reward_rate
            == state.pool.reward_rate,
{
}

/// Right after a deposit or a withdrawal the touched position is owed
/// nothing, its stake has moved by the amount, and no other position has
/// changed.
pub proof fn lemma_touched_position_is_settled(
    state: PoolState,
    user: Address,
    amount: i128,
    now: u64,
    reward_balance: i128,
    other: Address,
)
    requires
        state.wf(),
    ensures
        state.deposit_outcome(user, amount, now, reward_balance) is Ok ==> {
            let after = state.after_deposit(user, amount, now, reward_balance);
            &&& after.position(user).pending(after.pool.acc_reward_per_share as int) == 0
            &&& after.position(user).amount == state.position(user).amount + amount
            &&& after.pool.total_staked == state.pool.total_staked + amount
            &&& other != user ==> after.position(other) == state.position(other)
        },
        state.withdraw_outcome(user, amount, now, reward_balance) is Ok ==> {
            let after = state.after_withdraw(user, amount, now, reward_balance);
            &&& after.position(user).pending(after.pool.acc_reward_per_share as int) == 0
            &&& after.position(user).amount == state.position(user).amount - amount
            &&& after.pool.total_staked == state.pool.total_staked - amount
            &&& other != user ==> after.position(other) == state.position(other)
        },
{
    match state.deposit_settlement(user, amount, now, reward_balance) {
        Ok(settled) => {
            lemma_with_position_lookup(state, user, settled.position, settled.pool, other);
        },
        Err(_) => {},
    }
    match state.withdraw_settlement(user, amount, now, reward_balance) {
        Ok(settled) => {
            lemma_with_position_lookup(state, user, settled.position, settled.pool, other);
        },
        Err(_) => {},
    }
}

/// One operation on a pool that is set up, with its arguments.
pub enum PoolOp {
    Update { now: u64 },
    Deposit { user: Address, amount: i128, now: u64, reward_balance: i128 },
    Withdraw { user: Address, amount: i128, now: u64, reward_balance: i128 },
    SetPause { paused: bool },
}

impl PoolState {
    /// The pool after one operation, refused or not.
    pub open spec fn step(self, op: PoolOp) -> PoolState {
        match op {
            PoolOp::Update { now } => self.after_update(now),
            PoolOp::Deposit { user, amount, now, reward_balance } => self.after_deposit(
                user,
                amount,
                now,
                reward_balance,
            ),
            PoolOp::Withdraw { user, amount, now, reward_balance } => self.after_withdraw(
                user,
                amount,
                now,
                reward_balance,
            ),
            PoolOp::SetPause { paused } => if self.config is Some {
                PoolState { paused, ..self }
            } else {
                self
            },
        }
    }

    /// What one operation adds to what the pool may come to owe: the reward
    /// emitted in the accrual that it makes, less the reward that it pays
    /// out, and one reward unit for the rounding of a deposit or withdrawal.
    /// A refused operation adds nothing.
    pub open spec fn outlay(self, op: PoolOp) -> int {
        match op {
            PoolOp::Update { now } => if self.update_outcome(now) is Ok {
                self.pool.emitted(now as int)
            } else {
                0
            },
            PoolOp::Deposit { user, amount, now, reward_balance } => match self.deposit_outcome(
                user,
                amount,
                now,
                reward_balance,
            ) {
                Ok(paid) => self.pool.emitted(now as int) - paid + 1,
                Err(_) => 0,
            },
            PoolOp::Withdraw { user, amount, now, reward_balance } => match self.withdraw_outcome(
                user,
                amount,
                now,
                reward_balance,
            ) {
                Ok(paid) => self.pool.emitted(now as int) - paid + 1,
                Err(_) => 0,
            },
            PoolOp::SetPause { paused } => 0,
        }
    }

    /// The pool after a sequence of operations, the first of them first.
    pub open spec fn run(self, ops: Seq<PoolOp>) -> PoolState
        decreases ops.len(),
    {
        if ops.len() == 0 {
            self
        } else {
            self.run(ops.drop_last()).step(ops.last())
        }
    }

    /// What a sequence of operations adds to what the pool may come to owe.
    pub open spec fn outlay_of(self, ops: Seq<PoolOp>) -> int
        decreases ops.len(),
    {
        if ops.len() == 0 {
            0
        } else {
            self.outlay_of(ops.drop_last()) + self.run(ops.drop_last()).outlay(ops.last())
        }
    }
}

/// Across any sequence of operations a well-formed pool stays well-formed,
/// its accumulator and its accrual time never go back, and its rate never
/// changes.
pub proof fn lemma_run_is_monotone(state: PoolState, ops: Seq<PoolOp>)
    requires
        state.wf(),
    ensures
        state.run(ops).wf(),
        state.run(ops).pool.acc_reward_per_share >= state.pool.acc_reward_per_share,
        state.run(ops).pool.last_reward_time >= state.pool.last_reward_time,
        state.run(ops).pool.reward_rate == state.pool.reward_rate,
    decreases ops.len(),
{
    if ops.len() > 0 {
        lemma_run_is_monotone(state, ops.drop_last());
        let before = state.run(ops.drop_last());
        match ops.last() {
            PoolOp::Update { now } => {
                lemma_accrual_keeps_wf(before, now);
                if before.update_outcome(now) is Ok {
                    lemma_accrual_monotone(before.pool, now);
                }
            },
            PoolOp::Deposit { user, amount, now, reward_balance } => {
                lemma_operations_keep_wf(before, user, amount, now, reward_balance);
                lemma_accumulator_never_decreases(before, user, amount, now, reward_balance);
            },
            PoolOp::Withdraw { user, amount, now, reward_balance } => {
                lemma_operations_keep_wf(before, user, amount, now, reward_balance);
                lemma_accumulator_never_decreases(before, user, amount, now, reward_balance);
            },
            PoolOp::SetPause { paused } => {},
        }
    }
}

/// What the depositors are owed never outruns the funding: where funding
/// covered the depositors' claims at the start, then after any sequence of
/// operations the funding with the sequence's outlay added covers them.
pub proof fn lemma_run_keeps_cover(state: PoolState, ops: Seq<PoolOp>, funding: int)
    requires
        state.wf(),
        state.covered(funding),
    ensures
        state.run(ops).wf(),
        state.run(ops).covered(funding + state.outlay_of(ops)),
    decreases ops.len(),
{
    if ops.len() > 0 {
        lemma_run_keeps_cover(state, ops.drop_last(), funding);
        let before = state.run(ops.drop_last());
        let covering = funding + state.outlay_of(ops.drop_last());
        match ops.last() {
            PoolOp::Update { now } => {
                lemma_accrual_keeps_wf(before, now);
                if before.update_outcome(now) is Ok {
                    lemma_accrual_within_emission(before, now, covering);
                }
            },
            PoolOp::Deposit { user, amount, now, reward_balance } => {
                lemma_operations_keep_wf(before, user, amount, now, reward_balance);
                lemma_touch_costs_under_one_unit(
                    before,
                    user,
                    amount,
                    now,
                    reward_balance,
                    covering,
                );
            },
            PoolOp::Withdraw { user, amount, now, reward_balance } => {
                lemma_operations_keep_wf(before, user, amount, now, reward_balance);
                lemma_touch_costs_under_one_unit(
                    before,
                    user,
                    amount,
                    now,
                    reward_balance,
                    covering,
                );
            },
            PoolOp::SetPause { paused } => {},
        }
    }
}

/// At every point in time the sum of what all depositors are owed is within
/// the funding: where funding covered the depositors' claims at the start,
/// then after any sequence of operations, and at any later time, the
/// depositors together are owed no more than the funding, the sequence's
/// outlay and the reward emitted since the last accrual.
pub proof fn lemma_owed_within_funding_at_all_times(
    state: PoolState,
    ops: Seq<PoolOp>,
    funding: int,
    now: u64,
)
    requires
        state.wf(),
        state.covered(funding),
        state.run(ops).update_outcome(now) is Ok,
    ensures
        0 <= state.run(ops).total_owed(now) <= funding + state.outlay_of(ops) + state.run(
            ops,
        ).pool.emitted(now as int),
{
    lemma_run_keeps_cover(state, ops, funding);
    lemma_owed_within_funding(state.run(ops), now, funding + state.outlay_of(ops));
}

} // verus!
