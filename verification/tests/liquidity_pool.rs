use stellara_ledger::address::Address;
use stellara_ledger::liquidity_pool::{
    LiquidityPool, PoolConfig, PoolError, PoolInfo, Settlement, UserInfo,
};
use stellara_ledger::token::TokenContract;

fn address(n: u128) -> Address {
    Address::account(0, n)
}

fn token(admin: Address, name: &str) -> TokenContract {
    let mut token = TokenContract::new();
    token
        .initialize(admin, name.to_string(), name.to_string(), 7)
        .unwrap();
    token
}

// A deposit with the transfers it asks for: the stake pulled from the user
// and the owed reward paid out.
fn deposit(
    pool: &mut LiquidityPool,
    staking: &mut TokenContract,
    reward: &mut TokenContract,
    pool_address: Address,
    user: Address,
    amount: i128,
    now: u64,
) {
    let paid = pool
        .deposit(user, amount, now, reward.balance(pool_address))
        .unwrap();
    staking.transfer(user, pool_address, amount).unwrap();
    reward.transfer(pool_address, user, paid).unwrap();
}

// A withdrawal with the transfers it asks for.
fn withdraw(
    pool: &mut LiquidityPool,
    staking: &mut TokenContract,
    reward: &mut TokenContract,
    pool_address: Address,
    user: Address,
    amount: i128,
    now: u64,
) {
    let paid = pool
        .withdraw(user, amount, now, reward.balance(pool_address))
        .unwrap();
    staking.transfer(pool_address, user, amount).unwrap();
    reward.transfer(pool_address, user, paid).unwrap();
}

#[test]
fn test_rewards_flow() {
    let pool_address = Address::contract(0, 100);
    let admin = address(1);
    let token_admin = address(2);
    let mut staking = token(token_admin, "stake");
    let mut reward = token(token_admin, "reward");

    let mut pool = LiquidityPool::new();
    let start_time = 0u64;
    let reward_rate = 10;
    pool.initialize(
        admin,
        Address::contract(0, 101),
        Address::contract(0, 102),
        reward_rate,
        start_time,
    )
    .unwrap();

    reward.mint(pool_address, 100_000).unwrap();

    let user1 = address(10);
    staking.mint(user1, 1000).unwrap();

    deposit(&mut pool, &mut staking, &mut reward, pool_address, user1, 100, start_time);
    assert_eq!(staking.balance(user1), 900);
    assert_eq!(staking.balance(pool_address), 100);

    let pending = pool.get_pending_rewards(user1, start_time + 10).unwrap();
    assert_eq!(pending, 100);

    let pre_reward_balance = reward.balance(user1);
    withdraw(&mut pool, &mut staking, &mut reward, pool_address, user1, 100, start_time + 10);

    assert_eq!(reward.balance(user1), pre_reward_balance + 100);
    assert_eq!(staking.balance(user1), 1000);
}

#[test]
fn test_multiple_users() {
    let pool_address = Address::contract(0, 100);
    let admin = address(1);
    let token_admin = address(2);
    let mut staking = token(token_admin, "stake");
    let mut reward = token(token_admin, "reward");

    let mut pool = LiquidityPool::new();
    let start_time = 0u64;
    pool.initialize(
        admin,
        Address::contract(0, 101),
        Address::contract(0, 102),
        100,
        start_time,
    )
    .unwrap();
    reward.mint(pool_address, 1_000_000).unwrap();

    let user1 = address(10);
    let user2 = address(11);
    staking.mint(user1, 1000).unwrap();
    staking.mint(user2, 1000).unwrap();

    deposit(&mut pool, &mut staking, &mut reward, pool_address, user1, 100, start_time);

    deposit(&mut pool, &mut staking, &mut reward, pool_address, user2, 100, start_time + 10);

    assert_eq!(pool.get_pending_rewards(user1, start_time + 10), Ok(1000));
    assert_eq!(pool.get_pending_rewards(user2, start_time + 10), Ok(0));

    assert_eq!(pool.get_pending_rewards(user1, start_time + 20), Ok(1500));
    assert_eq!(pool.get_pending_rewards(user2, start_time + 20), Ok(500));
}

fn pool_with_rate(rate: i128, now: u64) -> LiquidityPool {
    let mut pool = LiquidityPool::new();
    pool.initialize(
        address(1),
        Address::contract(0, 101),
        Address::contract(0, 102),
        rate,
        now,
    )
    .unwrap();
    pool
}

#[test]
fn sole_depositor_earns_the_whole_emission() {
    let mut pool = pool_with_rate(100, 0);
    let a = address(10);
    assert_eq!(pool.deposit(a, 100, 0, 0), Ok(0));
    assert_eq!(pool.get_pending_rewards(a, 10), Ok(1000));
    let info = pool.get_pool_info().unwrap();
    assert_eq!(
        info,
        PoolInfo {
            total_staked: 100,
            acc_reward_per_share: 0,
            last_reward_time: 0,
            reward_rate: 100
        }
    );
}

#[test]
fn view_agrees_with_what_is_paid() {
    let mut pool = pool_with_rate(7, 3);
    let a = address(10);
    let b = address(11);
    pool.deposit(a, 5, 3, 0).unwrap();
    pool.deposit(b, 11, 9, 1_000_000).unwrap();
    let viewed_a = pool.get_pending_rewards(a, 40).unwrap();
    let viewed_b = pool.get_pending_rewards(b, 40).unwrap();
    // a: 6 * 7 = 42 alone, then 5/16 of 31 * 7 = 217
    assert_eq!(viewed_a, 42 + 67);
    assert_eq!(viewed_b, 149);
    assert_eq!(pool.withdraw(a, 2, 40, 1_000_000), Ok(viewed_a));
    assert_eq!(pool.deposit(b, 1, 40, 1_000_000), Ok(viewed_b));
    assert_eq!(pool.get_pending_rewards(a, 40), Ok(0));
    assert_eq!(pool.get_pending_rewards(b, 40), Ok(0));
}

#[test]
fn accumulator_and_time_follow_the_formula() {
    let mut pool = pool_with_rate(100, 0);
    pool.deposit(address(10), 300, 0, 0).unwrap();
    pool.update_pool(7).unwrap();
    let info = pool.get_pool_info().unwrap();
    // 7 * 100 * 10^12 / 300, rounded down
    assert_eq!(info.acc_reward_per_share, 2_333_333_333_333);
    assert_eq!(info.last_reward_time, 7);
    assert_eq!(info.total_staked, 300);
    // an earlier time changes nothing
    pool.update_pool(5).unwrap();
    assert_eq!(pool.get_pool_info().unwrap(), info);
}

#[test]
fn nothing_accrues_while_nothing_is_staked() {
    let mut pool = pool_with_rate(100, 0);
    pool.update_pool(50).unwrap();
    let info = pool.get_pool_info().unwrap();
    assert_eq!(info.acc_reward_per_share, 0);
    assert_eq!(info.last_reward_time, 50);
    let a = address(10);
    assert_eq!(pool.deposit(a, 10, 60, 0), Ok(0));
    assert_eq!(pool.get_pending_rewards(a, 60), Ok(0));
    assert_eq!(pool.get_pending_rewards(a, 61), Ok(100));
}

#[test]
fn withdraw_of_more_than_the_stake_is_refused() {
    let mut pool = pool_with_rate(100, 0);
    let a = address(10);
    pool.deposit(a, 100, 0, 0).unwrap();
    assert_eq!(
        pool.withdraw(a, 101, 5, 1_000_000),
        Err(PoolError::InsufficientStake)
    );
    assert_eq!(
        pool.withdraw(address(11), 1, 5, 1_000_000),
        Err(PoolError::InsufficientStake)
    );
    // the refused calls have not moved the pool on
    assert_eq!(pool.get_pool_info().unwrap().last_reward_time, 0);
    assert_eq!(pool.get_user_info(a), UserInfo { amount: 100, reward_debt: 0 });
}

#[test]
fn amounts_that_are_not_positive_are_refused() {
    let mut pool = pool_with_rate(100, 0);
    let a = address(10);
    assert_eq!(pool.deposit(a, 0, 0, 0), Err(PoolError::InvalidAmount));
    assert_eq!(pool.deposit(a, -5, 0, 0), Err(PoolError::InvalidAmount));
    assert_eq!(pool.withdraw(a, 0, 0, 0), Err(PoolError::InvalidAmount));
    assert_eq!(pool.withdraw(a, -5, 0, 0), Err(PoolError::InvalidAmount));
}

#[test]
fn payout_above_the_reward_balance_is_refused_and_changes_nothing() {
    let mut pool = pool_with_rate(100, 0);
    let a = address(10);
    pool.deposit(a, 100, 0, 0).unwrap();
    assert_eq!(
        pool.deposit(a, 1, 10, 999),
        Err(PoolError::InsufficientBalance)
    );
    assert_eq!(
        pool.withdraw(a, 1, 10, 999),
        Err(PoolError::InsufficientBalance)
    );
    assert_eq!(pool.get_user_info(a), UserInfo { amount: 100, reward_debt: 0 });
    assert_eq!(pool.get_pool_info().unwrap().last_reward_time, 0);
    assert_eq!(pool.withdraw(a, 1, 10, 1000), Ok(1000));
    assert_eq!(pool.get_user_info(a), UserInfo { amount: 99, reward_debt: 990 });
}

#[test]
fn overflow_is_reported_and_changes_nothing() {
    let mut pool = pool_with_rate(i128::MAX, 0);
    let a = address(10);
    pool.deposit(a, 1, 0, 0).unwrap();
    assert_eq!(pool.update_pool(1), Err(PoolError::ArithmeticOverflow));
    assert_eq!(
        pool.get_pending_rewards(a, 1),
        Err(PoolError::ArithmeticOverflow)
    );
    assert_eq!(
        pool.deposit(a, 1, 2, 0),
        Err(PoolError::ArithmeticOverflow)
    );
    assert_eq!(
        pool.withdraw(a, 1, 2, 0),
        Err(PoolError::ArithmeticOverflow)
    );
    // at the time of the last accrual nothing is multiplied
    assert_eq!(pool.withdraw(a, 1, 0, 0), Ok(0));

    let mut wide = pool_with_rate(1, 0);
    wide.deposit(a, i128::MAX, 0, 0).unwrap();
    assert_eq!(
        wide.deposit(address(11), 1, 0, 0),
        Err(PoolError::ArithmeticOverflow)
    );
}

#[test]
fn pause_suspends_deposits_and_withdrawals() {
    let mut pool = pool_with_rate(100, 0);
    let a = address(10);
    pool.deposit(a, 100, 0, 0).unwrap();
    assert!(!pool.is_paused());
    pool.set_pause(true).unwrap();
    assert!(pool.is_paused());
    assert_eq!(pool.deposit(a, 1, 1, 1_000_000), Err(PoolError::Paused));
    assert_eq!(pool.withdraw(a, 1, 1, 1_000_000), Err(PoolError::Paused));
    assert_eq!(pool.get_pending_rewards(a, 1), Ok(100));
    pool.set_pause(false).unwrap();
    assert_eq!(pool.withdraw(a, 1, 1, 1_000_000), Ok(100));
}

#[test]
fn pool_is_set_up_once_with_a_rate_that_is_not_negative() {
    let mut pool = LiquidityPool::new();
    let a = address(10);
    assert_eq!(pool.get_pool_info(), Err(PoolError::NotInitialized));
    assert_eq!(pool.get_config(), None);
    assert_eq!(pool.deposit(a, 1, 0, 0), Err(PoolError::NotInitialized));
    assert_eq!(pool.withdraw(a, 1, 0, 0), Err(PoolError::NotInitialized));
    assert_eq!(pool.get_pending_rewards(a, 0), Err(PoolError::NotInitialized));
    assert_eq!(pool.update_pool(1), Err(PoolError::NotInitialized));
    assert_eq!(pool.set_pause(true), Err(PoolError::NotInitialized));
    assert_eq!(
        pool.initialize(a, a, a, -1, 0),
        Err(PoolError::InvalidAmount)
    );
    assert_eq!(pool.initialize(a, address(2), address(3), 5, 9), Ok(()));
    assert_eq!(
        pool.get_config(),
        Some(PoolConfig { admin: a, staking_token: address(2), reward_token: address(3) })
    );
    assert_eq!(
        pool.initialize(a, a, a, 5, 9),
        Err(PoolError::AlreadyInitialized)
    );
    assert_eq!(pool.get_pool_info().unwrap().last_reward_time, 9);
}

#[test]
fn step_functions_settle_one_position() {
    let pool = PoolInfo {
        total_staked: 200,
        acc_reward_per_share: 10_000_000_000_000,
        last_reward_time: 10,
        reward_rate: 100,
    };
    let a = UserInfo { amount: 100, reward_debt: 0 };
    assert_eq!(pool.pending_rewards(&a, 20), Ok(1500));
    assert_eq!(a.pending_reward(10_000_000_000_000), Ok(1000));
    let accrued = pool.accrue(20).unwrap();
    assert_eq!(accrued.acc_reward_per_share, 15_000_000_000_000);
    assert_eq!(accrued.last_reward_time, 20);
    assert_eq!(
        pool.deposit(&a, 50, 20, 1500),
        Ok(Settlement {
            pool: PoolInfo { total_staked: 250, ..accrued },
            position: UserInfo { amount: 150, reward_debt: 2250 },
            reward: 1500,
        })
    );
    assert_eq!(
        pool.withdraw(&a, 100, 20, 1500),
        Ok(Settlement {
            pool: PoolInfo { total_staked: 100, ..accrued },
            position: UserInfo { amount: 0, reward_debt: 0 },
            reward: 1500,
        })
    );
    assert_eq!(pool.deposit(&a, 50, 20, 1499), Err(PoolError::InsufficientBalance));
    assert_eq!(pool.withdraw(&a, 101, 20, 1500), Err(PoolError::InsufficientStake));
}

#[test]
fn owed_rewards_stay_within_the_emission() {
    let mut pool = pool_with_rate(13, 0);
    let users = [address(10), address(11), address(12)];
    let mut emitted_while_staked = 0i128;
    let mut paid = 0i128;
    let mut last = 0u64;
    let steps: [(usize, i128, u64); 6] =
        [(0, 1_000_000_000_000, 0), (1, 3_000_000_000_000, 5), (2, 4_000_000_000_000, 9), (0, 2_000_000_000_000, 14), (1, 1_000_000_000_000, 20), (2, 5_000_000_000_000, 33)];
    for (who, amount, now) in steps {
        if pool.get_pool_info().unwrap().total_staked > 0 {
            emitted_while_staked += 13 * (now - last) as i128;
        }
        last = now;
        paid += pool.deposit(users[who], amount, now, i128::MAX).unwrap();
        let owed: i128 = users
            .iter()
            .map(|u| pool.get_pending_rewards(*u, now).unwrap())
            .sum();
        assert!(owed + paid <= emitted_while_staked);
    }
    let owed: i128 = users
        .iter()
        .map(|u| pool.get_pending_rewards(*u, 100).unwrap())
        .sum();
    assert!(owed + paid <= emitted_while_staked + 13 * 67);
}

// Settling a position rounds its debt down, so a stake taken while the
// accumulator stands between two whole reward units is credited the whole
// unit when the accumulator reaches the next one. Each deposit or withdrawal
// can add less than one unit in this way, and no more.
#[test]
fn rounding_adds_less_than_one_unit_per_touch() {
    let mut pool = pool_with_rate(1, 0);
    let first = address(10);
    pool.deposit(first, 10, 0, 0).unwrap();
    let mut touches = 1i128;
    // nine units emitted on ten staked: the accumulator stands at 0.9
    for n in 0..10u128 {
        assert_eq!(pool.deposit(address(20 + n), 1, 9, 1_000), Ok(0));
        touches += 1;
    }
    assert_eq!(pool.get_pool_info().unwrap().acc_reward_per_share, 900_000_000_000);
    // two more units on twenty staked: the accumulator reaches 1.0
    let mut owed = pool.get_pending_rewards(first, 11).unwrap();
    assert_eq!(owed, 10);
    for n in 0..10u128 {
        let each = pool.get_pending_rewards(address(20 + n), 11).unwrap();
        assert_eq!(each, 1);
        owed += each;
    }
    let emitted = 11;
    assert_eq!(owed, 20);
    assert!(owed > emitted);
    assert!(owed <= emitted + touches);
}
