use soroban_sdk::Env;
use stellara_ledger::address::Address;
use stellara_ledger::vesting::{
    AcademyVestingContract, GrantState, VestingError, VestingRoles, VestingSchedule,
    MIN_REVOKE_DELAY,
};

fn address(n: u128) -> Address {
    Address::account(0, n)
}

fn create_test_env() -> (AcademyVestingContract, Address, Address, Address) {
    let ledger = AcademyVestingContract::new(&Env::default());
    let admin = address(1);
    let reward_token = Address::contract(0, 2);
    let governance = address(3);
    (ledger, admin, reward_token, governance)
}

#[test]
fn test_contract_initialization() {
    let (mut ledger, admin, reward_token, governance) = create_test_env();

    ledger
        .init(admin, reward_token, governance)
        .expect("Failed to initialize");

    let (stored_admin, stored_token, stored_gov) = ledger.get_info().expect("Failed to get info");

    assert_eq!(stored_admin, admin);
    assert_eq!(stored_token, reward_token);
    assert_eq!(stored_gov, governance);
}

#[test]
fn test_contract_cannot_be_initialized_twice() {
    let (mut ledger, admin, reward_token, governance) = create_test_env();

    ledger
        .init(admin, reward_token, governance)
        .expect("First init failed");

    let result = ledger.init(admin, reward_token, governance);

    assert!(result.is_err());
    assert_eq!(result.unwrap_err(), VestingError::Unauthorized);
}

#[test]
fn test_grant_vesting_schedule() {
    let (mut ledger, admin, _reward_token, governance) = create_test_env();
    let beneficiary = address(10);

    ledger
        .init(admin, Address::contract(0, 20), governance)
        .expect("Init failed");

    let grant_id = ledger
        .grant_vesting(admin, beneficiary, 1000, 100, 60, 3600)
        .expect("Grant failed");

    assert_eq!(grant_id, 1);

    let schedule = ledger.get_vesting(grant_id).expect("Get vesting failed");

    assert_eq!(schedule.beneficiary, beneficiary);
    assert_eq!(schedule.amount, 1000);
    assert_eq!(schedule.start_time, 100);
    assert_eq!(schedule.cliff, 60);
    assert_eq!(schedule.duration, 3600);
    assert!(!schedule.claimed);
    assert!(!schedule.revoked);
}

#[test]
fn test_grant_multiple_schedules() {
    let (mut ledger, admin, _reward_token, governance) = create_test_env();
    let beneficiary1 = address(10);
    let beneficiary2 = address(11);

    ledger
        .init(admin, Address::contract(0, 20), governance)
        .expect("Init failed");

    let grant_id1 = ledger
        .grant_vesting(admin, beneficiary1, 1000, 100, 60, 3600)
        .expect("Grant 1 failed");

    let grant_id2 = ledger
        .grant_vesting(admin, beneficiary2, 2000, 200, 120, 7200)
        .expect("Grant 2 failed");

    assert_eq!(grant_id1, 1);
    assert_eq!(grant_id2, 2);
}

#[test]
fn test_grant_with_invalid_schedule() {
    let (mut ledger, admin, _reward_token, governance) = create_test_env();
    let beneficiary = address(10);

    ledger
        .init(admin, Address::contract(0, 20), governance)
        .expect("Init failed");

    let result = ledger.grant_vesting(admin, beneficiary, -1000, 100, 60, 3600);
    assert!(result.is_err());
    assert_eq!(result.unwrap_err(), VestingError::InvalidSchedule);

    let result = ledger.grant_vesting(admin, beneficiary, 1000, 100, 5000, 3600);
    assert!(result.is_err());
    assert_eq!(result.unwrap_err(), VestingError::InvalidSchedule);
}

#[test]
fn test_non_admin_cannot_grant() {
    let (mut ledger, admin, _reward_token, governance) = create_test_env();
    let non_admin = address(99);
    let beneficiary = address(10);

    ledger
        .init(admin, Address::contract(0, 20), governance)
        .expect("Init failed");

    let result = ledger.grant_vesting(non_admin, beneficiary, 1000, 100, 60, 3600);

    assert!(result.is_err());
    assert_eq!(result.unwrap_err(), VestingError::Unauthorized);
}

#[test]
fn test_vesting_calculation_before_start() {
    let (mut ledger, admin, _reward_token, governance) = create_test_env();
    let beneficiary = address(10);

    ledger
        .init(admin, Address::contract(0, 20), governance)
        .expect("Init failed");

    let start_time = 1000u64;

    ledger
        .grant_vesting(admin, beneficiary, 1000, start_time, 300, 3600)
        .expect("Grant failed");

    let vested = ledger
        .get_vested_amount(1, start_time - 100)
        .expect("Get vested failed");

    assert_eq!(vested, 0);
}

#[test]
fn test_vesting_calculation_before_cliff() {
    let (mut ledger, admin, _reward_token, governance) = create_test_env();
    let beneficiary = address(10);

    ledger
        .init(admin, Address::contract(0, 20), governance)
        .expect("Init failed");

    let start_time = 1000u64;
    let cliff = 300u64;

    ledger
        .grant_vesting(admin, beneficiary, 1000, start_time, cliff, 3600)
        .expect("Grant failed");

    let vested = ledger
        .get_vested_amount(1, start_time + cliff - 50)
        .expect("Get vested failed");

    assert_eq!(vested, 0);
}

#[test]
fn test_vesting_calculation_after_cliff() {
    let (mut ledger, admin, _reward_token, governance) = create_test_env();
    let beneficiary = address(10);

    ledger
        .init(admin, Address::contract(0, 20), governance)
        .expect("Init failed");

    let start_time = 1000u64;
    let cliff = 300u64;
    let duration = 3600u64;
    let amount = 1000i128;

    ledger
        .grant_vesting(admin, beneficiary, amount, start_time, cliff, duration)
        .expect("Grant failed");

    let vested = ledger
        .get_vested_amount(1, start_time + cliff)
        .expect("Get vested failed");

    assert_eq!(vested, 0);
}

#[test]
fn test_vesting_calculation_fully_vested() {
    let (mut ledger, admin, _reward_token, governance) = create_test_env();
    let beneficiary = address(10);

    ledger
        .init(admin, Address::contract(0, 20), governance)
        .expect("Init failed");

    let start_time = 1000u64;
    let cliff = 300u64;
    let duration = 3600u64;
    let amount = 1000i128;

    ledger
        .grant_vesting(admin, beneficiary, amount, start_time, cliff, duration)
        .expect("Grant failed");

    let vested = ledger
        .get_vested_amount(1, start_time + duration + 1000)
        .expect("Get vested failed");

    assert_eq!(vested, amount);
}

#[test]
fn test_vesting_calculation_partial() {
    let (mut ledger, admin, _reward_token, governance) = create_test_env();
    let beneficiary = address(10);

    ledger
        .init(admin, Address::contract(0, 20), governance)
        .expect("Init failed");

    let start_time = 0u64;
    let cliff = 100u64;
    let duration = 1000u64;
    let amount = 1000i128;

    ledger
        .grant_vesting(admin, beneficiary, amount, start_time, cliff, duration)
        .expect("Grant failed");

    let vested = ledger
        .get_vested_amount(1, start_time + cliff + 450)
        .expect("Get vested failed");

    assert!(vested >= 490 && vested <= 510);
    assert_eq!(vested, 500);
}

#[test]
fn test_claim_not_vested() {
    let (mut ledger, admin, _reward_token, governance) = create_test_env();
    let beneficiary = address(10);

    ledger
        .init(admin, Address::contract(0, 20), governance)
        .expect("Init failed");

    let start_time = 1000u64;

    ledger
        .grant_vesting(admin, beneficiary, 1000, start_time, 300, 3600)
        .expect("Grant failed");

    let result = ledger.claim(1, beneficiary, start_time - 100, 1_000_000);

    assert!(result.is_err());
    assert_eq!(result.unwrap_err(), VestingError::NotVested);
}

#[test]
fn test_claim_single_semantics_prevents_double_claim() {
    let (mut ledger, admin, _reward_token, governance) = create_test_env();
    let beneficiary = address(10);

    ledger
        .init(admin, Address::contract(0, 20), governance)
        .expect("Init failed");

    let start_time = 0u64;

    ledger
        .grant_vesting(admin, beneficiary, 1000, start_time, 100, 3600)
        .expect("Grant failed");

    let schedule = ledger.get_vesting(1).expect("Get vesting failed");
    assert!(!schedule.claimed);

    // Nothing to pay from: the claim is refused and leaves the grant unpaid.
    let refused = ledger.claim(1, beneficiary, start_time + 200, 0);
    assert_eq!(refused, Err(VestingError::InsufficientBalance));
    assert!(!ledger.get_vesting(1).unwrap().claimed);

    // 1000 * (200 - 100) / (3600 - 100) = 28
    let first = ledger.claim(1, beneficiary, start_time + 200, 1_000_000);
    assert_eq!(first, Ok(28));
    assert!(ledger.get_vesting(1).unwrap().claimed);

    let second = ledger.claim(1, beneficiary, start_time + 4000, 1_000_000);
    assert_eq!(second, Err(VestingError::AlreadyClaimed));
}

#[test]
fn test_claim_revoked_schedule() {
    let (mut ledger, admin, _reward_token, governance) = create_test_env();
    let beneficiary = address(10);

    ledger
        .init(admin, Address::contract(0, 20), governance)
        .expect("Init failed");

    let start_time = 0u64;

    ledger
        .grant_vesting(admin, beneficiary, 1000, start_time, 100, 3600)
        .expect("Grant failed");

    ledger
        .revoke(1, admin, 3600, start_time + 3600)
        .expect("Revoke failed");

    let result = ledger.claim(1, beneficiary, start_time + 3600, 1_000_000);

    assert!(result.is_err());
    assert_eq!(result.unwrap_err(), VestingError::Revoked);
}

#[test]
fn test_revoke_invalid_timelock() {
    let (mut ledger, admin, _reward_token, governance) = create_test_env();
    let beneficiary = address(10);

    ledger
        .init(admin, Address::contract(0, 20), governance)
        .expect("Init failed");

    ledger
        .grant_vesting(admin, beneficiary, 1000, 0, 100, 3600)
        .expect("Grant failed");

    let result = ledger.revoke(1, admin, 100, 0);

    assert!(result.is_err());
    assert_eq!(result.unwrap_err(), VestingError::InvalidTimelock);
}

#[test]
fn test_revoke_not_enough_time_elapsed() {
    let (mut ledger, admin, _reward_token, governance) = create_test_env();
    let beneficiary = address(10);

    ledger
        .init(admin, Address::contract(0, 20), governance)
        .expect("Init failed");

    let start_time = 1000u64;

    ledger
        .grant_vesting(admin, beneficiary, 1000, start_time, 100, 3600)
        .expect("Grant failed");

    let result = ledger.revoke(1, admin, 3600, start_time + 1000);

    assert!(result.is_err());
    assert_eq!(result.unwrap_err(), VestingError::NotEnoughTimeForRevoke);
}

#[test]
fn test_revoke_cannot_revoke_claimed() {
    let (mut ledger, admin, _reward_token, governance) = create_test_env();
    let beneficiary = address(10);

    ledger
        .init(admin, Address::contract(0, 20), governance)
        .expect("Init failed");

    ledger
        .grant_vesting(admin, beneficiary, 1000, 0, 100, 3600)
        .expect("Grant failed");

    assert_eq!(ledger.claim(1, beneficiary, 3600, 1000), Ok(1000));
    assert_eq!(
        ledger.revoke(1, admin, 3600, 7200),
        Err(VestingError::AlreadyClaimed)
    );
    let schedule = ledger.get_vesting(1).unwrap();
    assert!(schedule.claimed);
    assert!(!schedule.revoked);
    assert_eq!(schedule.revoke_time, 0);
}

#[test]
fn test_revoke_cannot_revoke_twice() {
    let (mut ledger, admin, _reward_token, governance) = create_test_env();
    let beneficiary = address(10);

    ledger
        .init(admin, Address::contract(0, 20), governance)
        .expect("Init failed");

    let start_time = 0u64;

    ledger
        .grant_vesting(admin, beneficiary, 1000, start_time, 100, 3600)
        .expect("Grant failed");

    ledger
        .revoke(1, admin, 3600, start_time + 3600)
        .expect("First revoke failed");

    let result = ledger.revoke(1, admin, 3600, start_time + 3600);

    assert!(result.is_err());
    assert_eq!(result.unwrap_err(), VestingError::Revoked);
}

#[test]
fn test_non_admin_cannot_revoke() {
    let (mut ledger, admin, _reward_token, governance) = create_test_env();
    let non_admin = address(99);
    let beneficiary = address(10);

    ledger
        .init(admin, Address::contract(0, 20), governance)
        .expect("Init failed");

    ledger
        .grant_vesting(admin, beneficiary, 1000, 0, 100, 3600)
        .expect("Grant failed");

    let result = ledger.revoke(1, non_admin, 3600, 3600);

    assert!(result.is_err());
    assert_eq!(result.unwrap_err(), VestingError::Unauthorized);
}

#[test]
fn test_claim_wrong_beneficiary() {
    let (mut ledger, admin, _reward_token, governance) = create_test_env();
    let beneficiary = address(10);
    let other = address(11);

    ledger
        .init(admin, Address::contract(0, 20), governance)
        .expect("Init failed");

    ledger
        .grant_vesting(admin, beneficiary, 1000, 0, 100, 3600)
        .expect("Grant failed");

    let result = ledger.claim(1, other, 200, 1_000_000);

    assert!(result.is_err());
    assert_eq!(result.unwrap_err(), VestingError::Unauthorized);
}

#[test]
fn test_get_vesting_nonexistent() {
    let (mut ledger, admin, _reward_token, governance) = create_test_env();

    ledger
        .init(admin, Address::contract(0, 20), governance)
        .expect("Init failed");

    let result = ledger.get_vesting(999);

    assert!(result.is_err());
    assert_eq!(result.unwrap_err(), VestingError::GrantNotFound);
}

#[test]
fn test_get_vested_amount_nonexistent() {
    let (mut ledger, admin, _reward_token, governance) = create_test_env();

    ledger
        .init(admin, Address::contract(0, 20), governance)
        .expect("Init failed");

    let result = ledger.get_vested_amount(999, 0);

    assert!(result.is_err());
    assert_eq!(result.unwrap_err(), VestingError::GrantNotFound);
}

#[test]
fn test_integration_complete_vesting_flow() {
    let (mut ledger, admin, _reward_token, governance) = create_test_env();
    let beneficiary = address(10);

    ledger
        .init(admin, Address::contract(0, 20), governance)
        .expect("Init failed");

    let start_time = 0u64;
    let cliff = 1000u64;
    let duration = 10000u64;
    let amount = 5000i128;

    let grant_id = ledger
        .grant_vesting(admin, beneficiary, amount, start_time, cliff, duration)
        .expect("Grant failed");

    let vested_before = ledger
        .get_vested_amount(grant_id, start_time + 500)
        .expect("Get vested before cliff failed");
    assert_eq!(vested_before, 0);

    let vested_at_cliff = ledger
        .get_vested_amount(grant_id, start_time + cliff)
        .expect("Get vested at cliff failed");
    assert_eq!(vested_at_cliff, 0);

    let vested_midway = ledger
        .get_vested_amount(grant_id, start_time + cliff + (duration - cliff) / 2)
        .expect("Get vested midway failed");
    assert!(vested_midway > 0 && vested_midway < amount);
    assert_eq!(vested_midway, 2500);

    let vested_full = ledger
        .get_vested_amount(grant_id, start_time + duration + 1000)
        .expect("Get vested full failed");
    assert_eq!(vested_full, amount);

    let schedule = ledger.get_vesting(grant_id).expect("Get vesting failed");
    assert_eq!(schedule.beneficiary, beneficiary);
    assert_eq!(schedule.amount, amount);
    assert_eq!(schedule.cliff, cliff);
    assert_eq!(schedule.duration, duration);
    assert!(!schedule.claimed);
    assert!(!schedule.revoked);
}

#[test]
fn test_grant_and_claim_regression() {
    let mut ledger = AcademyVestingContract::new(&Env::default());
    let admin = address(1);
    let reward_token = Address::contract(0, 2);
    let governance = address(3);
    let beneficiary = address(10);
    ledger.init(admin, reward_token, governance).unwrap();
    let grant_id = ledger
        .grant_vesting(admin, beneficiary, 1000, 0, 0, 1000)
        .unwrap();
    let _ = ledger.claim(grant_id, beneficiary, 1000, 1000);
    let schedule = ledger.get_vesting(grant_id).unwrap();
    assert!(schedule.claimed);
}

fn setup_contract() -> (AcademyVestingContract, Address, Address, Address) {
    let (mut ledger, admin, reward_token, governance) = create_test_env();
    ledger.init(admin, reward_token, governance).unwrap();
    (ledger, admin, reward_token, governance)
}

#[test]
fn bench_grant_vesting() {
    let (mut ledger, admin, _reward_token, _governance) = setup_contract();
    let beneficiary = address(10);
    let start_time = 1000u64;
    let cliff = 100u64;
    let duration = 1000u64;
    let amount = 1000i128;
    let before = ledger.grant_count();
    let _ = ledger.grant_vesting(admin, beneficiary, amount, start_time, cliff, duration);
    let after = ledger.grant_count();
    println!("grant_vesting gas: {}", after - before);
    assert_eq!(after - before, 1);
}

#[test]
fn bench_claim() {
    let (mut ledger, admin, _reward_token, _governance) = setup_contract();
    let beneficiary = address(10);
    let start_time = 0u64;
    let cliff = 100u64;
    let duration = 1000u64;
    let amount = 1000i128;
    let _ = ledger.grant_vesting(admin, beneficiary, amount, start_time, cliff, duration);
    let claimed = ledger.claim(1, beneficiary, start_time + cliff + 500, 1000);
    println!("claim gas: {}", claimed.unwrap_or(0));
    // 1000 * 500 / 900 = 555
    assert_eq!(claimed, Ok(555));
}

// The unlocked amount at the instants that the schedule turns on.
#[test]
fn vested_amount_at_the_boundaries() {
    let schedule = VestingSchedule {
        beneficiary: address(10),
        amount: 1000,
        start_time: 0,
        cliff: 100,
        duration: 1000,
        claimed: false,
        revoked: false,
        revoke_time: 0,
    };
    let at = |now: u64| AcademyVestingContract::calculate_vested_amount(&schedule, now);
    assert_eq!(at(50), Ok(0));
    assert_eq!(at(99), Ok(0));
    assert_eq!(at(100), Ok(0));
    assert_eq!(at(101), Ok(1));
    assert_eq!(at(550), Ok(500));
    assert_eq!(at(999), Ok(998));
    assert_eq!(at(1000), Ok(1000));
    assert_eq!(at(1500), Ok(1000));
    assert_eq!(at(u64::MAX), Ok(1000));
}

#[test]
fn vested_amount_never_decreases_and_stays_in_range() {
    let schedule = VestingSchedule {
        beneficiary: address(10),
        amount: 777,
        start_time: 13,
        cliff: 29,
        duration: 211,
        claimed: false,
        revoked: false,
        revoke_time: 0,
    };
    let mut last = 0i128;
    for now in 0..300u64 {
        let vested = AcademyVestingContract::calculate_vested_amount(&schedule, now).unwrap();
        assert!(vested >= last);
        assert!(vested >= 0 && vested <= 777);
        last = vested;
    }
    assert_eq!(last, 777);
}

#[test]
fn vested_amount_with_cliff_equal_to_duration() {
    let schedule = VestingSchedule {
        beneficiary: address(10),
        amount: 40,
        start_time: 5,
        cliff: 10,
        duration: 10,
        claimed: false,
        revoked: false,
        revoke_time: 0,
    };
    assert_eq!(AcademyVestingContract::calculate_vested_amount(&schedule, 14), Ok(0));
    assert_eq!(AcademyVestingContract::calculate_vested_amount(&schedule, 15), Ok(40));
}

#[test]
fn vested_amount_of_the_widest_grant() {
    let schedule = VestingSchedule {
        beneficiary: address(10),
        amount: i128::MAX,
        start_time: u64::MAX,
        cliff: 0,
        duration: u64::MAX,
        claimed: false,
        revoked: false,
        revoke_time: 0,
    };
    assert_eq!(
        AcademyVestingContract::calculate_vested_amount(&schedule, u64::MAX),
        Ok(0)
    );
    let early = VestingSchedule { start_time: 0, ..schedule };
    // floor((2^127 - 1) * (2^64 - 2) / (2^64 - 1)) = 2^127 - 1 - (2^63 + 1)
    assert_eq!(
        AcademyVestingContract::calculate_vested_amount(&early, u64::MAX - 1),
        Ok(i128::MAX - (1i128 << 63) - 1)
    );
}

#[test]
fn vested_amount_of_invalid_terms_is_refused() {
    let schedule = VestingSchedule {
        beneficiary: address(10),
        amount: 0,
        start_time: 0,
        cliff: 0,
        duration: 10,
        claimed: false,
        revoked: false,
        revoke_time: 0,
    };
    assert_eq!(
        AcademyVestingContract::calculate_vested_amount(&schedule, 5),
        Err(VestingError::InvalidSchedule)
    );
    let late_cliff = VestingSchedule { amount: 5, cliff: 11, ..schedule };
    assert_eq!(
        AcademyVestingContract::calculate_vested_amount(&late_cliff, 5),
        Err(VestingError::InvalidSchedule)
    );
    assert!(!late_cliff.check_valid());
}

#[test]
fn claim_pays_what_has_vested_and_only_once() {
    let (mut ledger, admin, _reward_token, _governance) = setup_contract();
    let beneficiary = address(10);
    ledger
        .grant_vesting(admin, beneficiary, 1000, 0, 100, 1000)
        .unwrap();
    assert_eq!(ledger.get_vesting(1).unwrap().state(), GrantState::Active);
    assert_eq!(ledger.claim(1, beneficiary, 550, 500), Ok(500));
    assert_eq!(ledger.get_vesting(1).unwrap().state(), GrantState::Claimed);
    assert_eq!(
        ledger.claim(1, beneficiary, 1500, 1_000_000),
        Err(VestingError::AlreadyClaimed)
    );
    assert_eq!(
        ledger.claim(1, address(11), 1500, 1_000_000),
        Err(VestingError::Unauthorized)
    );
}

#[test]
fn claim_of_unknown_grant_is_refused() {
    let (mut ledger, _admin, _reward_token, _governance) = setup_contract();
    assert_eq!(
        ledger.claim(1, address(10), 0, 0),
        Err(VestingError::GrantNotFound)
    );
    assert_eq!(
        ledger.claim(0, address(10), 0, 0),
        Err(VestingError::GrantNotFound)
    );
}

#[test]
fn claim_with_short_balance_is_refused_and_leaves_the_grant() {
    let (mut ledger, admin, _reward_token, _governance) = setup_contract();
    let beneficiary = address(10);
    ledger
        .grant_vesting(admin, beneficiary, 1000, 0, 100, 1000)
        .unwrap();
    assert_eq!(
        ledger.claim(1, beneficiary, 550, 499),
        Err(VestingError::InsufficientBalance)
    );
    let schedule = ledger.get_vesting(1).unwrap();
    assert!(!schedule.claimed);
    assert_eq!(ledger.claim(1, beneficiary, 550, 500), Ok(500));
}

#[test]
fn revoke_records_the_time_and_blocks_claims() {
    let (mut ledger, admin, _reward_token, _governance) = setup_contract();
    let beneficiary = address(10);
    ledger
        .grant_vesting(admin, beneficiary, 1000, 50, 100, 1000)
        .unwrap();
    assert_eq!(
        ledger.revoke(1, admin, MIN_REVOKE_DELAY - 1, 1_000_000),
        Err(VestingError::InvalidTimelock)
    );
    assert_eq!(
        ledger.revoke(1, admin, MIN_REVOKE_DELAY, 3649),
        Err(VestingError::NotEnoughTimeForRevoke)
    );
    assert_eq!(ledger.revoke(1, admin, MIN_REVOKE_DELAY, 3650), Ok(()));
    let schedule = ledger.get_vesting(1).unwrap();
    assert!(schedule.revoked);
    assert_eq!(schedule.revoke_time, 3650);
    assert_eq!(schedule.state(), GrantState::Revoked);
    assert_eq!(
        ledger.claim(1, beneficiary, 5000, 1_000_000),
        Err(VestingError::Revoked)
    );
}

#[test]
fn revoke_with_a_delay_past_the_end_of_time_is_too_early() {
    let (mut ledger, admin, _reward_token, _governance) = setup_contract();
    ledger
        .grant_vesting(admin, address(10), 1000, u64::MAX, 0, 10)
        .unwrap();
    assert_eq!(
        ledger.revoke(1, admin, u64::MAX, u64::MAX),
        Err(VestingError::NotEnoughTimeForRevoke)
    );
}

#[test]
fn revoke_of_unknown_grant_is_refused() {
    let (mut ledger, admin, _reward_token, _governance) = setup_contract();
    assert_eq!(
        ledger.revoke(7, admin, 3600, 3600),
        Err(VestingError::GrantNotFound)
    );
}

#[test]
fn nothing_works_before_the_ledger_is_set_up() {
    let mut ledger = AcademyVestingContract::new(&Env::default());
    assert_eq!(ledger.get_info(), Err(VestingError::Unauthorized));
    assert_eq!(
        ledger.grant_vesting(address(1), address(10), 1000, 0, 0, 10),
        Err(VestingError::Unauthorized)
    );
    assert_eq!(
        ledger.revoke(1, address(1), 3600, 3600),
        Err(VestingError::Unauthorized)
    );
    assert_eq!(ledger.grant_count(), 0);
}

#[test]
fn restore_accepts_only_valid_ledgers() {
    let env = Env::default();
    let roles = VestingRoles {
        admin: address(1),
        reward_token: Address::contract(0, 2),
        governance: address(3),
    };
    let good = VestingSchedule {
        beneficiary: address(10),
        amount: 1000,
        start_time: 0,
        cliff: 100,
        duration: 1000,
        claimed: true,
        revoked: false,
        revoke_time: 0,
    };
    let second = VestingSchedule { beneficiary: Address::contract(7, 11), claimed: false, ..good };

    let mut restored =
        AcademyVestingContract::restore(&env, Some(roles), vec![good, second]).unwrap();
    assert_eq!(restored.grant_count(), 2);
    assert_eq!(restored.get_vesting(1), Ok(good));
    assert_eq!(restored.get_vesting(2), Ok(second));
    assert_eq!(restored.get_vesting(3), Err(VestingError::GrantNotFound));
    assert_eq!(restored.get_info(), Ok((roles.admin, roles.reward_token, roles.governance)));
    assert_eq!(
        restored.claim(1, address(10), 5000, 1_000_000),
        Err(VestingError::AlreadyClaimed)
    );
    assert_eq!(
        restored.grant_vesting(roles.admin, address(12), 5, 0, 0, 0),
        Ok(3)
    );

    let both = VestingSchedule { revoked: true, ..good };
    assert!(AcademyVestingContract::restore(&env, Some(roles), vec![good, both]).is_none());
    let stray_time = VestingSchedule { claimed: false, revoke_time: 5, ..good };
    assert!(AcademyVestingContract::restore(&env, Some(roles), vec![stray_time]).is_none());
    let no_amount = VestingSchedule { amount: 0, ..good };
    assert!(AcademyVestingContract::restore(&env, Some(roles), vec![no_amount]).is_none());
    assert!(AcademyVestingContract::restore(&env, None, vec![good]).is_none());
    assert!(AcademyVestingContract::restore(&env, None, vec![]).is_some());
}

#[test]
fn records_hold_what_the_ledger_recorded() {
    let (mut ledger, admin, _reward_token, _governance) = setup_contract();
    let first = address(10);
    let second = Address::contract(7, 11);
    ledger.grant_vesting(admin, first, 1000, 0, 100, 1000).unwrap();
    ledger.grant_vesting(admin, second, 2000, 5, 0, 0).unwrap();
    ledger.claim(1, first, 550, 500).unwrap();
    ledger.revoke(2, admin, 3600, 4000).unwrap();
    let expected_first = ledger.get_vesting(1).unwrap();
    let expected_second = ledger.get_vesting(2).unwrap();
    assert!(expected_first.claimed);
    assert_eq!(expected_second.revoke_time, 4000);

    let records = ledger.into_records();
    assert_eq!(records.len(), 2);
    assert_eq!(
        records.get(1),
        Some((0, 0, 10, 1000, 0, 100, 1000, true, false, 0))
    );
    assert_eq!(
        records.get(2),
        Some((1, 7, 11, 2000, 5, 0, 0, false, true, 4000))
    );
    assert_eq!(VestingSchedule::from_record(&records.get(1).unwrap()), Some(expected_first));
    assert_eq!(VestingSchedule::from_record(&records.get(2).unwrap()), Some(expected_second));
}

// Values of the host can be compared only within one host, so the comparison
// below goes through only if the ledger kept its records in the host it was
// given.
#[test]
fn records_stay_in_the_host_of_the_ledger() {
    let env = Env::default();
    let mut ledger = AcademyVestingContract::new(&env);
    let admin = address(1);
    ledger.init(admin, Address::contract(0, 2), address(3)).unwrap();
    ledger.grant_vesting(admin, address(10), 1000, 0, 100, 1000).unwrap();
    ledger.grant_vesting(admin, address(11), 500, 0, 0, 10).unwrap();
    ledger.claim(1, address(10), 550, 500).unwrap();
    ledger.revoke(2, admin, 3600, 3600).unwrap();
    let records = ledger.into_records();
    assert_eq!(records.keys(), soroban_sdk::Vec::from_array(&env, [1u64, 2u64]));

    let restored = AcademyVestingContract::restore(&env, None, vec![]).unwrap();
    assert_eq!(
        restored.into_records().keys(),
        soroban_sdk::Vec::<u64>::new(&env)
    );
}

#[test]
fn error_codes() {
    assert_eq!(VestingError::Unauthorized.code(), 4001);
    assert_eq!(VestingError::NotVested.code(), 4002);
    assert_eq!(VestingError::AlreadyClaimed.code(), 4003);
    assert_eq!(VestingError::InvalidSchedule.code(), 4004);
    assert_eq!(VestingError::InsufficientBalance.code(), 4005);
    assert_eq!(VestingError::GrantNotFound.code(), 4006);
    assert_eq!(VestingError::Revoked.code(), 4007);
    assert_eq!(VestingError::InvalidTimelock.code(), 4008);
    assert_eq!(VestingError::NotEnoughTimeForRevoke.code(), 4009);
}
