use stellara_ledger::address::Address;
use stellara_ledger::social_rewards::{SocialRewardsContract, SocialRewardsError};

#[test]
fn test_pause_functionality() {
    let mut contract = SocialRewardsContract::new();
    let admin = Address::account(0, 1);

    contract.initialize(admin).unwrap();

    assert_eq!(contract.is_paused(), false);

    contract.set_pause(true).unwrap();
    assert_eq!(contract.is_paused(), true);

    let user = Address::account(0, 10);
    let res = contract.add_reward(user, 100);
    assert!(res.is_err());
    assert_eq!(res, Err(SocialRewardsError::Paused));

    contract.set_pause(false).unwrap();
    assert_eq!(contract.is_paused(), false);

    let res_ok = contract.add_reward(user, 100);
    assert!(res_ok.is_ok());
}

#[test]
fn social_rewards_are_set_up_once() {
    let mut contract = SocialRewardsContract::new();
    assert_eq!(contract.admin(), None);
    assert_eq!(contract.set_pause(true), Err(SocialRewardsError::NotInitialized));
    assert!(!contract.is_paused());
    assert_eq!(contract.initialize(Address::account(0, 1)), Ok(()));
    assert_eq!(
        contract.initialize(Address::account(0, 2)),
        Err(SocialRewardsError::AlreadyInitialized)
    );
    assert_eq!(contract.admin(), Some(Address::account(0, 1)));
}

#[test]
fn rewards_that_are_not_positive_are_refused() {
    let mut contract = SocialRewardsContract::new();
    contract.initialize(Address::account(0, 1)).unwrap();
    let user = Address::account(0, 10);
    assert_eq!(contract.add_reward(user, 0), Err(SocialRewardsError::InvalidAmount));
    assert_eq!(contract.add_reward(user, -1), Err(SocialRewardsError::InvalidAmount));
    assert_eq!(contract.add_reward(user, 1), Ok(()));
}
