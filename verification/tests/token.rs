use stellara_ledger::address::Address;
use stellara_ledger::token::admin::require_admin;
use stellara_ledger::token::error::TokenError;
use stellara_ledger::token::storage::{
    allowance_amount, allowance_expiration, authorized, balance_of, has_admin, set_allowance,
    set_authorized, set_balance, AllowanceData, TokenMetadata, TokenStorage,
};
use stellara_ledger::token::TokenContract;

fn address(n: u128) -> Address {
    Address::account(0, n)
}

fn setup_token() -> (Address, TokenContract) {
    let admin = address(1);
    let mut token = TokenContract::new();
    token
        .initialize(admin, "Stellara".to_string(), "STLR".to_string(), 7u32)
        .unwrap();
    (admin, token)
}

#[test]
fn metadata_and_views_match() {
    let (_admin, token) = setup_token();

    assert_eq!(token.name(), Some("Stellara".to_string()));
    assert_eq!(token.symbol(), Some("STLR".to_string()));
    assert_eq!(token.decimals(), Some(7));

    let metadata = token.metadata();
    assert_eq!(
        metadata,
        Some(TokenMetadata {
            name: "Stellara".to_string(),
            symbol: "STLR".to_string(),
            decimals: 7,
        })
    );
}

#[test]
fn transfer_updates_balances() {
    let (_admin, mut token) = setup_token();

    let owner = address(10);
    let recipient = address(11);

    token.mint(owner, 1_000i128).unwrap();
    token.transfer(owner, recipient, 250i128).unwrap();

    assert_eq!(token.balance(owner), 750);
    assert_eq!(token.balance(recipient), 250);
}

#[test]
fn approve_and_transfer_from_consumes_allowance() {
    let (_admin, mut token) = setup_token();

    let owner = address(10);
    let spender = address(11);
    let recipient = address(12);

    token.mint(owner, 1_000i128).unwrap();

    let sequence_number = 100u32;

    token
        .approve(owner, spender, 300i128, 200u32, sequence_number)
        .unwrap();
    assert_eq!(token.allowance(owner, spender, sequence_number), 300);

    token
        .transfer_from(spender, owner, recipient, 200i128, sequence_number)
        .unwrap();

    assert_eq!(token.allowance(owner, spender, sequence_number), 100);
    assert_eq!(token.balance(owner), 800);
    assert_eq!(token.balance(recipient), 200);
}

#[test]
fn transfer_to_a_contract_credits_it() {
    let (_admin, mut token) = setup_token();

    let sender = address(10);
    token.mint(sender, 500i128).unwrap();

    let receiver_id = Address::contract(0, 50);

    token.transfer(sender, receiver_id, 125i128).unwrap();

    assert_eq!(token.balance(receiver_id), 125);
    assert_eq!(token.balance(sender), 375);
}

#[test]
fn transfer_hook_failure_does_not_revert() {
    let (_admin, mut token) = setup_token();

    let sender = address(10);
    token.mint(sender, 200i128).unwrap();

    let rejecting_id = Address::contract(0, 51);

    token.transfer(sender, rejecting_id, 75i128).unwrap();

    assert_eq!(token.balance(sender), 125);
    assert_eq!(token.balance(rejecting_id), 75);
}

#[test]
fn token_is_set_up_once() {
    let mut token = TokenContract::new();
    assert_eq!(token.admin(), None);
    assert_eq!(token.name(), None);
    assert_eq!(token.symbol(), None);
    assert_eq!(token.decimals(), None);
    assert_eq!(token.metadata(), None);
    assert_eq!(token.mint(address(10), 5), Err(TokenError::Unauthorized));
    assert_eq!(token.clawback(address(10), 5), Err(TokenError::Unauthorized));
    assert_eq!(token.set_admin(address(2)), Err(TokenError::Unauthorized));
    assert_eq!(
        token.set_authorized(address(10), false),
        Err(TokenError::Unauthorized)
    );
    assert_eq!(
        token.initialize(address(1), "a".to_string(), "b".to_string(), 2),
        Ok(())
    );
    assert_eq!(
        token.initialize(address(2), "c".to_string(), "d".to_string(), 3),
        Err(TokenError::AlreadyInitialized)
    );
    assert_eq!(token.admin(), Some(address(1)));
    assert_eq!(token.name(), Some("a".to_string()));
    assert_eq!(token.set_admin(address(2)), Ok(()));
    assert_eq!(token.admin(), Some(address(2)));
}

#[test]
fn transfer_is_refused_without_change() {
    let (_admin, mut token) = setup_token();
    let a = address(10);
    let b = address(11);
    token.mint(a, 100).unwrap();
    assert_eq!(token.transfer(a, b, -1), Err(TokenError::InvalidAmount));
    assert_eq!(token.transfer(a, b, 101), Err(TokenError::InsufficientBalance));
    token.set_authorized(b, false).unwrap();
    assert!(!token.authorized(b));
    assert!(token.authorized(a));
    assert_eq!(token.transfer(a, b, 1), Err(TokenError::NotAuthorized));
    assert_eq!(token.transfer(b, a, 0), Err(TokenError::NotAuthorized));
    token.set_authorized(b, true).unwrap();
    token.mint(b, i128::MAX).unwrap();
    assert_eq!(token.transfer(a, b, 1), Err(TokenError::ArithmeticOverflow));
    assert_eq!(token.balance(a), 100);
    assert_eq!(token.balance(b), i128::MAX);
    assert_eq!(token.transfer(a, b, 0), Ok(()));
}

#[test]
fn transfer_to_oneself_keeps_the_credit() {
    let (_admin, mut token) = setup_token();
    let a = address(10);
    token.mint(a, 100).unwrap();
    assert_eq!(token.transfer(a, a, 30), Ok(()));
    assert_eq!(token.balance(a), 130);
}

#[test]
fn mint_burn_and_clawback() {
    let (_admin, mut token) = setup_token();
    let a = address(10);
    assert_eq!(token.mint(a, -1), Err(TokenError::InvalidAmount));
    assert_eq!(token.mint(a, 50), Ok(()));
    assert_eq!(token.mint(a, i128::MAX), Err(TokenError::ArithmeticOverflow));
    assert_eq!(token.burn(a, -1), Err(TokenError::InvalidAmount));
    assert_eq!(token.burn(a, 51), Err(TokenError::InsufficientBalance));
    assert_eq!(token.burn(a, 20), Ok(()));
    assert_eq!(token.balance(a), 30);
    assert_eq!(token.clawback(a, 31), Err(TokenError::InsufficientBalance));
    assert_eq!(token.clawback(a, 30), Ok(()));
    assert_eq!(token.balance(a), 0);
    token.set_authorized(a, false).unwrap();
    assert_eq!(token.mint(a, 1), Err(TokenError::NotAuthorized));
    assert_eq!(token.burn(a, 0), Err(TokenError::NotAuthorized));
}

#[test]
fn approve_checks_amount_and_expiration() {
    let (_admin, mut token) = setup_token();
    let a = address(10);
    let s = address(11);
    assert_eq!(token.approve(a, s, -1, 10, 5), Err(TokenError::InvalidAmount));
    assert_eq!(token.approve(a, s, 1, 4, 5), Err(TokenError::ExpirationInPast));
    assert_eq!(token.approve(a, s, 0, 4, 5), Ok(()));
    assert_eq!(token.approve(a, s, 7, 5, 5), Ok(()));
    assert_eq!(token.allowance(a, s, 5), 7);
    assert_eq!(token.allowance(a, s, 6), 0);
    // found expired, the allowance is gone for good
    assert_eq!(token.allowance(a, s, 5), 0);
}

#[test]
fn spending_on_an_allowance() {
    let (_admin, mut token) = setup_token();
    let a = address(10);
    let s = address(11);
    let b = address(12);
    token.mint(a, 100).unwrap();
    token.approve(a, s, 60, 20, 10).unwrap();
    assert_eq!(
        token.transfer_from(s, a, b, -1, 10),
        Err(TokenError::InvalidAmount)
    );
    assert_eq!(
        token.transfer_from(s, a, b, 61, 10),
        Err(TokenError::InsufficientAllowance)
    );
    assert_eq!(
        token.transfer_from(s, a, b, 1, 21),
        Err(TokenError::InsufficientAllowance)
    );
    assert_eq!(
        token.burn_from(s, a, 61, 10),
        Err(TokenError::InsufficientAllowance)
    );
    assert_eq!(token.burn_from(s, a, 10, 10), Ok(()));
    assert_eq!(token.balance(a), 90);
    assert_eq!(token.allowance(a, s, 10), 50);
    token.set_authorized(b, false).unwrap();
    assert_eq!(
        token.transfer_from(s, a, b, 50, 10),
        Err(TokenError::NotAuthorized)
    );
    // the refused transfer has not drawn on the allowance
    assert_eq!(token.allowance(a, s, 10), 50);
    token.set_authorized(b, true).unwrap();
    assert_eq!(token.transfer_from(s, a, b, 50, 10), Ok(()));
    assert_eq!(token.allowance(a, s, 10), 0);
    assert_eq!(token.balance(a), 40);
    assert_eq!(token.balance(b), 50);
    assert_eq!(
        token.burn_from(s, a, 41, 10),
        Err(TokenError::InsufficientAllowance)
    );
    token.approve(a, s, 100, 20, 10).unwrap();
    assert_eq!(
        token.burn_from(s, a, 41, 10),
        Err(TokenError::InsufficientBalance)
    );
    assert_eq!(token.allowance(a, s, 10), 100);
}

#[test]
fn records_follow_the_storage_rules() {
    let mut storage = TokenStorage::new();
    let a = address(10);
    let s = address(11);
    assert!(!has_admin(&storage));
    assert_eq!(require_admin(&storage), Err(TokenError::Unauthorized));
    assert_eq!(balance_of(&storage, &a), 0);
    assert!(authorized(&storage, &a));
    set_balance(&mut storage, &a, 5);
    assert_eq!(balance_of(&storage, &a), 5);
    set_balance(&mut storage, &a, 0);
    assert_eq!(balance_of(&storage, &a), 0);
    set_authorized(&mut storage, &a, false);
    assert!(!authorized(&storage, &a));
    set_allowance(
        &mut storage,
        &a,
        &s,
        &AllowanceData { amount: 9, expiration_ledger: 30 },
    );
    assert_eq!(allowance_amount(&mut storage, &a, &s, 30), 9);
    assert_eq!(allowance_expiration(&mut storage, &a, &s, 30), 30);
    assert_eq!(allowance_amount(&mut storage, &s, &a, 30), 0);
    assert_eq!(allowance_expiration(&mut storage, &a, &s, 31), 0);
    assert_eq!(allowance_amount(&mut storage, &a, &s, 30), 0);
    stellara_ledger::token::storage::set_admin(&mut storage, &a);
    assert!(has_admin(&storage));
    assert_eq!(require_admin(&storage), Ok(a));
    assert_eq!(stellara_ledger::token::storage::admin(&storage), Some(a));
}

#[test]
fn token_error_codes() {
    assert_eq!(TokenError::Unauthorized.code(), 1);
    assert_eq!(TokenError::AlreadyInitialized.code(), 2);
    assert_eq!(TokenError::NotAuthorized.code(), 3);
    assert_eq!(TokenError::InsufficientBalance.code(), 4);
    assert_eq!(TokenError::InsufficientAllowance.code(), 5);
    assert_eq!(TokenError::InvalidAmount.code(), 6);
    assert_eq!(TokenError::ExpirationInPast.code(), 7);
    assert_eq!(TokenError::ArithmeticOverflow.code(), 8);
}
