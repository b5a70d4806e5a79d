use stellara_ledger::address::Address;
use stellara_ledger::store::Store;

#[test]
fn store_keeps_one_value_per_key() {
    let mut store: Store<u32, i128> = Store::new();
    assert!(!store.has(&1));
    assert_eq!(store.get(&1), None);
    store.set(1, 10);
    store.set(2, 20);
    store.set(1, 11);
    assert!(store.has(&1));
    assert_eq!(store.get(&1), Some(&11));
    assert_eq!(store.get(&2), Some(&20));
    store.remove(&1);
    assert!(!store.has(&1));
    assert_eq!(store.get(&2), Some(&20));
    store.remove(&1);
    assert_eq!(store.get(&2), Some(&20));
}

#[test]
fn store_tells_keys_by_their_whole_identity() {
    let mut by_pair: Store<(Address, u32), bool> = Store::new();
    let a = Address::account(0, 1);
    let b = Address::contract(0, 1);
    by_pair.set((a, 0), true);
    assert!(by_pair.has(&(a, 0)));
    assert!(!by_pair.has(&(a, 1)));
    assert!(!by_pair.has(&(b, 0)));
    assert!(!by_pair.has(&(Address::account(1, 1), 0)));

    let mut by_text: Store<String, u32> = Store::new();
    by_text.set("tx_001".to_string(), 1);
    by_text.set("tx_002".to_string(), 2);
    assert_eq!(by_text.get(&"tx_001".to_string()), Some(&1));
    assert_eq!(by_text.get(&"tx_002".to_string()), Some(&2));
    assert_eq!(by_text.get(&"tx_00".to_string()), None);
}
