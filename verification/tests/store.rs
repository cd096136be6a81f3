use multisig::{Address, Key, Store};

#[test]
fn store_starts_empty() {
    let store: Store<u32, i128> = Store::new();
    assert_eq!(store.get(&0), None);
    assert!(!store.contains_key(&0));
}

#[test]
fn store_returns_what_was_set() {
    let mut store: Store<u32, i128> = Store::new();
    store.set(3, 30);
    store.set(1, 10);
    assert_eq!(store.get(&3), Some(&30));
    assert_eq!(store.get(&1), Some(&10));
    assert_eq!(store.get(&2), None);
    assert!(store.contains_key(&1));
    assert!(!store.contains_key(&2));
}

#[test]
fn store_set_replaces_the_value_under_a_key() {
    let mut store: Store<u32, i128> = Store::new();
    store.set(1, 10);
    store.set(2, 20);
    store.set(1, 11);
    assert_eq!(store.get(&1), Some(&11));
    assert_eq!(store.get(&2), Some(&20));
    store.set(2, 21);
    store.set(1, 12);
    assert_eq!(store.get(&1), Some(&12));
    assert_eq!(store.get(&2), Some(&21));
}

#[test]
fn store_keys_of_pairs_are_compared_by_both_parts() {
    let a = Address::account(0, 1);
    let b = Address::account(0, 2);
    let mut store: Store<(u32, Address), bool> = Store::new();
    store.set((0, a), true);
    store.set((1, b), false);
    assert_eq!(store.get(&(0, a)), Some(&true));
    assert_eq!(store.get(&(1, b)), Some(&false));
    assert_eq!(store.get(&(0, b)), None);
    assert_eq!(store.get(&(1, a)), None);
}

#[test]
fn keys_are_the_same_when_equal() {
    assert!(7u32.same(&7));
    assert!(!7u32.same(&8));
    let a = Address::account(1, 2);
    assert!(a.same(&Address::account(1, 2)));
    assert!(!a.same(&Address::contract(1, 2)));
    assert!(!a.same(&Address::account(1, 3)));
    assert!((1u32, a).same(&(1, a)));
    assert!(!(1u32, a).same(&(2, a)));
    assert!(!(1u32, a).same(&(1, Address::account(2, 2))));
}
