use example_project::pubkey::Pubkey;
use example_project::store::AccountStore;

fn address_of(byte: u8) -> Pubkey {
    Pubkey::new_from_array([byte; 32])
}

#[test]
fn new_store_is_empty() {
    let store = AccountStore::new();
    assert_eq!(store.len(), 0);
    assert!(!store.contains(&address_of(1)));
    assert_eq!(store.get(&address_of(1)), None);
}

#[test]
fn insert_then_get() {
    let mut store = AccountStore::new();
    store.insert(address_of(1), vec![1, 2, 3]);
    store.insert(address_of(2), vec![]);
    assert_eq!(store.len(), 2);
    assert!(store.contains(&address_of(1)));
    assert_eq!(store.get(&address_of(1)), Some(&vec![1, 2, 3]));
    assert_eq!(store.get(&address_of(2)), Some(&vec![]));
    assert_eq!(store.get(&address_of(3)), None);
}

#[test]
fn insert_replaces_what_was_there() {
    let mut store = AccountStore::new();
    store.insert(address_of(1), vec![1]);
    store.insert(address_of(2), vec![2]);
    store.insert(address_of(1), vec![9, 9]);
    assert_eq!(store.len(), 2);
    assert_eq!(store.get(&address_of(1)), Some(&vec![9, 9]));
    assert_eq!(store.get(&address_of(2)), Some(&vec![2]));
}

#[test]
fn remove_frees_the_address() {
    let mut store = AccountStore::new();
    store.insert(address_of(1), vec![1]);
    store.insert(address_of(2), vec![2]);
    store.insert(address_of(3), vec![3]);
    assert!(store.remove(&address_of(2)));
    assert!(!store.remove(&address_of(2)));
    assert!(!store.remove(&address_of(4)));
    assert_eq!(store.len(), 2);
    assert_eq!(store.get(&address_of(1)), Some(&vec![1]));
    assert_eq!(store.get(&address_of(2)), None);
    assert_eq!(store.get(&address_of(3)), Some(&vec![3]));
    store.insert(address_of(2), vec![7]);
    assert_eq!(store.get(&address_of(2)), Some(&vec![7]));
    assert_eq!(store.len(), 3);
}

#[test]
fn addresses_that_differ_in_one_byte_are_different() {
    let mut store = AccountStore::new();
    let mut bytes = [0u8; 32];
    store.insert(Pubkey::new_from_array(bytes), vec![0]);
    bytes[31] = 1;
    assert!(!store.contains(&Pubkey::new_from_array(bytes)));
    store.insert(Pubkey::new_from_array(bytes), vec![1]);
    assert_eq!(store.len(), 2);
    assert_eq!(store.get(&Pubkey::new_from_array([0u8; 32])), Some(&vec![0]));
}
