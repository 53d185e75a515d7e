use simple_program::addr::ipv4;
use simple_program::policy::{PolicyError, PolicyStore, POLICY_CAPACITY};

#[test]
fn inserted_addresses_are_blocked_and_others_allowed() {
    let mut store = PolicyStore::with_default_capacity();
    let a = ipv4(1, 1, 1, 1);
    let b = ipv4(10, 0, 0, 5);
    assert_eq!(store.insert(a, 0), Ok(()));
    assert_eq!(store.insert(b, 7), Ok(()));
    assert!(store.lookup(a));
    assert!(store.lookup(b));
    assert!(!store.lookup(ipv4(8, 8, 8, 8)));
    assert!(!store.lookup(0));
    assert_eq!(store.len(), 2);
}

#[test]
fn empty_store_blocks_nothing() {
    let store = PolicyStore::new(4);
    assert!(!store.lookup(ipv4(1, 1, 1, 1)));
    assert_eq!(store.len(), 0);
}

#[test]
fn capacity_boundary_refuses_one_more_distinct_address() {
    let mut store = PolicyStore::with_default_capacity();
    for i in 0..POLICY_CAPACITY as u32 {
        assert_eq!(store.insert(i, 0), Ok(()));
    }
    assert_eq!(store.len(), POLICY_CAPACITY);
    assert_eq!(store.insert(POLICY_CAPACITY as u32, 0), Err(PolicyError::CapacityExceeded));
    assert!(!store.lookup(POLICY_CAPACITY as u32));
    assert_eq!(store.len(), POLICY_CAPACITY);
    // an address already present is updated even when the table is full
    assert_eq!(store.insert(5, 9), Ok(()));
}

#[test]
fn small_capacity_boundary() {
    let mut store = PolicyStore::new(2);
    assert_eq!(store.insert(1, 0), Ok(()));
    assert_eq!(store.insert(2, 0), Ok(()));
    assert_eq!(store.insert(3, 0), Err(PolicyError::CapacityExceeded));
    assert!(store.remove(1));
    assert!(!store.remove(1));
    assert!(!store.lookup(1));
    assert_eq!(store.insert(3, 0), Ok(()));
    assert!(store.lookup(3));
}

#[test]
fn from_addresses_counts_repeats_once() {
    let addrs = vec![ipv4(1, 1, 1, 1), ipv4(1, 1, 1, 1), ipv4(9, 9, 9, 9)];
    let store = PolicyStore::from_addresses(&addrs).unwrap();
    assert_eq!(store.len(), 2);
    assert!(store.lookup(ipv4(9, 9, 9, 9)));
    assert!(!store.lookup(ipv4(8, 8, 8, 8)));
}

#[test]
fn from_addresses_over_capacity_fails() {
    let addrs: Vec<u32> = (0..(POLICY_CAPACITY as u32 + 1)).collect();
    assert!(matches!(PolicyStore::from_addresses(&addrs), Err(PolicyError::CapacityExceeded)));
    let fits: Vec<u32> = (0..POLICY_CAPACITY as u32).collect();
    assert!(PolicyStore::from_addresses(&fits).is_ok());
}

#[test]
fn ipv4_builds_host_order() {
    assert_eq!(ipv4(1, 1, 1, 1), 0x0101_0101);
    assert_eq!(ipv4(192, 168, 0, 1), 0xC0A8_0001);
}
