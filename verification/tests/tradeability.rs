//! The one-way locked-to-tradeable transition.

use element_ledger::account::AccountId;
use element_ledger::params::LOCK_PERIOD_SECONDS;
use element_ledger::store::ElementStore;
use element_ledger::types::LedgerError;

fn id(tag: u8) -> AccountId {
    AccountId { bytes: [tag; 32] }
}

fn store_with_element(registered_at: i64) -> ElementStore {
    let mut store = ElementStore::new();
    store
        .register_element(
            String::from("LKO"),
            1,
            String::from("uri"),
            id(1),
            registered_at,
            7,
            id(0xAA),
            id(0xBB),
        )
        .unwrap();
    store
}

#[test]
fn tradeable_at_is_registration_plus_lock_period() {
    let store = store_with_element(10_000);
    let rec = store.get_element_info(&String::from("LKO")).unwrap();
    assert_eq!(LOCK_PERIOD_SECONDS, 1800);
    assert_eq!(rec.tradeable_at, 10_000 + 1800);
}

#[test]
fn mark_tradeable_fails_while_locked() {
    let mut store = store_with_element(10_000);
    let key = String::from("LKO");
    assert_eq!(store.mark_tradeable(&key, 10_000).unwrap_err(), LedgerError::StillLocked);
    assert_eq!(store.mark_tradeable(&key, 11_799).unwrap_err(), LedgerError::StillLocked);
    assert!(!store.get_element_info(&key).unwrap().is_tradeable);
}

#[test]
fn mark_tradeable_succeeds_at_the_boundary() {
    let mut store = store_with_element(10_000);
    let key = String::from("LKO");
    assert!(store.mark_tradeable(&key, 11_800).is_ok());
    assert!(store.get_element_info(&key).unwrap().is_tradeable);
}

#[test]
fn mark_tradeable_flips_at_most_once() {
    let mut store = store_with_element(10_000);
    let key = String::from("LKO");
    store.mark_tradeable(&key, 12_000).unwrap();
    let r = store.mark_tradeable(&key, 13_000);
    assert_eq!(r.unwrap_err(), LedgerError::AlreadyTradeable);
    assert!(store.get_element_info(&key).unwrap().is_tradeable);
}

#[test]
fn mark_tradeable_unknown_key_fails() {
    let mut store = store_with_element(10_000);
    let r = store.mark_tradeable(&String::from("nope"), 50_000);
    assert_eq!(r.unwrap_err(), LedgerError::ElementNotFound);
}

#[test]
fn anyone_may_flip_the_gate() {
    let mut store = store_with_element(0);
    let key = String::from("LKO");
    assert!(store.mark_tradeable(&key, 1800).is_ok());
}
