//! Registration, co-governance and validation behaviour.

use element_ledger::account::AccountId;
use element_ledger::params::{LOCK_PERIOD_SECONDS, REGISTRATION_FEE};
use element_ledger::store::ElementStore;
use element_ledger::types::{LedgerError, RegisterOutcome};

fn id(tag: u8) -> AccountId {
    AccountId { bytes: [tag; 32] }
}

fn register(
    store: &mut ElementStore,
    key: &str,
    rarity: u8,
    caller: AccountId,
    now: i64,
    epoch: u64,
) -> Result<RegisterOutcome, LedgerError> {
    store.register_element(
        String::from(key),
        rarity,
        String::from("https://example.invalid/meta.json"),
        caller,
        now,
        epoch,
        id(0xAA),
        id(0xBB),
    )
}

#[test]
fn fresh_registration_creates_locked_record() {
    let mut store = ElementStore::new();
    let r = register(&mut store, "LKO", 2, id(1), 1_000, 77);
    assert!(matches!(r, Ok(RegisterOutcome::Registered { .. })));

    let rec = store.get_element_info(&String::from("LKO")).unwrap();
    assert_eq!(rec.element_id, "LKO");
    assert_eq!(rec.governor.bytes, [1u8; 32]);
    assert!(rec.co_governor.is_none());
    assert_eq!(rec.registered_at, 1_000);
    assert_eq!(rec.registration_epoch, 77);
    assert_eq!(rec.tradeable_at, 1_000 + LOCK_PERIOD_SECONDS);
    assert!(!rec.is_tradeable);
    assert_eq!(rec.rarity, 2);
    assert_eq!(rec.total_minted, 0);
    assert_eq!(rec.total_taxed, 0);
    assert_eq!(rec.treasury_balance, 0);
}

#[test]
fn registered_outcome_carries_metadata_uri() {
    let mut store = ElementStore::new();
    let r = register(&mut store, "LKAu", 3, id(1), 50, 9);
    match r {
        Ok(RegisterOutcome::Registered { metadata_uri }) => {
            assert_eq!(metadata_uri, "https://example.invalid/meta.json");
        }
        other => panic!("expected Registered, got {:?}", other),
    }
}

#[test]
fn same_epoch_second_registration_attaches_co_governor() {
    let mut store = ElementStore::new();
    register(&mut store, "LKO", 1, id(1), 1_000, 77).unwrap();
    let r = register(&mut store, "LKO", 1, id(2), 1_005, 77);
    assert!(matches!(r, Ok(RegisterOutcome::CoGovernorAttached)));

    let rec = store.get_element_info(&String::from("LKO")).unwrap();
    assert_eq!(rec.governor.bytes, [1u8; 32]);
    assert_eq!(rec.co_governor.map(|c| c.bytes), Some([2u8; 32]));
}

#[test]
fn different_epoch_second_registration_is_rejected() {
    let mut store = ElementStore::new();
    register(&mut store, "LKO", 1, id(1), 1_000, 77).unwrap();
    let r = register(&mut store, "LKO", 1, id(2), 2_000, 78);
    assert_eq!(r.unwrap_err(), LedgerError::AlreadyRegistered);

    let rec = store.get_element_info(&String::from("LKO")).unwrap();
    assert!(rec.co_governor.is_none());
}

#[test]
fn co_governor_slot_fills_only_once() {
    let mut store = ElementStore::new();
    register(&mut store, "LKO", 1, id(1), 1_000, 77).unwrap();
    register(&mut store, "LKO", 1, id(2), 1_001, 77).unwrap();
    let r = register(&mut store, "LKO", 1, id(3), 1_002, 77);
    assert_eq!(r.unwrap_err(), LedgerError::CoGovernorAlreadyAssigned);

    let rec = store.get_element_info(&String::from("LKO")).unwrap();
    assert_eq!(rec.co_governor.map(|c| c.bytes), Some([2u8; 32]));
}

#[test]
fn overlong_key_is_rejected() {
    let mut store = ElementStore::new();
    let key = "abcdefghijklmnopqrstuvwxyz0123456"; // 33 characters
    let r = register(&mut store, key, 1, id(1), 1_000, 77);
    assert_eq!(r.unwrap_err(), LedgerError::ElementIdTooLong);
    assert!(store.get_element_info(&String::from(key)).is_err());
}

#[test]
fn key_of_exactly_32_characters_is_accepted() {
    let mut store = ElementStore::new();
    let key = "abcdefghijklmnopqrstuvwxyz012345"; // 32 characters
    let r = register(&mut store, key, 0, id(1), 1_000, 77);
    assert!(matches!(r, Ok(RegisterOutcome::Registered { .. })));
}

#[test]
fn invalid_rarity_is_rejected() {
    let mut store = ElementStore::new();
    let r = register(&mut store, "LKO", 4, id(1), 1_000, 77);
    assert_eq!(r.unwrap_err(), LedgerError::InvalidRarity);
    assert!(store.get_element_info(&String::from("LKO")).is_err());
}

#[test]
fn distinct_keys_coexist() {
    let mut store = ElementStore::new();
    register(&mut store, "LKO", 1, id(1), 1_000, 77).unwrap();
    register(&mut store, "LKAu", 3, id(4), 1_000, 77).unwrap();
    assert_eq!(store.get_element_info(&String::from("LKO")).unwrap().rarity, 1);
    assert_eq!(store.get_element_info(&String::from("LKAu")).unwrap().rarity, 3);
}

#[test]
fn unknown_key_lookup_fails() {
    let store = ElementStore::new();
    let r = store.get_element_info(&String::from("missing"));
    assert_eq!(r.unwrap_err(), LedgerError::ElementNotFound);
}

#[test]
fn registration_fee_is_ten_units_of_a_billion() {
    assert_eq!(REGISTRATION_FEE, 10_000_000_000);
}
