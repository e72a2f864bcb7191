//! The proof-gated bridge: fee splitting, rejection of bad attestations,
//! and the append-only history.

use ed25519_dalek::{Signer, SigningKey};

use element_ledger::account::AccountId;
use element_ledger::codec::{encode_burn_proof, BurnProof};
use element_ledger::store::ElementStore;
use element_ledger::types::{BridgeDirection, LedgerError};

fn id(tag: u8) -> AccountId {
    AccountId { bytes: [tag; 32] }
}

fn backend_key() -> SigningKey {
    SigningKey::from_bytes(&[42u8; 32])
}

fn authority() -> AccountId {
    AccountId { bytes: backend_key().verifying_key().to_bytes() }
}

fn sign_proof(key: &str, amount: u64, actor: AccountId, timestamp: i64) -> [u8; 64] {
    let claim = BurnProof {
        element_id: String::from(key),
        amount,
        actor,
        timestamp,
    };
    let message = encode_burn_proof(&claim);
    backend_key().sign(&message).to_bytes()
}

/// A store with one element whose treasury balance was filled by taxed mints.
fn funded_store(treasury: u64) -> ElementStore {
    let mut store = ElementStore::new();
    store
        .register_element(
            String::from("LKO"),
            1,
            String::from("uri"),
            id(1),
            1_000,
            7,
            id(0xAA),
            id(0xBB),
        )
        .unwrap();
    // Each locked mint of 10 * n adds n of tax to the treasury.
    store.mint(&String::from("LKO"), treasury * 10).unwrap();
    assert_eq!(store.get_element_info(&String::from("LKO")).unwrap().treasury_balance, treasury);
    store
}

#[test]
fn governor_bridge_moves_the_full_amount_fee_free() {
    let mut store = funded_store(1_000);
    let key = String::from("LKO");
    let sig = sign_proof("LKO", 400, id(1), 5_000);
    let entry = store.bridge_to_chain(&key, 400, id(1), 5_000, &sig, &authority()).unwrap();
    assert_eq!(entry.element_id, "LKO");
    assert_eq!(entry.direction, BridgeDirection::ToChain);
    assert_eq!(entry.amount, 400);
    assert_eq!(entry.actor.bytes, [1u8; 32]);
    assert_eq!(entry.timestamp, 5_000);
    assert_eq!(store.get_element_info(&key).unwrap().treasury_balance, 600);
}

#[test]
fn player_bridge_splits_the_documented_fees() {
    let mut store = funded_store(1_000_000);
    let key = String::from("LKO");
    let sig = sign_proof("LKO", 1_000_000, id(9), 5_000);
    let out = store
        .player_bridge_to_chain(&key, 1_000_000, id(9), 5_000, &sig, &authority())
        .unwrap();
    assert_eq!(out.total_fee, 30_000);
    assert_eq!(out.governor_fee, 5_000);
    assert_eq!(out.dev_fee, 25_000);
    assert_eq!(out.player_amount, 970_000);
    // Everything disbursed left the treasury; the shares sum exactly here.
    assert_eq!(store.get_element_info(&key).unwrap().treasury_balance, 0);
}

#[test]
fn fee_shares_can_undershoot_the_total_fee() {
    // At amount 35 the floored shares lose what the floored total keeps:
    // total = 1 while governor + dev = 0. The residual stays in the treasury.
    let mut store = funded_store(100);
    let key = String::from("LKO");
    let sig = sign_proof("LKO", 35, id(9), 5_000);
    let out = store.player_bridge_to_chain(&key, 35, id(9), 5_000, &sig, &authority()).unwrap();
    assert_eq!(out.total_fee, 1);
    assert_eq!(out.governor_fee, 0);
    assert_eq!(out.dev_fee, 0);
    assert_eq!(out.player_amount, 34);
    assert!(out.governor_fee + out.dev_fee < out.total_fee);
    assert_eq!(store.get_element_info(&key).unwrap().treasury_balance, 100 - 34);
}

#[test]
fn corrupted_signature_rejects_and_moves_nothing() {
    let mut store = funded_store(1_000);
    let key = String::from("LKO");
    let mut sig = sign_proof("LKO", 400, id(1), 5_000);
    sig[3] ^= 0x40;
    let r = store.bridge_to_chain(&key, 400, id(1), 5_000, &sig, &authority());
    assert_eq!(r.unwrap_err(), LedgerError::InvalidBurnProof);
    assert_eq!(store.get_element_info(&key).unwrap().treasury_balance, 1_000);
    assert!(store.get_bridge_history(&key).is_empty());
}

#[test]
fn signature_over_other_fields_is_rejected() {
    // A signature binding amount 400 cannot authorize 500: the encoding
    // binds every field of the claim.
    let mut store = funded_store(1_000);
    let key = String::from("LKO");
    let sig = sign_proof("LKO", 400, id(1), 5_000);
    let r = store.bridge_to_chain(&key, 500, id(1), 5_000, &sig, &authority());
    assert_eq!(r.unwrap_err(), LedgerError::InvalidBurnProof);
    let r = store.bridge_to_chain(&key, 400, id(2), 5_000, &sig, &authority());
    assert_eq!(r.unwrap_err(), LedgerError::InvalidBurnProof);
    let r = store.bridge_to_chain(&key, 400, id(1), 5_001, &sig, &authority());
    assert_eq!(r.unwrap_err(), LedgerError::InvalidBurnProof);
    assert!(store.get_bridge_history(&key).is_empty());
}

#[test]
fn null_authority_is_rejected() {
    let mut store = funded_store(1_000);
    let key = String::from("LKO");
    let sig = sign_proof("LKO", 400, id(1), 5_000);
    let r = store.bridge_to_chain(&key, 400, id(1), 5_000, &sig, &AccountId::zero());
    assert_eq!(r.unwrap_err(), LedgerError::InvalidBurnProof);
    assert!(store.get_bridge_history(&key).is_empty());
}

#[test]
fn wrong_authority_is_rejected() {
    let mut store = funded_store(1_000);
    let key = String::from("LKO");
    let sig = sign_proof("LKO", 400, id(1), 5_000);
    let other = AccountId { bytes: SigningKey::from_bytes(&[7u8; 32]).verifying_key().to_bytes() };
    let r = store.bridge_to_chain(&key, 400, id(1), 5_000, &sig, &other);
    assert_eq!(r.unwrap_err(), LedgerError::InvalidBurnProof);
}

#[test]
fn zero_amount_bridges_are_rejected() {
    let mut store = funded_store(1_000);
    let key = String::from("LKO");
    let sig = sign_proof("LKO", 0, id(1), 5_000);
    assert_eq!(
        store.bridge_to_chain(&key, 0, id(1), 5_000, &sig, &authority()).unwrap_err(),
        LedgerError::InvalidAmount
    );
    assert_eq!(
        store.player_bridge_to_chain(&key, 0, id(1), 5_000, &sig, &authority()).unwrap_err(),
        LedgerError::InvalidAmount
    );
    assert_eq!(
        store.bridge_to_ingame(&key, 0, id(1), 5_000).unwrap_err(),
        LedgerError::InvalidAmount
    );
}

#[test]
fn insufficient_treasury_aborts_without_an_entry() {
    let mut store = funded_store(100);
    let key = String::from("LKO");
    let sig = sign_proof("LKO", 400, id(1), 5_000);
    let r = store.bridge_to_chain(&key, 400, id(1), 5_000, &sig, &authority());
    assert_eq!(r.unwrap_err(), LedgerError::ArithmeticError);
    assert_eq!(store.get_element_info(&key).unwrap().treasury_balance, 100);
    assert!(store.get_bridge_history(&key).is_empty());
}

#[test]
fn bridge_to_ingame_records_without_touching_the_treasury() {
    let mut store = funded_store(1_000);
    let key = String::from("LKO");
    let entry = store.bridge_to_ingame(&key, 250, id(5), 6_000).unwrap();
    assert_eq!(entry.direction, BridgeDirection::ToIngame);
    assert_eq!(entry.amount, 250);
    assert_eq!(entry.actor.bytes, [5u8; 32]);
    assert_eq!(store.get_element_info(&key).unwrap().treasury_balance, 1_000);
    assert_eq!(store.get_bridge_history(&key).len(), 1);
}

#[test]
fn history_is_append_only_and_per_key() {
    let mut store = funded_store(1_000);
    let key = String::from("LKO");

    store.bridge_to_ingame(&key, 11, id(5), 6_000).unwrap();
    let sig = sign_proof("LKO", 400, id(1), 6_001);
    store.bridge_to_chain(&key, 400, id(1), 6_001, &sig, &authority()).unwrap();

    let before: Vec<(u64, i64)> = store
        .get_bridge_history(&key)
        .iter()
        .map(|e| (e.amount, e.timestamp))
        .collect();
    assert_eq!(before, vec![(11, 6_000), (400, 6_001)]);

    // Later operations, on this key and on others, only ever append.
    store.bridge_to_ingame(&String::from("other"), 99, id(6), 6_002).unwrap();
    store.bridge_to_ingame(&key, 13, id(5), 6_003).unwrap();

    let after: Vec<(u64, i64)> = store
        .get_bridge_history(&key)
        .iter()
        .map(|e| (e.amount, e.timestamp))
        .collect();
    assert_eq!(&after[..2], &before[..]);
    assert_eq!(after[2], (13, 6_003));

    // The other key's history holds only its own entry.
    let other = store.get_bridge_history(&String::from("other"));
    assert_eq!(other.len(), 1);
    assert_eq!(other[0].amount, 99);
}
