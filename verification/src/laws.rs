//! The laws of the economy, proved over the spec-level transitions.
//!
//! Each lemma here states a cross-operation guarantee of the model that the
//! executable operations implement exactly; together with
//! [`crate::model::lemma_fee_split`] they are the public face of what the
//! library promises beyond the per-operation contracts.

use vstd::prelude::*;

use crate::codec::BurnProofModel;
use crate::model::{
    has_key, history_of, key_index, lemma_key_index_unique, new_element, spec_bridge_to_chain,
    spec_bridge_to_ingame, spec_mark_tradeable, spec_mint, spec_player_bridge_to_chain,
    spec_register, ElementModel, EntryModel, RegisterOutcomeModel, StoreModel,
};
use crate::params::LOCK_PERIOD_SECONDS;
use crate::sig::burn_proof_ok;
use crate::types::LedgerError;

verus! {

/// Registering a fresh valid key creates the record; a second registration
/// of the same key from the same sequencing epoch attaches the second
/// caller as co-governor without replacing the governor, while a second
/// registration from any other epoch is rejected with `AlreadyRegistered`
/// and changes nothing.
pub proof fn lemma_same_epoch_coregistration(
    m: StoreModel,
    key: Seq<char>,
    rarity: u8,
    rarity2: u8,
    uri1: Seq<char>,
    uri2: Seq<char>,
    c1: Seq<u8>,
    c2: Seq<u8>,
    now1: i64,
    now2: i64,
    epoch: u64,
    other_epoch: u64,
    unit1: Seq<u8>,
    unit2: Seq<u8>,
    tre1: Seq<u8>,
    tre2: Seq<u8>,
)
    requires
        m.wf(),
        !has_key(m.elements, key),
        key.len() <= 32,
        rarity <= 3,
        rarity2 <= 3,
        other_epoch != epoch,
    ensures
        ({
            let (m1, r1) = spec_register(m, key, rarity, uri1, c1, now1, epoch, unit1, tre1);
            let (m2, r2) = spec_register(m1, key, rarity2, uri2, c2, now2, epoch, unit2, tre2);
            let (m3, r3) = spec_register(
                m1,
                key,
                rarity2,
                uri2,
                c2,
                now2,
                other_epoch,
                unit2,
                tre2,
            );
            &&& r1 == Ok::<RegisterOutcomeModel, LedgerError>(
                RegisterOutcomeModel::Registered { metadata_uri: uri1 },
            )
            &&& r2 == Ok::<RegisterOutcomeModel, LedgerError>(
                RegisterOutcomeModel::CoGovernorAttached,
            )
            &&& m2.elem(key).governor == c1
            &&& m2.elem(key).co_governor == Some(c2)
            &&& r3 == Err::<RegisterOutcomeModel, LedgerError>(LedgerError::AlreadyRegistered)
            &&& m3 == m1
        }),
{
    let (m1, r1) = spec_register(m, key, rarity, uri1, c1, now1, epoch, unit1, tre1);
    let n = m.elements.len() as int;
    let fresh = new_element(key, rarity, c1, now1, epoch, unit1, tre1);
    assert(m1.elements == m.elements.push(fresh));
    assert forall|i: int, j: int| 0 <= i < j < m1.elements.len() implies m1.elements[i].element_id
        != m1.elements[j].element_id by {
        if j < n {
            assert(m.elements[i].element_id != m.elements[j].element_id);
        } else {
            assert(m1.elements[j].element_id == key);
            assert(m1.elements[i] == m.elements[i]);
            assert(!(0 <= i < m.elements.len() && m.elements[i].element_id == key));
        }
    }
    lemma_key_index_unique(m1.elements, key, n);
    let (m2, r2) = spec_register(m1, key, rarity2, uri2, c2, now2, epoch, unit2, tre2);
    assert(m2.elements[n] == ElementModel { co_governor: Some(c2), ..fresh });
    assert forall|i: int, j: int| 0 <= i < j < m2.elements.len() implies m2.elements[i].element_id
        != m2.elements[j].element_id by {
        assert(m2.elements[i].element_id == m1.elements[i].element_id);
        assert(m2.elements[j].element_id == m1.elements[j].element_id);
    }
    lemma_key_index_unique(m2.elements, key, n);
}

/// The lock gate: a locked element's `tradeable_at` lies exactly one lock
/// period after its registration; `mark_tradeable` fails with `StillLocked`
/// for every call before that instant and changes nothing; the first call
/// at or after it succeeds and flips the flag; and every later call fails
/// with `AlreadyTradeable`, so the transition happens at most once.
pub proof fn lemma_lock_gate(m: StoreModel, key: Seq<char>, now1: i64, now2: i64)
    requires
        m.wf(),
        has_key(m.elements, key),
        !m.elem(key).is_tradeable,
    ensures
        m.elem(key).tradeable_at == m.elem(key).registered_at + LOCK_PERIOD_SECONDS,
        now1 < m.elem(key).tradeable_at ==> spec_mark_tradeable(m, key, now1) == (
            m,
            Err::<(), LedgerError>(LedgerError::StillLocked),
        ),
        now1 >= m.elem(key).tradeable_at ==> ({
            let (m1, r1) = spec_mark_tradeable(m, key, now1);
            &&& r1 == Ok::<(), LedgerError>(())
            &&& m1.elem(key).is_tradeable
            &&& spec_mark_tradeable(m1, key, now2) == (
                m1,
                Err::<(), LedgerError>(LedgerError::AlreadyTradeable),
            )
        }),
{
    let i = key_index(m.elements, key);
    assert(0 <= i < m.elements.len() && m.elements[i].element_id == key);
    assert(m.elements[i].wf());
    if now1 >= m.elem(key).tradeable_at {
        let (m1, r1) = spec_mark_tradeable(m, key, now1);
        let e = m.elements[i];
        assert(m1.elements == m.elements.update(i, ElementModel { is_tradeable: true, ..e }));
        assert forall|a: int, b: int| 0 <= a < b < m1.elements.len() implies m1.elements[
            a
        ].element_id != m1.elements[b].element_id by {
            assert(m1.elements[a].element_id == m.elements[a].element_id);
            assert(m1.elements[b].element_id == m.elements[b].element_id);
        }
        lemma_key_index_unique(m1.elements, key, i);
    }
}

/// AuthorizationError is absolute: a bridge call whose burn attestation
/// does not verify against the stated authority leaves the store untouched
/// — no log entry appears and no balance moves — on both to-chain paths.
pub proof fn lemma_unverified_proof_moves_nothing(
    m: StoreModel,
    key: Seq<char>,
    amount: u64,
    actor: Seq<u8>,
    now: i64,
    signature: Seq<u8>,
    authority: Seq<u8>,
)
    requires
        !burn_proof_ok(
            BurnProofModel { element_id: key, amount, actor, timestamp: now },
            signature,
            authority,
        ),
    ensures
        ({
            let (m1, r1) = spec_bridge_to_chain(m, key, amount, actor, now, signature, authority);
            m1 == m && r1 is Err
        }),
        ({
            let (m2, r2) = spec_player_bridge_to_chain(
                m,
                key,
                amount,
                actor,
                now,
                signature,
                authority,
            );
            m2 == m && r2 is Err
        }),
{
}

/// What a single operation may do to a record that already exists: the key,
/// the governance identities and every registration-time field are
/// immutable, a filled co-governor slot stays filled as it is,
/// `is_tradeable` never reverts, and the mint accumulators never decrease.
/// Only `treasury_balance` may move both ways: taxes fill it and bridges
/// drain it.
pub open spec fn record_evolves(e1: ElementModel, e2: ElementModel) -> bool {
    &&& e2.element_id == e1.element_id
    &&& e2.governor == e1.governor
    &&& (e1.co_governor is Some ==> e2.co_governor == e1.co_governor)
    &&& e2.registered_at == e1.registered_at
    &&& e2.registration_epoch == e1.registration_epoch
    &&& e2.tradeable_at == e1.tradeable_at
    &&& (e1.is_tradeable ==> e2.is_tradeable)
    &&& e2.rarity == e1.rarity
    &&& e2.total_minted >= e1.total_minted
    &&& e2.total_taxed >= e1.total_taxed
    &&& e2.issuance_unit == e1.issuance_unit
    &&& e2.treasury_account == e1.treasury_account
}

/// What a single operation may do to the store: records are never deleted,
/// reordered or re-keyed, each existing record only evolves as
/// [`record_evolves`] allows, and the log only grows at the end.
pub open spec fn store_evolves(m1: StoreModel, m2: StoreModel) -> bool {
    &&& m2.elements.len() >= m1.elements.len()
    &&& (forall|i: int|
        0 <= i < m1.elements.len() ==> record_evolves(
            m1.elements[i],
            #[trigger] m2.elements[i],
        ))
    &&& m1.log.is_prefix_of(m2.log)
}

/// Every operation of the economy, on every input, only evolves the store.
pub proof fn lemma_register_evolves(
    m: StoreModel,
    key: Seq<char>,
    rarity: u8,
    uri: Seq<char>,
    caller: Seq<u8>,
    now: i64,
    epoch: u64,
    unit: Seq<u8>,
    tre: Seq<u8>,
)
    ensures
        store_evolves(m, spec_register(m, key, rarity, uri, caller, now, epoch, unit, tre).0),
{
    let m2 = spec_register(m, key, rarity, uri, caller, now, epoch, unit, tre).0;
    assert(m.log.is_prefix_of(m2.log)) by {
        assert(m2.log.subrange(0, m.log.len() as int) =~= m.log);
    }
}

/// See [`lemma_register_evolves`].
pub proof fn lemma_mark_tradeable_evolves(m: StoreModel, key: Seq<char>, now: i64)
    ensures
        store_evolves(m, spec_mark_tradeable(m, key, now).0),
{
    let m2 = spec_mark_tradeable(m, key, now).0;
    assert(m.log.is_prefix_of(m2.log)) by {
        assert(m2.log.subrange(0, m.log.len() as int) =~= m.log);
    }
}

/// See [`lemma_register_evolves`].
pub proof fn lemma_mint_evolves(m: StoreModel, key: Seq<char>, raw_amount: u64)
    ensures
        store_evolves(m, spec_mint(m, key, raw_amount).0),
{
    let m2 = spec_mint(m, key, raw_amount).0;
    assert(m.log.is_prefix_of(m2.log)) by {
        assert(m2.log.subrange(0, m.log.len() as int) =~= m.log);
    }
}

/// See [`lemma_register_evolves`].
pub proof fn lemma_bridge_to_chain_evolves(
    m: StoreModel,
    key: Seq<char>,
    amount: u64,
    governor: Seq<u8>,
    now: i64,
    signature: Seq<u8>,
    authority: Seq<u8>,
)
    ensures
        store_evolves(
            m,
            spec_bridge_to_chain(m, key, amount, governor, now, signature, authority).0,
        ),
{
    let m2 = spec_bridge_to_chain(m, key, amount, governor, now, signature, authority).0;
    assert(m.log.is_prefix_of(m2.log)) by {
        assert(m2.log.subrange(0, m.log.len() as int) =~= m.log);
    }
}

/// See [`lemma_register_evolves`].
pub proof fn lemma_player_bridge_to_chain_evolves(
    m: StoreModel,
    key: Seq<char>,
    amount: u64,
    player: Seq<u8>,
    now: i64,
    signature: Seq<u8>,
    authority: Seq<u8>,
)
    ensures
        store_evolves(
            m,
            spec_player_bridge_to_chain(m, key, amount, player, now, signature, authority).0,
        ),
{
    let m2 = spec_player_bridge_to_chain(m, key, amount, player, now, signature, authority).0;
    assert(m.log.is_prefix_of(m2.log)) by {
        assert(m2.log.subrange(0, m.log.len() as int) =~= m.log);
    }
}

/// See [`lemma_register_evolves`].
pub proof fn lemma_bridge_to_ingame_evolves(
    m: StoreModel,
    key: Seq<char>,
    amount: u64,
    caller: Seq<u8>,
    now: i64,
)
    ensures
        store_evolves(m, spec_bridge_to_ingame(m, key, amount, caller, now).0),
{
    let m2 = spec_bridge_to_ingame(m, key, amount, caller, now).0;
    assert(m.log.is_prefix_of(m2.log)) by {
        assert(m2.log.subrange(0, m.log.len() as int) =~= m.log);
    }
}

/// The bridge log is append-only, and therefore so is every element's
/// history: whatever entries a key's history held before an operation, the
/// history afterwards begins with exactly those entries, in the same order.
pub proof fn lemma_history_append_only(
    log1: Seq<EntryModel>,
    log2: Seq<EntryModel>,
    key: Seq<char>,
)
    requires
        log1.is_prefix_of(log2),
    ensures
        history_of(log1, key).is_prefix_of(history_of(log2, key)),
{
    log1.lemma_filter_monotone(log2, |e: EntryModel| e.element_id == key);
}

} // verus!
