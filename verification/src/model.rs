//! The mathematical model of the economy.
//!
//! Every public operation of [`crate::store::ElementStore`] is specified as a
//! pure transition function from a [`StoreModel`] and the call's inputs to
//! the next model and the call's result. The executable code is proved to
//! implement these functions exactly, so all laws of the economy are stated
//! and proved at this level.

use vstd::prelude::*;

use crate::codec::BurnProofModel;
use crate::params::{
    BPS_DENOMINATOR, DEV_TREASURY_FEE_BPS, GOVERNOR_FEE_BPS, LOCK_PERIOD_SECONDS, TAX_RATE_BPS,
    TOTAL_BRIDGE_FEE_BPS,
};
use crate::sig::burn_proof_ok;
use crate::types::{BridgeDirection, LedgerError, MintOutcome, PlayerBridgeOutcome};

verus! {

/// Spec-level image of one element record.
#[verifier::ext_equal]
pub struct ElementModel {
    pub element_id: Seq<char>,
    pub governor: Seq<u8>,
    pub co_governor: Option<Seq<u8>>,
    pub registered_at: i64,
    pub registration_epoch: u64,
    pub tradeable_at: i64,
    pub is_tradeable: bool,
    pub rarity: u8,
    pub total_minted: u64,
    pub total_taxed: u64,
    pub treasury_balance: u64,
    pub issuance_unit: Seq<u8>,
    pub treasury_account: Seq<u8>,
}

/// Spec-level image of one bridge log entry.
#[verifier::ext_equal]
pub struct EntryModel {
    pub element_id: Seq<char>,
    pub direction: BridgeDirection,
    pub amount: u64,
    pub actor: Seq<u8>,
    pub timestamp: i64,
}

/// Spec-level image of the whole store: the keyed element table and the
/// append-only bridge log.
#[verifier::ext_equal]
pub struct StoreModel {
    pub elements: Seq<ElementModel>,
    pub log: Seq<EntryModel>,
}

/// Spec-level image of a successful registration.
pub enum RegisterOutcomeModel {
    Registered { metadata_uri: Seq<char> },
    CoGovernorAttached,
}

impl ElementModel {
    /// Well-formedness of one record: bounded key and rarity, 32-byte
    /// identities, and the fixed lock arithmetic.
    pub open spec fn wf(self) -> bool {
        &&& self.element_id.len() <= 32
        &&& self.rarity <= 3
        &&& self.governor.len() == 32
        &&& (self.co_governor is Some ==> self.co_governor->0.len() == 32)
        &&& self.issuance_unit.len() == 32
        &&& self.treasury_account.len() == 32
        &&& self.tradeable_at == self.registered_at + LOCK_PERIOD_SECONDS
    }
}

impl EntryModel {
    /// Well-formedness of one log entry: a 32-byte actor and a positive amount.
    pub open spec fn wf(self) -> bool {
        &&& self.actor.len() == 32
        &&& self.amount > 0
    }
}

/// No two records share a key.
pub open spec fn keys_unique(elems: Seq<ElementModel>) -> bool {
    forall|i: int, j: int|
        0 <= i < j < elems.len() ==> elems[i].element_id != elems[j].element_id
}

/// Whether some record carries `key`.
pub open spec fn has_key(elems: Seq<ElementModel>, key: Seq<char>) -> bool {
    exists|i: int| 0 <= i < elems.len() && elems[i].element_id == key
}

/// The index of the record carrying `key`; meaningful under `keys_unique`
/// and `has_key`.
pub open spec fn key_index(elems: Seq<ElementModel>, key: Seq<char>) -> int {
    choose|i: int| 0 <= i < elems.len() && elems[i].element_id == key
}

/// Under unique keys, any index whose record carries `key` is the one
/// `key_index` denotes.
pub proof fn lemma_key_index_unique(elems: Seq<ElementModel>, key: Seq<char>, i: int)
    requires
        keys_unique(elems),
        0 <= i < elems.len(),
        elems[i].element_id == key,
    ensures
        has_key(elems, key),
        key_index(elems, key) == i,
{
    assert(has_key(elems, key));
    let j = key_index(elems, key);
    assert(0 <= j < elems.len() && elems[j].element_id == key);
    if i < j {
        assert(elems[i].element_id != elems[j].element_id);
    } else if j < i {
        assert(elems[j].element_id != elems[i].element_id);
    }
}

impl StoreModel {
    /// The store's invariant: unique keys, and every record and log entry
    /// well-formed. Established by the empty store and preserved by every
    /// transition.
    pub open spec fn wf(self) -> bool {
        &&& keys_unique(self.elements)
        &&& forall|i: int| 0 <= i < self.elements.len() ==> (#[trigger] self.elements[i]).wf()
        &&& forall|i: int| 0 <= i < self.log.len() ==> (#[trigger] self.log[i]).wf()
    }

    /// The empty store.
    pub open spec fn empty() -> StoreModel {
        StoreModel { elements: Seq::empty(), log: Seq::empty() }
    }

    /// The record carrying `key`; meaningful under `wf` and `has_key`.
    pub open spec fn elem(self, key: Seq<char>) -> ElementModel {
        self.elements[key_index(self.elements, key)]
    }
}

/// The record a fresh registration creates: accumulators zeroed, no
/// co-governor, locked, and `tradeable_at` fixed by the lock period.
pub open spec fn new_element(
    key: Seq<char>,
    rarity: u8,
    caller: Seq<u8>,
    now: i64,
    epoch: u64,
    issuance_unit: Seq<u8>,
    treasury_account: Seq<u8>,
) -> ElementModel {
    ElementModel {
        element_id: key,
        governor: caller,
        co_governor: None,
        registered_at: now,
        registration_epoch: epoch,
        tradeable_at: (now + LOCK_PERIOD_SECONDS) as i64,
        is_tradeable: false,
        rarity,
        total_minted: 0,
        total_taxed: 0,
        treasury_balance: 0,
        issuance_unit,
        treasury_account,
    }
}

/// RegistrationController: create a record under a fresh key, or attach a
/// co-governor when the key is taken and the caller's epoch equals the
/// registration epoch and the slot is still empty; reject otherwise.
pub open spec fn spec_register(
    m: StoreModel,
    key: Seq<char>,
    rarity: u8,
    metadata_uri: Seq<char>,
    caller: Seq<u8>,
    now: i64,
    epoch: u64,
    issuance_unit: Seq<u8>,
    treasury_account: Seq<u8>,
) -> (StoreModel, Result<RegisterOutcomeModel, LedgerError>) {
    if key.len() > 32 {
        (m, Err(LedgerError::ElementIdTooLong))
    } else if rarity > 3 {
        (m, Err(LedgerError::InvalidRarity))
    } else if has_key(m.elements, key) {
        let i = key_index(m.elements, key);
        let e = m.elements[i];
        if e.registration_epoch != epoch {
            (m, Err(LedgerError::AlreadyRegistered))
        } else if e.co_governor is Some {
            (m, Err(LedgerError::CoGovernorAlreadyAssigned))
        } else {
            (
                StoreModel {
                    elements: m.elements.update(
                        i,
                        ElementModel { co_governor: Some(caller), ..e },
                    ),
                    ..m
                },
                Ok(RegisterOutcomeModel::CoGovernorAttached),
            )
        }
    } else {
        (
            StoreModel {
                elements: m.elements.push(
                    new_element(key, rarity, caller, now, epoch, issuance_unit, treasury_account),
                ),
                ..m
            },
            Ok(RegisterOutcomeModel::Registered { metadata_uri }),
        )
    }
}

/// TradeabilityGate: flip `is_tradeable` once the lock period has elapsed;
/// the transition is one-way and open to any caller.
pub open spec fn spec_mark_tradeable(m: StoreModel, key: Seq<char>, now: i64) -> (
    StoreModel,
    Result<(), LedgerError>,
) {
    if !has_key(m.elements, key) {
        (m, Err(LedgerError::ElementNotFound))
    } else {
        let i = key_index(m.elements, key);
        let e = m.elements[i];
        if e.is_tradeable {
            (m, Err(LedgerError::AlreadyTradeable))
        } else if now < e.tradeable_at {
            (m, Err(LedgerError::StillLocked))
        } else {
            (
                StoreModel {
                    elements: m.elements.update(i, ElementModel { is_tradeable: true, ..e }),
                    ..m
                },
                Ok(()),
            )
        }
    }
}

/// The tax on a gross mint amount: a fixed basis-point rate, rounded down.
pub open spec fn tax_of(raw_amount: u64) -> int {
    raw_amount * TAX_RATE_BPS / BPS_DENOMINATOR as int
}

/// The gross yield of a mint: twice the raw amount while the element is
/// locked (the early-participation incentive), the raw amount afterwards.
pub open spec fn gross_of(is_tradeable: bool, raw_amount: u64) -> int {
    if is_tradeable {
        raw_amount as int
    } else {
        2 * raw_amount
    }
}

/// What the player nets from a mint: the gross yield minus the tax.
pub open spec fn player_amount_of(is_tradeable: bool, raw_amount: u64) -> int {
    gross_of(is_tradeable, raw_amount) - tax_of(raw_amount)
}

/// Whether every checked computation of a mint stays within the accumulator
/// width; when one does not, the mint aborts and no counter moves.
pub open spec fn mint_fits(e: ElementModel, raw_amount: u64) -> bool {
    &&& gross_of(e.is_tradeable, raw_amount) <= u64::MAX
    &&& e.total_minted + player_amount_of(e.is_tradeable, raw_amount) <= u64::MAX
    &&& e.total_taxed + tax_of(raw_amount) <= u64::MAX
    &&& e.treasury_balance + tax_of(raw_amount) <= u64::MAX
}

/// MintTaxEngine: split a mint into the player's yield and the tax, and
/// accumulate the element's counters; all arithmetic is checked.
pub open spec fn spec_mint(m: StoreModel, key: Seq<char>, raw_amount: u64) -> (
    StoreModel,
    Result<MintOutcome, LedgerError>,
) {
    if !has_key(m.elements, key) {
        (m, Err(LedgerError::ElementNotFound))
    } else {
        let i = key_index(m.elements, key);
        let e = m.elements[i];
        if !mint_fits(e, raw_amount) {
            (m, Err(LedgerError::ArithmeticError))
        } else {
            let tax = tax_of(raw_amount) as u64;
            let player = player_amount_of(e.is_tradeable, raw_amount) as u64;
            (
                StoreModel {
                    elements: m.elements.update(
                        i,
                        ElementModel {
                            total_minted: (e.total_minted + player) as u64,
                            total_taxed: (e.total_taxed + tax) as u64,
                            treasury_balance: (e.treasury_balance + tax) as u64,
                            ..e
                        },
                    ),
                    ..m
                },
                Ok(MintOutcome { player_amount: player, tax_amount: tax }),
            )
        }
    }
}

/// The total fee on a player's to-chain bridge (3.00%), rounded down.
pub open spec fn total_fee_of(amount: u64) -> int {
    amount * TOTAL_BRIDGE_FEE_BPS / BPS_DENOMINATOR as int
}

/// The governor's share of a player's bridge fee (0.50%), rounded down.
pub open spec fn governor_fee_of(amount: u64) -> int {
    amount * GOVERNOR_FEE_BPS / BPS_DENOMINATOR as int
}

/// The development treasury's share of a player's bridge fee (2.50%),
/// rounded down.
pub open spec fn dev_fee_of(amount: u64) -> int {
    amount * DEV_TREASURY_FEE_BPS / BPS_DENOMINATOR as int
}

/// What the player nets from a to-chain bridge: the amount minus the total
/// fee. The fee shares are floored independently, so a residual of
/// `total_fee - governor_fee - dev_fee` can stay in the treasury account,
/// unaccounted for by any single transfer.
pub open spec fn bridge_player_amount_of(amount: u64) -> int {
    amount - total_fee_of(amount)
}

/// BridgeLedger, governor path: after a verified burn attestation, move the
/// full amount out of the element's treasury to the governor's wallet,
/// fee-free, and append one immutable log entry.
pub open spec fn spec_bridge_to_chain(
    m: StoreModel,
    key: Seq<char>,
    amount: u64,
    governor: Seq<u8>,
    now: i64,
    signature: Seq<u8>,
    authority: Seq<u8>,
) -> (StoreModel, Result<EntryModel, LedgerError>) {
    if amount == 0 {
        (m, Err(LedgerError::InvalidAmount))
    } else if !has_key(m.elements, key) {
        (m, Err(LedgerError::ElementNotFound))
    } else if !burn_proof_ok(
        BurnProofModel { element_id: key, amount, actor: governor, timestamp: now },
        signature,
        authority,
    ) {
        (m, Err(LedgerError::InvalidBurnProof))
    } else {
        let i = key_index(m.elements, key);
        let e = m.elements[i];
        if e.treasury_balance < amount {
            (m, Err(LedgerError::ArithmeticError))
        } else {
            let entry = EntryModel {
                element_id: key,
                direction: BridgeDirection::ToChain,
                amount,
                actor: governor,
                timestamp: now,
            };
            (
                StoreModel {
                    elements: m.elements.update(
                        i,
                        ElementModel {
                            treasury_balance: (e.treasury_balance - amount) as u64,
                            ..e
                        },
                    ),
                    log: m.log.push(entry),
                },
                Ok(entry),
            )
        }
    }
}

/// BridgeLedger + FeeSplitter, player path: after a verified burn
/// attestation, pay the player the amount net of the total fee and disburse
/// the governor's and the development treasury's shares, all three out of
/// the element's treasury, and append one immutable log entry.
pub open spec fn spec_player_bridge_to_chain(
    m: StoreModel,
    key: Seq<char>,
    amount: u64,
    player: Seq<u8>,
    now: i64,
    signature: Seq<u8>,
    authority: Seq<u8>,
) -> (StoreModel, Result<PlayerBridgeOutcome, LedgerError>) {
    if amount == 0 {
        (m, Err(LedgerError::InvalidAmount))
    } else if !has_key(m.elements, key) {
        (m, Err(LedgerError::ElementNotFound))
    } else if !burn_proof_ok(
        BurnProofModel { element_id: key, amount, actor: player, timestamp: now },
        signature,
        authority,
    ) {
        (m, Err(LedgerError::InvalidBurnProof))
    } else if amount * TOTAL_BRIDGE_FEE_BPS > u64::MAX {
        (m, Err(LedgerError::ArithmeticError))
    } else {
        let i = key_index(m.elements, key);
        let e = m.elements[i];
        let payout = bridge_player_amount_of(amount) + governor_fee_of(amount) + dev_fee_of(
            amount,
        );
        if e.treasury_balance < payout {
            (m, Err(LedgerError::ArithmeticError))
        } else {
            let entry = EntryModel {
                element_id: key,
                direction: BridgeDirection::ToChain,
                amount,
                actor: player,
                timestamp: now,
            };
            (
                StoreModel {
                    elements: m.elements.update(
                        i,
                        ElementModel {
                            treasury_balance: (e.treasury_balance - payout) as u64,
                            ..e
                        },
                    ),
                    log: m.log.push(entry),
                },
                Ok(
                    PlayerBridgeOutcome {
                        player_amount: bridge_player_amount_of(amount) as u64,
                        governor_fee: governor_fee_of(amount) as u64,
                        dev_fee: dev_fee_of(amount) as u64,
                        total_fee: total_fee_of(amount) as u64,
                    },
                ),
            )
        }
    }
}

/// BridgeLedger, inbound path: record that a caller burned `amount` of the
/// element's on-chain unit so the game backend can credit the in-game side;
/// the burn itself is the host's irreversible action.
pub open spec fn spec_bridge_to_ingame(
    m: StoreModel,
    key: Seq<char>,
    amount: u64,
    caller: Seq<u8>,
    now: i64,
) -> (StoreModel, Result<EntryModel, LedgerError>) {
    if amount == 0 {
        (m, Err(LedgerError::InvalidAmount))
    } else {
        let entry = EntryModel {
            element_id: key,
            direction: BridgeDirection::ToIngame,
            amount,
            actor: caller,
            timestamp: now,
        };
        (StoreModel { log: m.log.push(entry), ..m }, Ok(entry))
    }
}

/// How a player's bridge fee splits, for every amount: each share is
/// non-negative, the floored shares never exceed the floored total fee, the
/// total fee never exceeds the amount, and what actually leaves the treasury
/// — payout plus both shares — never exceeds the amount either.
pub proof fn lemma_fee_split(amount: u64)
    ensures
        0 <= governor_fee_of(amount),
        0 <= dev_fee_of(amount),
        governor_fee_of(amount) + dev_fee_of(amount) <= total_fee_of(amount),
        0 <= total_fee_of(amount) <= amount,
        0 <= bridge_player_amount_of(amount),
        bridge_player_amount_of(amount) + governor_fee_of(amount) + dev_fee_of(amount) <= amount,
{
    let a = amount as int;
    let d = BPS_DENOMINATOR as int;
    let x = a * GOVERNOR_FEE_BPS;
    let y = a * DEV_TREASURY_FEE_BPS;
    let t = a * TOTAL_BRIDGE_FEE_BPS;
    assert(x + y == t);
    vstd::arithmetic::div_mod::lemma_fundamental_div_mod(x, d);
    vstd::arithmetic::div_mod::lemma_fundamental_div_mod(y, d);
    vstd::arithmetic::div_mod::lemma_fundamental_div_mod(t, d);
    vstd::arithmetic::div_mod::lemma_mod_bound(x, d);
    vstd::arithmetic::div_mod::lemma_mod_bound(y, d);
    vstd::arithmetic::div_mod::lemma_mod_bound(t, d);
    assert(t <= a * d);
    vstd::arithmetic::div_mod::lemma_div_is_ordered(t, a * d, d);
    vstd::arithmetic::div_mod::lemma_div_multiples_vanish(a, d);
    assert(a * d == d * a);
    vstd::arithmetic::div_mod::lemma_div_pos_is_pos(x, d);
    vstd::arithmetic::div_mod::lemma_div_pos_is_pos(y, d);
    vstd::arithmetic::div_mod::lemma_div_pos_is_pos(t, d);
}

/// The bridge history of one element: the log restricted to its key, in
/// order of appearance.
pub open spec fn history_of(log: Seq<EntryModel>, key: Seq<char>) -> Seq<EntryModel> {
    log.filter(|e: EntryModel| e.element_id == key)
}

} // verus!
