//! BridgeLedger: proof-gated transfers between the in-game and on-chain
//! domains, with proportional fee splitting on the player path.

use vstd::prelude::*;

use crate::account::AccountId;
use crate::codec::BurnProof;
use crate::model::{
    bridge_player_amount_of, dev_fee_of, governor_fee_of, lemma_fee_split, lemma_key_index_unique,
    spec_bridge_to_chain, spec_bridge_to_ingame, spec_player_bridge_to_chain,
    ElementModel, EntryModel,
};
use crate::params::{
    BPS_DENOMINATOR, DEV_TREASURY_FEE_BPS, GOVERNOR_FEE_BPS, TOTAL_BRIDGE_FEE_BPS,
};
use crate::sig::verify_burn_proof;
use crate::store::{BridgeEntry, ElementStore};
use crate::types::{BridgeDirection, LedgerError, PlayerBridgeOutcome};

verus! {

/// Spec-level image of a bridge result.
pub open spec fn entry_result_model(r: Result<BridgeEntry, LedgerError>) -> Result<
    EntryModel,
    LedgerError,
> {
    match r {
        Ok(entry) => Ok(entry@),
        Err(e) => Err(e),
    }
}

/// `a > max / b` and `a * b > max` coincide for positive `b`: the guard a
/// checked multiplication compiles to is the same condition the model states.
proof fn lemma_mul_guard(a: u64, b: u64, max: u64)
    requires
        b > 0,
    ensures
        (a > max / b) <==> (a * b > max),
{
    let m = max as int;
    let bi = b as int;
    vstd::arithmetic::div_mod::lemma_fundamental_div_mod(m, bi);
    vstd::arithmetic::div_mod::lemma_mod_bound(m, bi);
    if a > max / b {
        assert(a >= m / bi + 1);
        vstd::arithmetic::mul::lemma_mul_inequality(m / bi + 1, a as int, bi);
        vstd::arithmetic::mul::lemma_mul_is_distributive_add_other_way(bi, m / bi, 1);
        vstd::arithmetic::mul::lemma_mul_is_commutative(m / bi, bi);
        assert((m / bi + 1) * bi == bi * (m / bi) + bi);
    } else {
        assert(a <= m / bi);
        vstd::arithmetic::mul::lemma_mul_inequality(a as int, m / bi, bi);
        vstd::arithmetic::mul::lemma_mul_is_commutative(m / bi, bi);
    }
}

impl ElementStore {
    /// Governor path of the to-chain bridge, fee-free.
    ///
    /// After the burn attestation over (key, amount, governor, now) verifies
    /// under the backend authority, the full amount moves out of the
    /// element's treasury balance — the host transfers it to the governor's
    /// wallet — and one immutable log entry is appended and returned. A
    /// failed verification rejects the whole call with `InvalidBurnProof`:
    /// no entry is written and no balance moves.
    pub fn bridge_to_chain(
        &mut self,
        element_id: &String,
        amount: u64,
        governor: AccountId,
        now: i64,
        burn_proof_signature: &[u8; 64],
        burn_proof_authority: &AccountId,
    ) -> (r: Result<BridgeEntry, LedgerError>)
        requires
            old(self)@.wf(),
        ensures
            final(self)@.wf(),
            ({
                let (m2, res) = spec_bridge_to_chain(
                    old(self)@,
                    element_id@,
                    amount,
                    governor@,
                    now,
                    burn_proof_signature@,
                    burn_proof_authority@,
                );
                final(self)@ == m2 && entry_result_model(r) == res
            }),
            old(self)@.log.is_prefix_of(final(self)@.log),
    {
        let ghost m0 = self@;
        if amount == 0 {
            return Err(LedgerError::InvalidAmount);
        }
        let i = match self.find_element(element_id) {
            Some(i) => i,
            None => {
                return Err(LedgerError::ElementNotFound);
            },
        };
        proof {
            lemma_key_index_unique(m0.elements, element_id@, i as int);
        }
        let claim = BurnProof {
            element_id: element_id.clone(),
            amount,
            actor: governor,
            timestamp: now,
        };
        if let Err(e) = verify_burn_proof(&claim, burn_proof_signature, burn_proof_authority) {
            return Err(e);
        }
        if self.elements[i].treasury_balance < amount {
            return Err(LedgerError::ArithmeticError);
        }
        let rec = &mut self.elements[i];
        rec.treasury_balance = rec.treasury_balance - amount;
        let entry = BridgeEntry {
            element_id: element_id.clone(),
            direction: BridgeDirection::ToChain,
            amount,
            actor: governor,
            timestamp: now,
        };
        self.log.push(entry.clone());
        proof {
            let e = m0.elements[i as int];
            assert(self@.elements =~= m0.elements.update(
                i as int,
                ElementModel { treasury_balance: (e.treasury_balance - amount) as u64, ..e },
            ));
            assert(self@.log =~= m0.log.push(entry@));
            assert forall|k: int| 0 <= k < self@.elements.len() implies (
            #[trigger] self@.elements[k]).wf() by {
                assert(m0.elements[k].wf());
            }
            assert(self@.log.subrange(0, m0.log.len() as int) =~= m0.log);
        }
        Ok(entry)
    }

    /// Player path of the to-chain bridge, fee-bearing.
    ///
    /// After the burn attestation over (key, amount, player, now) verifies,
    /// the amount splits into the player's net payout (the amount minus the
    /// 3% total fee) and the governor's and development treasury's shares
    /// (0.5% and 2.5%, floored independently). All three leave the
    /// element's treasury balance as separate host transfers; any floor
    /// residual stays behind. One immutable log entry is appended. All
    /// arithmetic is checked, and a failed verification or an insufficient
    /// balance rejects the whole call with no state change.
    pub fn player_bridge_to_chain(
        &mut self,
        element_id: &String,
        amount: u64,
        player: AccountId,
        now: i64,
        burn_proof_signature: &[u8; 64],
        burn_proof_authority: &AccountId,
    ) -> (r: Result<PlayerBridgeOutcome, LedgerError>)
        requires
            old(self)@.wf(),
        ensures
            final(self)@.wf(),
            ({
                let (m2, res) = spec_player_bridge_to_chain(
                    old(self)@,
                    element_id@,
                    amount,
                    player@,
                    now,
                    burn_proof_signature@,
                    burn_proof_authority@,
                );
                final(self)@ == m2 && r == res
            }),
            old(self)@.log.is_prefix_of(final(self)@.log),
    {
        let ghost m0 = self@;
        if amount == 0 {
            return Err(LedgerError::InvalidAmount);
        }
        let i = match self.find_element(element_id) {
            Some(i) => i,
            None => {
                return Err(LedgerError::ElementNotFound);
            },
        };
        proof {
            lemma_key_index_unique(m0.elements, element_id@, i as int);
        }
        let claim = BurnProof {
            element_id: element_id.clone(),
            amount,
            actor: player,
            timestamp: now,
        };
        if let Err(e) = verify_burn_proof(&claim, burn_proof_signature, burn_proof_authority) {
            return Err(e);
        }
        proof {
            lemma_mul_guard(amount, TOTAL_BRIDGE_FEE_BPS, u64::MAX);
        }
        if amount > u64::MAX / TOTAL_BRIDGE_FEE_BPS {
            return Err(LedgerError::ArithmeticError);
        }
        proof {
            lemma_fee_split(amount);
            assert(amount * GOVERNOR_FEE_BPS <= amount * TOTAL_BRIDGE_FEE_BPS);
            assert(amount * DEV_TREASURY_FEE_BPS <= amount * TOTAL_BRIDGE_FEE_BPS);
        }
        let total_fee: u64 = amount * TOTAL_BRIDGE_FEE_BPS / BPS_DENOMINATOR;
        let governor_fee: u64 = amount * GOVERNOR_FEE_BPS / BPS_DENOMINATOR;
        let dev_fee: u64 = amount * DEV_TREASURY_FEE_BPS / BPS_DENOMINATOR;
        let player_amount: u64 = amount - total_fee;
        let payout: u64 = player_amount + governor_fee + dev_fee;
        assert(payout == bridge_player_amount_of(amount) + governor_fee_of(amount) + dev_fee_of(
            amount,
        ));
        if self.elements[i].treasury_balance < payout {
            return Err(LedgerError::ArithmeticError);
        }
        let rec = &mut self.elements[i];
        rec.treasury_balance = rec.treasury_balance - payout;
        let entry = BridgeEntry {
            element_id: element_id.clone(),
            direction: BridgeDirection::ToChain,
            amount,
            actor: player,
            timestamp: now,
        };
        self.log.push(entry);
        proof {
            let e = m0.elements[i as int];
            let payoutm = bridge_player_amount_of(amount) + governor_fee_of(amount) + dev_fee_of(
                amount,
            );
            assert(self@.elements =~= m0.elements.update(
                i as int,
                ElementModel { treasury_balance: (e.treasury_balance - payoutm) as u64, ..e },
            ));
            assert(self@.log =~= m0.log.push(
                EntryModel {
                    element_id: element_id@,
                    direction: BridgeDirection::ToChain,
                    amount,
                    actor: player@,
                    timestamp: now,
                },
            ));
            assert forall|k: int| 0 <= k < self@.elements.len() implies (
            #[trigger] self@.elements[k]).wf() by {
                assert(m0.elements[k].wf());
            }
            assert(self@.log.subrange(0, m0.log.len() as int) =~= m0.log);
        }
        Ok(
            PlayerBridgeOutcome {
                player_amount,
                governor_fee,
                dev_fee,
                total_fee,
            },
        )
    }

    /// Inbound bridge: record that `caller` burned `amount` of the
    /// element's on-chain unit — the host performs the irreversible burn —
    /// so the game backend can credit the in-game side from the returned
    /// log entry. Requires only a positive amount.
    pub fn bridge_to_ingame(
        &mut self,
        element_id: &String,
        amount: u64,
        caller: AccountId,
        now: i64,
    ) -> (r: Result<BridgeEntry, LedgerError>)
        requires
            old(self)@.wf(),
        ensures
            final(self)@.wf(),
            ({
                let (m2, res) = spec_bridge_to_ingame(old(self)@, element_id@, amount, caller@, now);
                final(self)@ == m2 && entry_result_model(r) == res
            }),
            old(self)@.log.is_prefix_of(final(self)@.log),
    {
        let ghost m0 = self@;
        if amount == 0 {
            return Err(LedgerError::InvalidAmount);
        }
        let entry = BridgeEntry {
            element_id: element_id.clone(),
            direction: BridgeDirection::ToIngame,
            amount,
            actor: caller,
            timestamp: now,
        };
        self.log.push(entry.clone());
        proof {
            assert(self@.elements =~= m0.elements);
            assert(self@.log =~= m0.log.push(entry@));
            assert(self@.log.subrange(0, m0.log.len() as int) =~= m0.log);
        }
        Ok(entry)
    }
}

} // verus!
