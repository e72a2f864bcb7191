//! MintTaxEngine: the taxed yield split applied when in-game value is minted.

use vstd::arithmetic::div_mod::{lemma_div_is_ordered, lemma_div_multiples_vanish};
use vstd::prelude::*;

use crate::model::{
    gross_of, lemma_key_index_unique, mint_fits, player_amount_of, spec_mint, tax_of, ElementModel,
};
use crate::params::{BPS_DENOMINATOR, TAX_RATE_BPS};
use crate::store::ElementStore;
use crate::types::{LedgerError, MintOutcome};

verus! {

/// The tax on `raw_amount` never exceeds it: the rate is below one.
proof fn lemma_tax_le_raw(raw_amount: u64)
    ensures
        0 <= tax_of(raw_amount) <= raw_amount,
{
    let r = raw_amount as int;
    let d = BPS_DENOMINATOR as int;
    assert(r * TAX_RATE_BPS <= r * d);
    lemma_div_is_ordered(r * TAX_RATE_BPS, r * d, d);
    lemma_div_multiples_vanish(r, d);
    assert(r * d == d * r);
    assert(r * TAX_RATE_BPS >= 0);
    vstd::arithmetic::div_mod::lemma_div_pos_is_pos(r * TAX_RATE_BPS, d);
}

impl ElementStore {
    /// Split a mint of `raw_amount` gross into the player's yield and the
    /// element's tax, and accumulate the counters.
    ///
    /// The tax is the fixed basis-point rate, rounded down. While the
    /// element is locked the player nets twice the raw amount minus the tax
    /// (the early-participation incentive); once tradeable, the raw amount
    /// minus the tax. Succeeds exactly when the record exists and every
    /// checked computation stays within the accumulator width; on success
    /// `total_minted`, `total_taxed` and `treasury_balance` grow by the
    /// player amount, the tax and the tax. The host must then issue the two
    /// payouts of the returned split atomically with this call.
    pub fn mint(&mut self, element_id: &String, raw_amount: u64) -> (r: Result<
        MintOutcome,
        LedgerError,
    >)
        requires
            old(self)@.wf(),
        ensures
            final(self)@.wf(),
            ({
                let (m2, res) = spec_mint(old(self)@, element_id@, raw_amount);
                final(self)@ == m2 && r == res
            }),
            old(self)@.log.is_prefix_of(final(self)@.log),
    {
        let ghost m0 = self@;
        let i = match self.find_element(element_id) {
            Some(i) => i,
            None => {
                return Err(LedgerError::ElementNotFound);
            },
        };
        proof {
            lemma_key_index_unique(m0.elements, element_id@, i as int);
            lemma_tax_le_raw(raw_amount);
        }
        let tax: u64 = ((raw_amount as u128) * (TAX_RATE_BPS as u128) / (BPS_DENOMINATOR
            as u128)) as u64;
        assert(tax == tax_of(raw_amount));
        let is_tradeable = self.elements[i].is_tradeable;
        let gross: u64 = if is_tradeable {
            raw_amount
        } else {
            if raw_amount > u64::MAX / 2 {
                return Err(LedgerError::ArithmeticError);
            }
            2 * raw_amount
        };
        assert(gross == gross_of(is_tradeable, raw_amount));
        let player: u64 = gross - tax;
        assert(player == player_amount_of(is_tradeable, raw_amount));
        if player > u64::MAX - self.elements[i].total_minted {
            return Err(LedgerError::ArithmeticError);
        }
        if tax > u64::MAX - self.elements[i].total_taxed {
            return Err(LedgerError::ArithmeticError);
        }
        if tax > u64::MAX - self.elements[i].treasury_balance {
            return Err(LedgerError::ArithmeticError);
        }
        assert(mint_fits(m0.elements[i as int], raw_amount));
        let rec = &mut self.elements[i];
        rec.total_minted = rec.total_minted + player;
        rec.total_taxed = rec.total_taxed + tax;
        rec.treasury_balance = rec.treasury_balance + tax;
        proof {
            let e = m0.elements[i as int];
            assert(self@.elements =~= m0.elements.update(
                i as int,
                ElementModel {
                    total_minted: (e.total_minted + player_amount_of(e.is_tradeable, raw_amount))
                        as u64,
                    total_taxed: (e.total_taxed + tax_of(raw_amount)) as u64,
                    treasury_balance: (e.treasury_balance + tax_of(raw_amount)) as u64,
                    ..e
                },
            ));
            assert(self@.log =~= m0.log);
            assert forall|k: int| 0 <= k < self@.elements.len() implies (
            #[trigger] self@.elements[k]).wf() by {
                assert(m0.elements[k].wf());
            }
        }
        Ok(MintOutcome { player_amount: player, tax_amount: tax })
    }
}

} // verus!
