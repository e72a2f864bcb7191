//! RegistrationController: create elements and attach same-epoch co-governors.

use vstd::prelude::*;
use vstd::string::StrSliceExecFns;

use crate::account::AccountId;
use crate::model::{
    lemma_key_index_unique, new_element, spec_register, ElementModel,
    RegisterOutcomeModel,
};
use crate::params::LOCK_PERIOD_SECONDS;
use crate::store::{ElementRecord, ElementStore};
use crate::types::{LedgerError, RegisterOutcome};

verus! {

/// Spec-level image of a register result.
pub open spec fn register_result_model(r: Result<RegisterOutcome, LedgerError>) -> Result<
    RegisterOutcomeModel,
    LedgerError,
> {
    match r {
        Ok(RegisterOutcome::Registered { metadata_uri }) => Ok(
            RegisterOutcomeModel::Registered { metadata_uri: metadata_uri@ },
        ),
        Ok(RegisterOutcome::CoGovernorAttached) => Ok(RegisterOutcomeModel::CoGovernorAttached),
        Err(e) => Err(e),
    }
}

impl ElementStore {
    /// Register an element, or attach a co-governor to it.
    ///
    /// Under a fresh valid key this creates the record (locked, accumulators
    /// zeroed, `tradeable_at` fixed by the lock period) and tells the host,
    /// through the `Registered` outcome, to charge the registration fee,
    /// attach the metadata and issue the initial supply. Under a taken key
    /// the call attaches `caller` as co-governor exactly when `epoch` equals
    /// the record's registration epoch and the slot is still empty — the
    /// same-tick co-registration window — and charges no fee; any other
    /// constellation is rejected with no state change.
    pub fn register_element(
        &mut self,
        element_id: String,
        rarity: u8,
        metadata_uri: String,
        caller: AccountId,
        now: i64,
        epoch: u64,
        issuance_unit: AccountId,
        treasury_account: AccountId,
    ) -> (r: Result<RegisterOutcome, LedgerError>)
        requires
            old(self)@.wf(),
            now <= i64::MAX - LOCK_PERIOD_SECONDS,
        ensures
            final(self)@.wf(),
            ({
                let (m2, res) = spec_register(
                    old(self)@,
                    element_id@,
                    rarity,
                    metadata_uri@,
                    caller@,
                    now,
                    epoch,
                    issuance_unit@,
                    treasury_account@,
                );
                final(self)@ == m2 && register_result_model(r) == res
            }),
            old(self)@.log.is_prefix_of(final(self)@.log),
    {
        let ghost m0 = self@;
        if element_id.as_str().unicode_len() > 32 {
            return Err(LedgerError::ElementIdTooLong);
        }
        if rarity > 3 {
            return Err(LedgerError::InvalidRarity);
        }
        match self.find_element(&element_id) {
            Some(i) => {
                proof {
                    lemma_key_index_unique(m0.elements, element_id@, i as int);
                }
                if self.elements[i].registration_epoch != epoch {
                    return Err(LedgerError::AlreadyRegistered);
                }
                if self.elements[i].co_governor.is_some() {
                    return Err(LedgerError::CoGovernorAlreadyAssigned);
                }
                let rec = &mut self.elements[i];
                rec.co_governor = Some(caller);
                proof {
                    let e = m0.elements[i as int];
                    assert(self@.elements =~= m0.elements.update(
                        i as int,
                        ElementModel { co_governor: Some(caller@), ..e },
                    ));
                    assert(self@.log =~= m0.log);
                    assert forall|k: int| 0 <= k < self@.elements.len() implies (
                    #[trigger] self@.elements[k]).wf() by {
                        assert(m0.elements[k].wf());
                    }
                }
                Ok(RegisterOutcome::CoGovernorAttached)
            },
            None => {
                let record = ElementRecord {
                    element_id,
                    governor: caller,
                    co_governor: None,
                    registered_at: now,
                    registration_epoch: epoch,
                    tradeable_at: now + LOCK_PERIOD_SECONDS,
                    is_tradeable: false,
                    rarity,
                    total_minted: 0,
                    total_taxed: 0,
                    treasury_balance: 0,
                    issuance_unit,
                    treasury_account,
                };
                let ghost recm = record@;
                self.elements.push(record);
                proof {
                    assert(recm == new_element(
                        element_id@,
                        rarity,
                        caller@,
                        now,
                        epoch,
                        issuance_unit@,
                        treasury_account@,
                    ));
                    assert(self@.elements =~= m0.elements.push(recm));
                    assert(self@.log =~= m0.log);
                    assert forall|k: int| 0 <= k < self@.elements.len() implies (
                    #[trigger] self@.elements[k]).wf() by {
                        if k < m0.elements.len() {
                            assert(m0.elements[k].wf());
                        }
                    }
                }
                Ok(RegisterOutcome::Registered { metadata_uri })
            },
        }
    }
}

} // verus!
