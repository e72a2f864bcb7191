//! The authoritative element table and the append-only bridge log.

use vstd::prelude::*;

use crate::account::AccountId;
use crate::model::{
    has_key, history_of, lemma_key_index_unique, ElementModel, EntryModel,
    StoreModel,
};
use crate::types::{BridgeDirection, LedgerError};

verus! {

/// One registered element: its governance, its lock state, and its economic
/// accumulators. Records are created by registration, never deleted, and
/// mutated only through the store's operations.
#[derive(Debug)]
pub struct ElementRecord {
    pub element_id: String,
    pub governor: AccountId,
    pub co_governor: Option<AccountId>,
    pub registered_at: i64,
    pub registration_epoch: u64,
    pub tradeable_at: i64,
    pub is_tradeable: bool,
    pub rarity: u8,
    pub total_minted: u64,
    pub total_taxed: u64,
    pub treasury_balance: u64,
    pub issuance_unit: AccountId,
    pub treasury_account: AccountId,
}

impl View for ElementRecord {
    type V = ElementModel;

    open spec fn view(&self) -> ElementModel {
        ElementModel {
            element_id: self.element_id@,
            governor: self.governor@,
            co_governor: match self.co_governor {
                Some(c) => Some(c@),
                None => None,
            },
            registered_at: self.registered_at,
            registration_epoch: self.registration_epoch,
            tradeable_at: self.tradeable_at,
            is_tradeable: self.is_tradeable,
            rarity: self.rarity,
            total_minted: self.total_minted,
            total_taxed: self.total_taxed,
            treasury_balance: self.treasury_balance,
            issuance_unit: self.issuance_unit@,
            treasury_account: self.treasury_account@,
        }
    }
}

impl Clone for ElementRecord {
    fn clone(&self) -> (r: Self)
        ensures
            r@ == self@,
    {
        ElementRecord {
            element_id: self.element_id.clone(),
            governor: self.governor,
            co_governor: self.co_governor,
            registered_at: self.registered_at,
            registration_epoch: self.registration_epoch,
            tradeable_at: self.tradeable_at,
            is_tradeable: self.is_tradeable,
            rarity: self.rarity,
            total_minted: self.total_minted,
            total_taxed: self.total_taxed,
            treasury_balance: self.treasury_balance,
            issuance_unit: self.issuance_unit,
            treasury_account: self.treasury_account,
        }
    }
}

/// One bridge transfer, written once when the transfer succeeds and never
/// mutated or deleted afterwards; history is reconstructed by scanning the
/// log for a key.
#[derive(Debug)]
pub struct BridgeEntry {
    pub element_id: String,
    pub direction: BridgeDirection,
    pub amount: u64,
    pub actor: AccountId,
    pub timestamp: i64,
}

impl View for BridgeEntry {
    type V = EntryModel;

    open spec fn view(&self) -> EntryModel {
        EntryModel {
            element_id: self.element_id@,
            direction: self.direction,
            amount: self.amount,
            actor: self.actor@,
            timestamp: self.timestamp,
        }
    }
}

impl Clone for BridgeEntry {
    fn clone(&self) -> (r: Self)
        ensures
            r@ == self@,
    {
        BridgeEntry {
            element_id: self.element_id.clone(),
            direction: self.direction,
            amount: self.amount,
            actor: self.actor,
            timestamp: self.timestamp,
        }
    }
}

/// The keyed table of element records together with the append-only bridge
/// log. All mutation goes through the registration, tradeability, mint and
/// bridge operations, each of which preserves the model invariant
/// [`StoreModel::wf`].
#[derive(Debug)]
pub struct ElementStore {
    pub elements: Vec<ElementRecord>,
    pub log: Vec<BridgeEntry>,
}

impl View for ElementStore {
    type V = StoreModel;

    open spec fn view(&self) -> StoreModel {
        StoreModel {
            elements: self.elements@.map_values(|r: ElementRecord| r@),
            log: self.log@.map_values(|e: BridgeEntry| e@),
        }
    }
}

impl ElementStore {
    /// An empty store: no elements, no history.
    pub fn new() -> (r: ElementStore)
        ensures
            r@ == StoreModel::empty(),
            r@.wf(),
    {
        let r = ElementStore { elements: Vec::new(), log: Vec::new() };
        proof {
            assert(r@.elements =~= Seq::<ElementModel>::empty());
            assert(r@.log =~= Seq::<EntryModel>::empty());
        }
        r
    }

    /// Find the index of the record carrying `element_id`, if any.
    pub(crate) fn find_element(&self, element_id: &String) -> (r: Option<usize>)
        ensures
            match r {
                Some(i) => i < self.elements@.len() && self@.elements[i as int].element_id
                    == element_id@,
                None => !has_key(self@.elements, element_id@),
            },
    {
        let n = self.elements.len();
        let mut i: usize = 0;
        while i < n
            invariant
                n == self.elements@.len(),
                i <= n,
                forall|j: int| 0 <= j < i ==> self@.elements[j].element_id != element_id@,
            decreases n - i,
        {
            if self.elements[i].element_id == *element_id {
                return Some(i);
            }
            i = i + 1;
        }
        None
    }

    /// Look up an element and return a snapshot of its record.
    pub fn get_element_info(&self, element_id: &String) -> (r: Result<ElementRecord, LedgerError>)
        requires
            self@.wf(),
        ensures
            match r {
                Ok(rec) => has_key(self@.elements, element_id@) && rec@ == self@.elem(
                    element_id@,
                ),
                Err(e) => !has_key(self@.elements, element_id@) && e
                    == LedgerError::ElementNotFound,
            },
    {
        match self.find_element(element_id) {
            Some(i) => {
                proof {
                    lemma_key_index_unique(self@.elements, element_id@, i as int);
                }
                Ok(self.elements[i].clone())
            },
            None => Err(LedgerError::ElementNotFound),
        }
    }

    /// The bridge history of one element: every log entry under its key, in
    /// the order the transfers happened.
    pub fn get_bridge_history(&self, element_id: &String) -> (r: Vec<BridgeEntry>)
        ensures
            r@.map_values(|e: BridgeEntry| e@) == history_of(self@.log, element_id@),
    {
        let n = self.log.len();
        let mut out: Vec<BridgeEntry> = Vec::new();
        proof {
            assert(self@.log.take(0) =~= Seq::<EntryModel>::empty());
            assert(out@.map_values(|e: BridgeEntry| e@) =~= Seq::<EntryModel>::empty());
        }
        let mut i: usize = 0;
        while i < n
            invariant
                n == self.log@.len(),
                i <= n,
                out@.map_values(|e: BridgeEntry| e@) == history_of(
                    self@.log.take(i as int),
                    element_id@,
                ),
            decreases n - i,
        {
            proof {
                assert(self@.log.take(i + 1).drop_last() =~= self@.log.take(i as int));
                reveal_with_fuel(Seq::filter, 2);
            }
            if self.log[i].element_id == *element_id {
                out.push(self.log[i].clone());
            }
            proof {
                assert(self@.log.take(i + 1).last() == self@.log[i as int]);
            }
            i = i + 1;
        }
        proof {
            assert(self@.log.take(n as int) =~= self@.log);
        }
        out
    }
}

} // verus!
