//! TradeabilityGate: the one-way locked-to-tradeable transition.

use vstd::prelude::*;

use crate::model::{lemma_key_index_unique, spec_mark_tradeable, ElementModel};
use crate::store::ElementStore;
use crate::types::LedgerError;

verus! {

impl ElementStore {
    /// Mark an element tradeable once its lock period has elapsed.
    ///
    /// Open to any caller. Succeeds exactly when the record exists, is still
    /// locked, and `now` has reached `tradeable_at`; it then flips
    /// `is_tradeable`, which no operation ever reverts. Fails with
    /// `ElementNotFound`, `AlreadyTradeable` or `StillLocked` otherwise,
    /// with no state change.
    pub fn mark_tradeable(&mut self, element_id: &String, now: i64) -> (r: Result<
        (),
        LedgerError,
    >)
        requires
            old(self)@.wf(),
        ensures
            final(self)@.wf(),
            ({
                let (m2, res) = spec_mark_tradeable(old(self)@, element_id@, now);
                final(self)@ == m2 && r == res
            }),
            old(self)@.log.is_prefix_of(final(self)@.log),
    {
        let ghost m0 = self@;
        match self.find_element(element_id) {
            Some(i) => {
                proof {
                    lemma_key_index_unique(m0.elements, element_id@, i as int);
                }
                if self.elements[i].is_tradeable {
                    return Err(LedgerError::AlreadyTradeable);
                }
                if now < self.elements[i].tradeable_at {
                    return Err(LedgerError::StillLocked);
                }
                let rec = &mut self.elements[i];
                rec.is_tradeable = true;
                proof {
                    let e = m0.elements[i as int];
                    assert(self@.elements =~= m0.elements.update(
                        i as int,
                        ElementModel { is_tradeable: true, ..e },
                    ));
                    assert(self@.log =~= m0.log);
                    assert forall|k: int| 0 <= k < self@.elements.len() implies (
                    #[trigger] self@.elements[k]).wf() by {
                        assert(m0.elements[k].wf());
                    }
                }
                Ok(())
            },
            None => Err(LedgerError::ElementNotFound),
        }
    }
}

} // verus!
