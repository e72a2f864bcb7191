//! Opaque 32-byte identities of the host ledger.

use vstd::prelude::*;

verus! {

/// A 32-byte identity: a wallet, an issuance unit, a treasury account, or a
/// signing authority. The bytes themselves are opaque to the economy; the
/// library only stores them, compares them against zero, and feeds them into
/// the canonical burn-proof encoding.
#[derive(Clone, Copy, Debug)]
pub struct AccountId {
    pub bytes: [u8; 32],
}

impl View for AccountId {
    type V = Seq<u8>;

    open spec fn view(&self) -> Seq<u8> {
        self.bytes@
    }
}

/// An all-zero identity is the null identity: it is never a valid signing
/// authority.
pub open spec fn is_zero_id(id: Seq<u8>) -> bool {
    forall|i: int| 0 <= i < id.len() ==> id[i] == 0
}

impl AccountId {
    /// The null identity.
    pub fn zero() -> (r: AccountId)
        ensures
            is_zero_id(r@),
            r@.len() == 32,
    {
        AccountId { bytes: [0u8; 32] }
    }

    /// Whether this is the null identity.
    pub fn is_zero(&self) -> (r: bool)
        ensures
            r == is_zero_id(self@),
    {
        let mut i: usize = 0;
        while i < 32
            invariant
                i <= 32,
                forall|j: int| 0 <= j < i ==> self.bytes@[j] == 0,
            decreases 32 - i,
        {
            if self.bytes[i] != 0 {
                return false;
            }
            i = i + 1;
        }
        true
    }
}

} // verus!
