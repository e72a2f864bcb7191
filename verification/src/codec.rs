//! The canonical byte encoding of a burn attestation.
//!
//! A burn proof binds the element key, the amount, the acting identity and a
//! timestamp. The encoding is injective by construction: the key's UTF-8
//! bytes come length-prefixed, and every other field has a fixed width.

use vstd::bytes::spec_u64_to_le_bytes;
use vstd::bytes::u64_to_le_bytes;
use vstd::prelude::*;
use vstd::slice::slice_to_vec;
use vstd::string::StrSliceExecFns;

use crate::account::AccountId;

verus! {

/// An attestation, issued off-chain, that `amount` of the element's in-game
/// balance was burned by `actor` at `timestamp`. The bridge only credits the
/// chain side after this claim verifies under the backend's signing authority.
#[derive(Debug)]
pub struct BurnProof {
    pub element_id: String,
    pub amount: u64,
    pub actor: AccountId,
    pub timestamp: i64,
}

/// Spec-level image of a [`BurnProof`].
pub struct BurnProofModel {
    pub element_id: Seq<char>,
    pub amount: u64,
    pub actor: Seq<u8>,
    pub timestamp: i64,
}

impl View for BurnProof {
    type V = BurnProofModel;

    open spec fn view(&self) -> BurnProofModel {
        BurnProofModel {
            element_id: self.element_id@,
            amount: self.amount,
            actor: self.actor@,
            timestamp: self.timestamp,
        }
    }
}

/// The UTF-8 bytes of an element key.
pub open spec fn key_utf8(key: Seq<char>) -> Seq<u8> {
    vstd::utf8::encode_utf8(key)
}

/// The canonical serialization a burn attestation signs: the key's UTF-8
/// bytes under a little-endian length prefix, then the amount, the actor and
/// the timestamp, each fixed-width little-endian.
pub open spec fn burn_proof_bytes(p: BurnProofModel) -> Seq<u8> {
    spec_u64_to_le_bytes(key_utf8(p.element_id).len() as u64) + key_utf8(p.element_id)
        + spec_u64_to_le_bytes(p.amount) + p.actor + spec_u64_to_le_bytes(p.timestamp as u64)
}

/// The canonical encoding binds every field of the claim: two claims with
/// the same serialization agree on the key, the amount, the actor and the
/// timestamp, so a signature over the encoding authorizes exactly one claim.
pub proof fn lemma_burn_proof_bytes_injective(p1: BurnProofModel, p2: BurnProofModel)
    requires
        p1.actor.len() == 32,
        p2.actor.len() == 32,
        key_utf8(p1.element_id).len() <= u64::MAX,
        key_utf8(p2.element_id).len() <= u64::MAX,
        burn_proof_bytes(p1) == burn_proof_bytes(p2),
    ensures
        p1.element_id == p2.element_id,
        p1.amount == p2.amount,
        p1.actor == p2.actor,
        p1.timestamp == p2.timestamp,
{
    vstd::bytes::lemma_auto_spec_u64_to_from_le_bytes();
    let k1 = key_utf8(p1.element_id);
    let k2 = key_utf8(p2.element_id);
    let b1 = burn_proof_bytes(p1);
    let b2 = burn_proof_bytes(p2);
    assert(b1.subrange(0, 8) =~= spec_u64_to_le_bytes(k1.len() as u64));
    assert(b2.subrange(0, 8) =~= spec_u64_to_le_bytes(k2.len() as u64));
    assert(k1.len() as u64 == k2.len() as u64);
    assert(k1.len() == k2.len());
    let n = k1.len() as int;
    assert(k1 =~= b1.subrange(8, 8 + n));
    assert(k2 =~= b2.subrange(8, 8 + n));
    vstd::utf8::encode_utf8_decode_utf8(p1.element_id);
    vstd::utf8::encode_utf8_decode_utf8(p2.element_id);
    assert(spec_u64_to_le_bytes(p1.amount) =~= b1.subrange(8 + n, 16 + n));
    assert(spec_u64_to_le_bytes(p2.amount) =~= b2.subrange(8 + n, 16 + n));
    assert(p1.actor =~= b1.subrange(16 + n, 48 + n));
    assert(p2.actor =~= b2.subrange(16 + n, 48 + n));
    assert(spec_u64_to_le_bytes(p1.timestamp as u64) =~= b1.subrange(48 + n, 56 + n));
    assert(spec_u64_to_le_bytes(p2.timestamp as u64) =~= b2.subrange(48 + n, 56 + n));
    assert(p1.timestamp as u64 == p2.timestamp as u64);
    let t1 = p1.timestamp;
    let t2 = p2.timestamp;
    assert((t1 as u64) == (t2 as u64) ==> t1 == t2) by (bit_vector);
}

/// Produce the canonical serialization of `proof`.
pub fn encode_burn_proof(proof: &BurnProof) -> (r: Vec<u8>)
    ensures
        r@ == burn_proof_bytes(proof@),
{
    let key_bytes: Vec<u8> = proof.element_id.as_str().as_bytes_vec();
    let mut out: Vec<u8> = u64_to_le_bytes(key_bytes.len() as u64);
    let mut rest = key_bytes;
    out.append(&mut rest);
    let mut amount_bytes = u64_to_le_bytes(proof.amount);
    out.append(&mut amount_bytes);
    let mut actor_bytes = slice_to_vec(proof.actor.bytes.as_slice());
    out.append(&mut actor_bytes);
    let mut ts_bytes = u64_to_le_bytes(proof.timestamp as u64);
    out.append(&mut ts_bytes);
    out
}

} // verus!
