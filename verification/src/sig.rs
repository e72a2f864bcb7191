//! Verification of burn attestations.
//!
//! A burn proof is accepted exactly when the stated authority is a non-null
//! identity and its Ed25519 signature verifies over the canonical proof
//! encoding. The cryptographic check itself is delegated to `ed25519_dalek`;
//! everything around it is verified.

use vstd::prelude::*;

use crate::account::is_zero_id;
use crate::account::AccountId;
use crate::codec::burn_proof_bytes;
use crate::codec::encode_burn_proof;
use crate::codec::BurnProof;
use crate::codec::BurnProofModel;
use crate::types::LedgerError;

verus! {

/// Whether the 64-byte Ed25519 signature `sig` verifies `msg` under the
/// 32-byte public key `pk`. The check is a pure function of these three
/// values, so it is given a name rather than a definition.
pub uninterp spec fn sig_verifies(msg: Seq<u8>, sig: Seq<u8>, pk: Seq<u8>) -> bool;

/// Relies on `ed25519_dalek::VerifyingKey::{from_bytes, verify_strict}` and
/// `ed25519_dalek::Signature::from_bytes`: whether a signature verifies a
/// message under a public key is a deterministic function of those three
/// byte strings alone; a key that does not decode as a curve point verifies
/// nothing.
#[verifier::external_body]
fn ed25519_verify(msg: &Vec<u8>, signature: &[u8; 64], public_key: &[u8; 32]) -> (r: bool)
    ensures
        r == sig_verifies(msg@, signature@, public_key@),
{
    let vk = match ed25519_dalek::VerifyingKey::from_bytes(public_key) {
        Ok(vk) => vk,
        Err(_) => return false,
    };
    let sig = ed25519_dalek::Signature::from_bytes(signature);
    vk.verify_strict(msg.as_slice(), &sig).is_ok()
}

/// A burn attestation passes exactly when the authority is non-null and the
/// signature verifies the canonical proof encoding under the authority's key.
pub open spec fn burn_proof_ok(p: BurnProofModel, signature: Seq<u8>, authority: Seq<u8>) -> bool {
    &&& !is_zero_id(authority)
    &&& sig_verifies(burn_proof_bytes(p), signature, authority)
}

/// ProofVerifier: accept or reject a burn attestation. Rejection carries
/// `InvalidBurnProof` and implies that no bridge transfer may proceed.
pub fn verify_burn_proof(proof: &BurnProof, signature: &[u8; 64], authority: &AccountId) -> (r:
    Result<(), LedgerError>)
    ensures
        r is Ok <==> burn_proof_ok(proof@, signature@, authority@),
        r is Err ==> r->Err_0 == LedgerError::InvalidBurnProof,
{
    if authority.is_zero() {
        return Err(LedgerError::InvalidBurnProof);
    }
    let message = encode_burn_proof(proof);
    if ed25519_verify(&message, signature, &authority.bytes) {
        Ok(())
    } else {
        Err(LedgerError::InvalidBurnProof)
    }
}

} // verus!
