//! Errors, outcomes and the bridge direction tag.

use vstd::prelude::*;

verus! {

/// Every way an operation of the economy can be rejected. Each rejection is
/// terminal for the call and leaves the store exactly as it was.
#[derive(Clone, Copy, Debug, PartialEq, Eq, Structural)]
pub enum LedgerError {
    /// The element key is longer than 32 characters.
    ElementIdTooLong,
    /// The rarity is outside [0, 3].
    InvalidRarity,
    /// The key is taken and the caller's epoch is not the registration epoch.
    AlreadyRegistered,
    /// The same-epoch co-governor slot was already filled.
    CoGovernorAlreadyAssigned,
    /// No record exists under the key.
    ElementNotFound,
    /// The lock period has not elapsed yet.
    StillLocked,
    /// The element was already marked tradeable.
    AlreadyTradeable,
    /// A bridge amount must be strictly positive.
    InvalidAmount,
    /// The burn attestation did not verify against the stated authority.
    InvalidBurnProof,
    /// A checked computation overflowed or underflowed; counters are untouched.
    ArithmeticError,
}

/// Which way value crossed the bridge.
#[derive(Clone, Copy, Debug, PartialEq, Eq, Structural)]
pub enum BridgeDirection {
    ToChain,
    ToIngame,
}

/// What a successful registration decided. On `Registered` the host must
/// charge [`crate::params::REGISTRATION_FEE`], attach display metadata at
/// `metadata_uri`, and issue [`crate::params::INITIAL_SUPPLY`] of the element's
/// unit to its treasury account; a co-governor attachment charges no fee.
#[derive(Debug)]
pub enum RegisterOutcome {
    Registered { metadata_uri: String },
    CoGovernorAttached,
}

/// The split a mint produced: what the player receives and what the element's
/// treasury collects as tax.
#[derive(Clone, Copy, Debug, PartialEq, Eq, Structural)]
pub struct MintOutcome {
    pub player_amount: u64,
    pub tax_amount: u64,
}

/// The amounts a player's to-chain bridge moved: the net payout and the fee
/// shares, each transferred separately from the element's treasury.
#[derive(Clone, Copy, Debug, PartialEq, Eq, Structural)]
pub struct PlayerBridgeOutcome {
    pub player_amount: u64,
    pub governor_fee: u64,
    pub dev_fee: u64,
    pub total_fee: u64,
}

} // verus!
