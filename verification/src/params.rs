//! The fixed economic parameters of the protocol.

use vstd::prelude::*;

verus! {

/// Fee charged once, when a new element is registered (smallest currency unit).
pub const REGISTRATION_FEE: u64 = 10 * 1_000_000_000;

/// How long a freshly registered element stays locked, in seconds.
pub const LOCK_PERIOD_SECONDS: i64 = 1800;

/// Fixed supply the host issues to an element's treasury account at registration.
pub const INITIAL_SUPPLY: u64 = 1_000_000 * 1_000_000;

/// Tax taken from every mint, in basis points (1 bp = 0.01%).
pub const TAX_RATE_BPS: u64 = 1000;

/// Denominator for all basis-point rates.
pub const BPS_DENOMINATOR: u64 = 10000;

/// Total fee on a player's to-chain bridge, in basis points.
pub const TOTAL_BRIDGE_FEE_BPS: u64 = 300;

/// Share of a player's bridge fee owed to the element's governor, in basis points.
pub const GOVERNOR_FEE_BPS: u64 = 50;

/// Share of a player's bridge fee owed to the development treasury, in basis points.
pub const DEV_TREASURY_FEE_BPS: u64 = 250;

} // verus!
