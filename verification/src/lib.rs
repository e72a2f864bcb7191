//! A verified per-element token economy.
//!
//! Elements are registered by a governing actor, accrue a taxed yield while a
//! fixed lock period runs, and then transition one-way to free trading.
//! Balances move between the in-game and on-chain domains through a bridge
//! that checks an externally signed burn attestation and splits fees among
//! stakeholders, appending one immutable log entry per successful transfer.
//!
//! The host ledger performs the actual token issuance, burns and transfers;
//! this crate decides and records the economic facts, and every decision is
//! specified and proved against the spec-level transition functions in
//! [`model`].

pub mod account;
pub mod bridge;
pub mod codec;
pub mod gate;
pub mod laws;
pub mod minting;
pub mod model;
pub mod params;
pub mod registration;
pub mod sig;
pub mod store;
pub mod types;
