//! A single-asset, time-locked, multi-claimant escrow.
//!
//! A depositor locks a fixed amount of a fungible asset, naming up to ten
//! eligible claimants and a time condition; exactly one claimant may withdraw
//! the full amount once the time condition holds, after which the escrow is
//! permanently consumed.
//!
//! The host facilities the contract relies on — the clock, the authorization
//! proofs, the per-instance key-value storage, and the asset ledger — are
//! modelled explicitly as plain data (see [`host`] and [`ledger`]), so that
//! every decision the controller makes is verified.

pub mod contract;
pub mod host;
pub mod laws;
pub mod ledger;
pub mod types;
