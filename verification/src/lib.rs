//! Capacity and incentive ledger of a decentralized storage network.
//!
//! The ledger tracks how much storage space every miner has proven, turns
//! that space into a reward entitlement, computes penalties for faulty
//! proofs and carries out a miner's exit. Every state transition is
//! all-or-nothing: an operation that fails leaves the ledger as it was.
//!
//! - [`pallet`] holds the ledger and its operations.
//! - [`ledger`] states what each operation does, as a function on the
//!   ledger's mathematical content, and [`laws`] what follows for every state.
//! - [`miner`], [`bloom`], [`registry`] and [`types`] hold the records.
//! - [`fraction`] computes with parts per billion.
//! - [`worker_error`] names the failures of the worker registration client.

pub mod bloom;
pub mod fraction;
pub mod laws;
pub mod ledger;
pub mod miner;
pub mod pallet;
pub mod registry;
pub mod types;
pub mod worker_error;
