//! Reward escrow for survey campaigns.
//!
//! A campaign creator locks funds for a capped number of participant
//! rewards.  Off-chain managers co-sign authorization proofs (canonical
//! digests of each action's parameters) that gate every mutating action,
//! and an asynchronous cross-chain transfer lifecycle tracks in-flight
//! payouts, correlating late success, failure and timeout callbacks back
//! to the ledger and to a recovery ledger for manual reclaim.

pub mod auth;
pub mod codec;
pub mod contract;
pub mod error;
pub mod execute;
pub mod helpers;
pub mod ibc;
pub mod msg;
pub mod query;
pub mod state;

pub use crate::error::ContractError;
