//! Stake-weighted governance: a staking ledger and, on top of it, a proposal
//! engine with a time-decaying quorum.

pub mod digest;
pub mod events;
pub mod govern;
pub mod hasher;
pub mod minter;
pub mod stake;
pub mod sums;
pub mod table;
pub mod timestamp_mock;
pub mod trace;
pub mod types;
