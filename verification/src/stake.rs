//! The staking ledger: stakes, queued unstakes, rewards and slashes.

pub mod errors;
pub mod laws;
pub mod ledger;
pub mod queue;
pub mod storage;
pub mod structs;
pub mod transfer;
