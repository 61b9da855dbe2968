//! The governance engine: rules, proposals, votes, and what voters are owed
//! once a proposal is finalized.

pub mod chain;
pub mod engine;
pub mod errors;
pub mod hashing;
pub mod laws;
pub mod quorum;
pub mod storage;
pub mod structs;
