//! The identifiers of proposals, for those who want to know them before
//! they make a proposal.

use vstd::prelude::*;
use crate::digest::blake2x256_digest;
use crate::govern::hashing::encodable;
use crate::govern::hashing::spec_hash_proposal;
use crate::govern::hashing::spec_hash_proposal_with_description;
use crate::govern::structs::Proposal;

verus! {

/// Computes identifiers as the governance engine does.
#[derive(Debug, Clone, Copy, PartialEq, Eq)]
pub struct Hasher {}

impl Default for Hasher {
    fn default() -> (hasher: Self) {
        Hasher {  }
    }
}

impl Hasher {
    pub fn new() -> (hasher: Self) {
        Hasher {  }
    }

    /// The identifier of `proposal` with `description`.
    pub fn hash_proposal_with_description(&self, proposal: Proposal, description: String) -> (hash:
        crate::types::Hash)
        requires
            encodable(proposal),
        ensures
            hash.0@ == spec_hash_proposal_with_description(proposal, description@),
    {
        crate::govern::hashing::hash_proposal_with_description(&proposal, &description)
    }

    /// The identifier of `proposal` with a description of the digest
    /// `description_hash`.
    pub fn hash_proposal(&self, proposal: Proposal, description_hash: [u8; 32]) -> (hash:
        crate::types::Hash)
        requires
            encodable(proposal),
        ensures
            hash.0@ == spec_hash_proposal(proposal, description_hash@),
    {
        crate::govern::hashing::hash_proposal(&proposal, &description_hash)
    }

    /// The digest of `description`.
    pub fn hash_description(&self, description: String) -> (digest: [u8; 32])
        ensures
            digest@ == blake2x256_digest(vstd::utf8::encode_utf8(description@)),
    {
        crate::digest::hash_description(description.as_str())
    }
}

} // verus!
