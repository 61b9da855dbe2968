//! The identifier of a proposal: the digest of its encoding, followed by
//! the digest of its description.

use vstd::prelude::*;
use crate::digest::append_bytes;
use crate::digest::blake2x256;
use crate::digest::blake2x256_digest;
use crate::digest::compact_u32;
use crate::digest::le_bytes;
use crate::digest::scale_compact_u32;
use crate::digest::scale_u128;
use crate::digest::scale_u64;
use crate::govern::structs::Proposal;
use crate::govern::structs::ProposalId;
use crate::govern::structs::Transaction;

verus! {

/// The encoding of a call: the callee, the selector, the length of the
/// input and the input, and the value, in this order.
pub open spec fn transaction_encoding(transaction: Transaction) -> Seq<u8> {
    transaction.callee.0@ + transaction.selector@ + compact_u32(transaction.input@.len() as u32)
        + transaction.input@ + le_bytes(transaction.transferred_value as nat, 16)
}

/// The encodings of the calls, one after the other.
pub open spec fn transactions_encoding(transactions: Seq<Transaction>) -> Seq<u8>
    decreases transactions.len(),
{
    if transactions.len() == 0 {
        Seq::empty()
    } else {
        transactions_encoding(transactions.drop_last()) + transaction_encoding(
            transactions.last(),
        )
    }
}

/// The encoding of a proposal: the rules, the reward, the number of calls
/// and the calls, in this order.
pub open spec fn proposal_encoding(proposal: Proposal) -> Seq<u8> {
    le_bytes(proposal.rules_id as nat, 8) + le_bytes(proposal.voter_reward_part_e12 as nat, 8)
        + compact_u32(proposal.transactions@.len() as u32) + transactions_encoding(
        proposal.transactions@,
    )
}

/// Whether the lengths in a proposal fit into its encoding, which holds
/// them in 32 bits.
pub open spec fn encodable(proposal: Proposal) -> bool {
    &&& proposal.transactions@.len() <= u32::MAX
    &&& forall|i: int|
        0 <= i < proposal.transactions@.len() ==> (
        #[trigger] proposal.transactions@[i]).input@.len() <= u32::MAX
}

/// The identifier of a proposal with a description of the given digest.
pub open spec fn spec_hash_proposal(proposal: Proposal, description_hash: Seq<u8>) -> Seq<u8> {
    blake2x256_digest(proposal_encoding(proposal) + description_hash)
}

pub fn is_encodable(proposal: &Proposal) -> (fits: bool)
    ensures
        fits == encodable(*proposal),
{
    if proposal.transactions.len() > u32::MAX as usize {
        return false;
    }
    let mut i: usize = 0;
    while i < proposal.transactions.len()
        invariant
            i <= proposal.transactions@.len(),
            proposal.transactions@.len() <= u32::MAX,
            forall|j: int| 0 <= j < i ==> (#[trigger] proposal.transactions@[j]).input@.len()
                <= u32::MAX,
        decreases proposal.transactions@.len() - i,
    {
        if proposal.transactions[i].input.len() > u32::MAX as usize {
            return false;
        }
        i += 1;
    }
    true
}

pub fn encode_transaction(target: &mut Vec<u8>, transaction: &Transaction)
    requires
        transaction.input@.len() <= u32::MAX,
    ensures
        final(target)@ == old(target)@ + transaction_encoding(*transaction),
{
    append_bytes(target, transaction.callee.0.as_slice());
    append_bytes(target, transaction.selector.as_slice());
    let length = scale_compact_u32(transaction.input.len() as u32);
    append_bytes(target, length.as_slice());
    append_bytes(target, transaction.input.as_slice());
    let value = scale_u128(transaction.transferred_value);
    append_bytes(target, value.as_slice());
    assert(target@ =~= old(target)@ + transaction_encoding(*transaction));
}

pub fn encode_proposal(proposal: &Proposal) -> (bytes: Vec<u8>)
    requires
        encodable(*proposal),
    ensures
        bytes@ == proposal_encoding(*proposal),
{
    let mut bytes = scale_u64(proposal.rules_id);
    let reward = scale_u64(proposal.voter_reward_part_e12);
    append_bytes(&mut bytes, reward.as_slice());
    let count = scale_compact_u32(proposal.transactions.len() as u32);
    append_bytes(&mut bytes, count.as_slice());
    let ghost head = bytes@;
    let mut i: usize = 0;
    while i < proposal.transactions.len()
        invariant
            i <= proposal.transactions@.len(),
            encodable(*proposal),
            bytes@ == head + transactions_encoding(proposal.transactions@.take(i as int)),
        decreases proposal.transactions@.len() - i,
    {
        encode_transaction(&mut bytes, &proposal.transactions[i]);
        proof {
            let next = proposal.transactions@.take(i + 1);
            assert(next.drop_last() =~= proposal.transactions@.take(i as int));
            assert(next.last() == proposal.transactions@[i as int]);
            assert(bytes@ =~= head + transactions_encoding(next));
        }
        i += 1;
    }
    assert(proposal.transactions@.take(proposal.transactions@.len() as int)
        =~= proposal.transactions@);
    bytes
}

/// The identifier of `proposal` with a description of the digest
/// `description_hash`.
pub fn hash_proposal(proposal: &Proposal, description_hash: &[u8; 32]) -> (proposal_id: ProposalId)
    requires
        encodable(*proposal),
    ensures
        proposal_id.0@ == spec_hash_proposal(*proposal, description_hash@),
{
    let mut hash_data = encode_proposal(proposal);
    append_bytes(&mut hash_data, description_hash.as_slice());
    crate::types::Hash(blake2x256(&hash_data))
}

/// The identifier of a proposal with the given description.
pub open spec fn spec_hash_proposal_with_description(
    proposal: Proposal,
    description: Seq<char>,
) -> Seq<u8> {
    spec_hash_proposal(proposal, blake2x256_digest(vstd::utf8::encode_utf8(description)))
}

/// The identifier of `proposal` with `description`: the description is
/// digested first, and its digest follows the encoding of the proposal.
pub fn hash_proposal_with_description(proposal: &Proposal, description: &String) -> (proposal_id:
    ProposalId)
    requires
        encodable(*proposal),
    ensures
        proposal_id.0@ == spec_hash_proposal_with_description(*proposal, description@),
{
    let description_hash = crate::digest::hash_description(description.as_str());
    hash_proposal(proposal, &description_hash)
}

} // verus!
