//! Rules, proposals, and what the engine records of a proposal and of a
//! vote.

use vstd::prelude::*;
use crate::types::AccountId;
use crate::types::Balance;
use crate::types::Timestamp;

verus! {

/// The identifier of a proposal: the digest of its encoding, followed by
/// the digest of its description.
pub type ProposalId = crate::types::Hash;

/// The identifier of a set of rules: rules are numbered from 0 in the order
/// in which they were added.
pub type RulesId = u64;

/// The rules that a proposal is made and decided under.
#[derive(Debug, Clone, Copy, PartialEq, Eq, Default)]
pub struct ProposalRules {
    /// The least part of the total stake that a proposer must hold.
    pub minimum_stake_part_e12: u64,
    /// The deposit that a proposer must make.
    pub deposit: Balance,
    /// The time over which the votes needed to finalize fall from all of
    /// the votes to half of them.
    pub initial_period: Timestamp,
    /// The time, after the initial period, over which the votes needed to
    /// finalize stay at half of the votes.
    pub flat_period: Timestamp,
    /// The time, after the flat period, over which the votes needed to
    /// finalize fall from half of the votes to none.
    pub final_period: Timestamp,
    /// The greatest reward that a proposal may offer its voters, as a part
    /// of their votes.
    pub maximal_voter_reward_part_e12: u64,
    /// The part of the proposer's stake that is slashed where the proposal
    /// is defeated with a slash.
    pub proposer_slash_part_e12: u64,
    /// The part of the stake of an account that is slashed where it did not
    /// vote on a proposal that was finalized in its final period or later.
    pub voter_slash_part_e12: u64,
}

/// A call that a proposal makes once it is executed.
#[derive(Debug, Clone, PartialEq, Eq)]
pub struct Transaction {
    /// The contract that is called.
    pub callee: AccountId,
    /// The selector of the function that is called.
    pub selector: [u8; 4],
    /// The encoded arguments of the call.
    pub input: Vec<u8>,
    /// The value that is sent with the call.
    pub transferred_value: Balance,
}

/// What can be proposed.
#[derive(Debug, Clone, PartialEq, Eq)]
pub struct Proposal {
    /// The rules chosen for this proposal.
    pub rules_id: RulesId,
    /// The reward that voters can claim once the proposal is finalized, as
    /// a part of their votes.
    pub voter_reward_part_e12: u64,
    /// The calls that are made where the proposal is executed.
    pub transactions: Vec<Transaction>,
}

#[derive(Debug, Clone, Copy, PartialEq, Eq, Structural)]
pub enum ProposalStatus {
    /// Votes are being cast.
    Active,
    /// Rejected.
    Defeated,
    /// Rejected, and the proposer was slashed.
    DefeatedWithSlash,
    /// Accepted, and ready to be executed.
    Succeeded,
    /// Executed.
    Executed,
}

/// What the engine records of a proposal.
#[derive(Debug, Clone, Copy, PartialEq, Eq)]
pub struct ProposalState {
    pub status: ProposalStatus,
    pub proposer: AccountId,
    /// The reward that voters can claim once the proposal is finalized, as
    /// a part of their votes.
    pub voter_reward_part_e12: u64,
    pub rules_id: RulesId,
    /// When the proposal was made.
    pub start: Timestamp,
    /// The total stake when the proposal was made.
    pub votes_at_start: Balance,
    /// The stake counter when the proposal was made.
    pub counter_at_start: Balance,
    /// When the proposal was finalized, once it is.
    pub finalized: Option<Timestamp>,
    /// The votes for the proposal.
    pub votes_for: Balance,
    /// The votes against the proposal.
    pub votes_against: Balance,
    /// The votes against the proposal and for a slash of its proposer.
    pub votes_against_with_slash: Balance,
}

/// What a voter can choose.
#[derive(Debug, Clone, Copy, PartialEq, Eq, Structural)]
pub enum Vote {
    Agreed,
    Disagreed,
    /// Against the proposal, and for a slash of its proposer.
    DisagreedWithProposerSlashing,
}

/// The vote of one account on one proposal.
#[derive(Debug, Clone, Copy, PartialEq, Eq)]
pub struct UserVote {
    pub vote: Vote,
    /// The votes that the account cast.
    pub amount: Balance,
}

} // verus!
