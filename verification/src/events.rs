//! What the ledger and the engine tell the outside of: one event for each
//! change, appended to the log that the caller hands in.

use vstd::prelude::*;
use crate::govern::structs::Proposal;
use crate::govern::structs::ProposalId;
use crate::govern::structs::ProposalRules;
use crate::govern::structs::ProposalStatus;
use crate::govern::structs::RulesId;
use crate::govern::structs::Vote;
use crate::types::AccountId;
use crate::types::Balance;
use crate::types::Timestamp;

verus! {

#[derive(Debug, Clone, PartialEq, Eq)]
pub struct Staked {
    pub caller: AccountId,
    pub amount: Balance,
}

#[derive(Debug, Clone, PartialEq, Eq)]
pub struct InitializedUnstake {
    pub caller: AccountId,
    pub amount: Balance,
}

#[derive(Debug, Clone, PartialEq, Eq)]
pub struct Unstaked {
    pub caller: AccountId,
}

#[derive(Debug, Clone, PartialEq, Eq)]
pub struct Rewarded {
    pub account: AccountId,
    pub amount: Balance,
}

#[derive(Debug, Clone, PartialEq, Eq)]
pub struct Slashed {
    pub account: AccountId,
    pub amount: Balance,
}

#[derive(Debug, Clone, PartialEq, Eq)]
pub struct UnstakePeriodChanged {
    pub unstake_period: Timestamp,
}

#[derive(Debug, Clone, PartialEq, Eq)]
pub struct MaximalNumberOfUnstakesChanged {
    pub maximal_number_of_unstakes: u64,
}

#[derive(Debug, Clone, PartialEq, Eq)]
pub struct ProposalCreated {
    pub proposal_id: ProposalId,
    pub proposal: Proposal,
    pub description: String,
}

#[derive(Debug, Clone, PartialEq, Eq)]
pub struct ProposalFinalized {
    pub proposal_id: ProposalId,
    pub status: ProposalStatus,
}

#[derive(Debug, Clone, PartialEq, Eq)]
pub struct ProposalExecuted {
    pub proposal_id: ProposalId,
}

#[derive(Debug, Clone, PartialEq, Eq)]
pub struct VoteCasted {
    pub account: AccountId,
    pub proposal_id: ProposalId,
    pub vote: Vote,
    /// What the voter gave as the reason. It is kept nowhere else.
    pub reason: Vec<u8>,
}

#[derive(Debug, Clone, PartialEq, Eq)]
pub struct VoterRewarded {
    pub account: AccountId,
    pub proposal_id: ProposalId,
}

#[derive(Debug, Clone, PartialEq, Eq)]
pub struct VoterSlashed {
    pub account: AccountId,
    pub proposal_id: ProposalId,
}

#[derive(Debug, Clone, PartialEq, Eq)]
pub struct ProposalRulesAdded {
    pub rules_id: RulesId,
    pub rules: ProposalRules,
}

#[derive(Debug, Clone, PartialEq, Eq)]
pub struct RulesAllowed {
    pub rules_id: RulesId,
    pub allowed: bool,
}

/// One entry of the log.
#[derive(Debug, Clone, PartialEq, Eq)]
pub enum Event {
    Staked(Staked),
    InitializedUnstake(InitializedUnstake),
    Unstaked(Unstaked),
    Rewarded(Rewarded),
    Slashed(Slashed),
    UnstakePeriodChanged(UnstakePeriodChanged),
    MaximalNumberOfUnstakesChanged(MaximalNumberOfUnstakesChanged),
    ProposalCreated(ProposalCreated),
    ProposalFinalized(ProposalFinalized),
    ProposalExecuted(ProposalExecuted),
    VoteCasted(VoteCasted),
    VoterRewarded(VoterRewarded),
    VoterSlashed(VoterSlashed),
    ProposalRulesAdded(ProposalRulesAdded),
    RulesAllowed(RulesAllowed),
}

} // verus!
