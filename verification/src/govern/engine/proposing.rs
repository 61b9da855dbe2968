//! Making a proposal.

use vstd::prelude::*;
use crate::events::Event;
use crate::events::ProposalCreated;
use crate::govern::engine::Governor;
use crate::govern::errors::GovernError;
use crate::govern::hashing::encodable;
use crate::govern::hashing::spec_hash_proposal_with_description;
use crate::govern::structs::Proposal;
use crate::govern::structs::ProposalId;
use crate::govern::structs::ProposalState;
use crate::govern::structs::ProposalStatus;
use crate::stake::errors::MathError;
use crate::types::AccountId;
use crate::types::Balance;
use crate::types::E12;
use crate::types::Timestamp;

verus! {

/// The part of the total stake that a proposer holds, in units of 10^-12.
/// A part that does not fit counts as none.
pub open spec fn spec_proposer_part(stake: Balance, total_stake: Balance) -> u64 {
    if stake * E12 / (total_stake as int) > u64::MAX {
        0
    } else {
        (stake * E12 / (total_stake as int)) as u64
    }
}

impl Governor {
    /// What checking a proposal against its rules answers, for a proposer
    /// `caller` who sends `transferred_value` along.
    pub open spec fn spec_check_rules(
        &self,
        proposal: Proposal,
        caller: AccountId,
        transferred_value: Balance,
    ) -> Result<(), GovernError> {
        let stake = self.stakes().storage().spec_stake_of(caller);
        let total_stake = self.stakes().storage().total_stake;
        let proposer_part = spec_proposer_part(stake, total_stake);
        if !self.gov().spec_rule_allowed(proposal.rules_id) {
            Err(GovernError::RuleNotAllowed)
        } else {
            match self.gov().spec_rule(proposal.rules_id) {
                None => Err(GovernError::NoSuchRule),
                Some(rules) => if transferred_value < rules.deposit {
                    Err(GovernError::PropositionDeposit)
                } else if stake * E12 > u128::MAX {
                    Err(GovernError::MathError(MathError::Mul))
                } else if total_stake == 0 {
                    Err(GovernError::MathError(MathError::Div))
                } else if proposer_part < rules.minimum_stake_part_e12 {
                    Err(GovernError::InnsuficientVotes)
                } else if proposal.voter_reward_part_e12 > rules.maximal_voter_reward_part_e12
                    || proposal.voter_reward_part_e12 > proposer_part / 2 {
                    Err(GovernError::RewardMultiplier)
                } else {
                    Ok(())
                },
            }
        }
    }

    /// Checks that `caller` may make `proposal`: its rules are allowed, the
    /// deposit is paid, the proposer holds a large enough part of the total
    /// stake, and the reward for voters is no more than the rules allow and
    /// no more than half of that part.
    pub fn _check_rules(&self, proposal: &Proposal, caller: &AccountId, transferred_value: Balance) -> (res:
        Result<(), GovernError>)
        requires
            self.wf(),
        ensures
            res == self.spec_check_rules(*proposal, *caller, transferred_value),
    {
        if !self._rule_allowed(&proposal.rules_id) {
            return Err(GovernError::RuleNotAllowed);
        }
        let rules = match self._rule(&proposal.rules_id) {
            Some(rules) => rules,
            None => {
                return Err(GovernError::NoSuchRule);
            },
        };
        if transferred_value < rules.deposit {
            return Err(GovernError::PropositionDeposit);
        }
        let scaled = match self.staker.stake_of(*caller).checked_mul(E12) {
            Some(scaled) => scaled,
            None => {
                return Err(GovernError::MathError(MathError::Mul));
            },
        };
        let total_stake = self.staker.total_stake();
        if total_stake == 0 {
            return Err(GovernError::MathError(MathError::Div));
        }
        let part = scaled / total_stake;
        let proposer_part_e12: u64 = if part > u64::MAX as u128 {
            0
        } else {
            part as u64
        };
        if proposer_part_e12 < rules.minimum_stake_part_e12 {
            return Err(GovernError::InnsuficientVotes);
        }
        if proposal.voter_reward_part_e12 > rules.maximal_voter_reward_part_e12
            || proposal.voter_reward_part_e12 > proposer_part_e12 / 2 {
            return Err(GovernError::RewardMultiplier);
        }
        Ok(())
    }

    /// The state that a proposal starts in.
    pub open spec fn spec_initial_state(
        &self,
        proposal: Proposal,
        caller: AccountId,
        now: Timestamp,
    ) -> ProposalState {
        ProposalState {
            status: ProposalStatus::Active,
            proposer: caller,
            voter_reward_part_e12: proposal.voter_reward_part_e12,
            rules_id: proposal.rules_id,
            start: now,
            votes_at_start: self.stakes().storage().total_stake,
            counter_at_start: self.stakes().counter(),
            finalized: None,
            votes_for: 0,
            votes_against: 0,
            votes_against_with_slash: 0,
        }
    }

    /// Whether `self` is what `before` becomes once `caller` has made
    /// `proposal` at `now` and it has got the identifier `proposal_id`.
    pub open spec fn proposed(
        &self,
        before: &Self,
        proposal_id: ProposalId,
        proposal: Proposal,
        caller: AccountId,
        now: Timestamp,
    ) -> bool {
        &&& self.stakes() == before.stakes()
        &&& self.gov_reward() == before.gov_reward()
        &&& self.gov().state@ == before.gov().state@.insert(
            proposal_id,
            before.spec_initial_state(proposal, caller, now),
        )
        &&& self.gov().state.keys() == before.gov().state.keys().push(proposal_id)
        &&& self.gov().votes == before.gov().votes
        &&& self.gov().same_rules(&before.gov())
        &&& self.gov().same_counters(&before.gov())
    }

    /// Records `proposal` under `proposal_id`, as made by `caller` at
    /// `now`, with the total stake and the stake counter of that time and
    /// no votes. An identifier can be used once.
    pub fn _register_proposal(
        &mut self,
        events: &mut Vec<Event>,
        proposal_id: &ProposalId,
        proposal: Proposal,
        description: String,
        caller: &AccountId,
        now: Timestamp,
    ) -> (res: Result<(), GovernError>)
        requires
            old(self).wf(),
        ensures
            final(self).wf(),
            res == (if old(self).gov().spec_state_of(*proposal_id) is Some {
                Err::<(), GovernError>(GovernError::ProposalAlreadyExists)
            } else {
                Ok::<(), GovernError>(())
            }),
            res is Err ==> *final(self) == *old(self) && final(events)@ == old(events)@,
            res is Ok ==> final(self).proposed(old(self), *proposal_id, proposal, *caller, now)
                && final(events)@ == old(events)@.push(
                Event::ProposalCreated(
                    ProposalCreated { proposal_id: *proposal_id, proposal, description },
                ),
            ),
    {
        if self._status_of(proposal_id).is_some() {
            return Err(GovernError::ProposalAlreadyExists);
        }
        let counter_at_start = self.staker.counter_stake();
        let votes_at_start = self.staker.total_stake();
        self.gov.state.insert(
            *proposal_id,
            ProposalState {
                status: ProposalStatus::Active,
                proposer: *caller,
                voter_reward_part_e12: proposal.voter_reward_part_e12,
                rules_id: proposal.rules_id,
                start: now,
                counter_at_start,
                votes_at_start,
                finalized: None,
                votes_for: 0,
                votes_against: 0,
                votes_against_with_slash: 0,
            },
        );
        events.push(
            Event::ProposalCreated(
                ProposalCreated { proposal_id: *proposal_id, proposal, description },
            ),
        );
        Ok(())
    }

    /// The identifier of `proposal` with `description`.
    pub fn hash_proposal(&self, proposal: &Proposal, description: &String) -> (proposal_id:
        ProposalId)
        requires
            encodable(*proposal),
        ensures
            proposal_id.0@ == spec_hash_proposal_with_description(*proposal, description@),
    {
        crate::govern::hashing::hash_proposal_with_description(proposal, description)
    }

    /// Makes `proposal`, described by `description`, in the name of
    /// `caller`, who sends `transferred_value` along as the deposit. The
    /// answer is the identifier of the proposal.
    pub fn propose(
        &mut self,
        events: &mut Vec<Event>,
        caller: AccountId,
        transferred_value: Balance,
        now: Timestamp,
        proposal: Proposal,
        description: String,
    ) -> (res: Result<ProposalId, GovernError>)
        requires
            old(self).wf(),
            encodable(proposal),
        ensures
            final(self).wf(),
            match res {
                Ok(proposal_id) => {
                    &&& proposal_id.0@ == spec_hash_proposal_with_description(proposal, description@)
                    &&& old(self).spec_check_rules(proposal, caller, transferred_value) is Ok
                    &&& old(self).gov().spec_state_of(proposal_id) is None
                    &&& final(self).proposed(old(self), proposal_id, proposal, caller, now)
                    &&& final(events)@ == old(events)@.push(
                        Event::ProposalCreated(
                            ProposalCreated { proposal_id, proposal, description },
                        ),
                    )
                },
                Err(error) => {
                    &&& *final(self) == *old(self)
                    &&& final(events)@ == old(events)@
                    &&& if old(self).spec_check_rules(proposal, caller, transferred_value) is Err {
                        Err::<(), GovernError>(error) == old(self).spec_check_rules(
                            proposal,
                            caller,
                            transferred_value,
                        )
                    } else {
                        &&& error == GovernError::ProposalAlreadyExists
                        &&& exists|proposal_id: ProposalId|
                            proposal_id.0@ == spec_hash_proposal_with_description(proposal, description@) && #[trigger] old(self).gov().spec_state_of(proposal_id) is Some
                    }
                },
            },
    {
        if let Err(error) = self._check_rules(&proposal, &caller, transferred_value) {
            return Err(error);
        }
        let proposal_id = self.hash_proposal(&proposal, &description);
        match self._register_proposal(events, &proposal_id, proposal, description, &caller, now) {
            Ok(()) => Ok(proposal_id),
            Err(error) => Err(error),
        }
    }
}

} // verus!
