//! The governance engine. A staker with a large enough part of the total
//! stake makes a proposal; stakers vote on it with what they staked when it
//! was made; it is finalized once the votes reach what is needed at that
//! time; and, where it succeeded, its calls are made.

use vstd::prelude::*;
use crate::govern::storage::GovernRewardableSlashableStorage;
use crate::govern::storage::GovernStorage;
use crate::govern::structs::ProposalId;
use crate::govern::structs::ProposalRules;
use crate::govern::structs::ProposalState;
use crate::govern::structs::ProposalStatus;
use crate::govern::structs::RulesId;
use crate::govern::structs::UserVote;
use crate::stake::errors::MathError;
use crate::stake::ledger::Staker;
use crate::types::AccountId;
use crate::types::Balance;
use crate::types::E12;
use crate::types::Timestamp;

pub mod executing;
pub mod finalizing;
pub mod ledger;
pub mod proposing;
pub mod rules;
pub mod settling;
pub mod voting;

verus! {

/// The grace period, in the units of a timestamp: an account that first
/// staked less than this long before a proposal was finalized is not held
/// to have missed the vote.
pub const SLASH_GRACE_PERIOD: Timestamp = 24;

/// The governance engine, with the staking ledger that it votes by.
pub struct Governor {
    staker: Staker,
    gov: GovernStorage,
    gov_reward: GovernRewardableSlashableStorage,
}

impl Governor {
    /// The staking ledger.
    pub closed spec fn stakes(&self) -> Staker {
        self.staker
    }

    /// The rules, the proposals and the votes.
    pub closed spec fn gov(&self) -> GovernStorage {
        self.gov
    }

    /// The votes that were settled.
    pub closed spec fn gov_reward(&self) -> GovernRewardableSlashableStorage {
        self.gov_reward
    }

    /// What holds of the engine at all times: the ledger and the tables are
    /// well formed, a proposal has a time of finalization exactly when it
    /// is no longer active, the rules have identifiers below the next one,
    /// and none but rules that there are is allowed.
    pub open spec fn wf(&self) -> bool {
        &&& self.stakes().wf()
        &&& self.gov().wf()
        &&& self.gov_reward().wf()
        &&& self.gov().proposals_dated()
        &&& self.gov().rules_numbered()
    }

    /// An engine that is owned by `owner`, holds no stakes and no proposals,
    /// and has `rules` as its first rules, which are allowed.
    pub fn new(
        owner: AccountId,
        want: AccountId,
        unstake_period: Timestamp,
        maximal_number_of_unstakes: u64,
        rules: ProposalRules,
    ) -> (governor: Self)
        requires
            rules.proposer_slash_part_e12 <= E12,
            rules.voter_slash_part_e12 <= E12,
        ensures
            governor.wf(),
            governor.stakes().spec_owner() == owner,
            governor.stakes().storage().want == want,
            governor.stakes().storage().unstake_period == unstake_period,
            governor.stakes().storage().maximal_number_of_unstakes == maximal_number_of_unstakes,
            governor.stakes().storage().total_stake == 0,
            governor.stakes().storage().total_unstake == 0,
            governor.stakes().counter() == 0,
            governor.gov().rules@ == Map::<RulesId, ProposalRules>::empty().insert(0, rules),
            governor.gov().allowed_rules@ == Map::<RulesId, ()>::empty().insert(0, ()),
            governor.gov().next_rule_id == 1,
            governor.gov().state@ == Map::<ProposalId, ProposalState>::empty(),
            governor.gov().state.keys() == Seq::<ProposalId>::empty(),
            governor.gov().votes@ == Map::<(AccountId, ProposalId), UserVote>::empty(),
            governor.gov().active_proposals == 0,
            governor.gov().finalized_proposals == 0,
            governor.gov_reward().claimed_or_slashed@ == Map::<
                (AccountId, ProposalId),
                (),
            >::empty(),
    {
        let staker = Staker::new(owner, want, unstake_period, maximal_number_of_unstakes);
        let mut gov = GovernStorage::default();
        gov.add_new_rule(&rules).unwrap();
        gov.allow_rules(&0, &true).unwrap();
        Governor { staker, gov, gov_reward: GovernRewardableSlashableStorage::default() }
    }

    /// The engine that holds what the parts hold, where they make up an
    /// engine: a proposal must have a time of finalization exactly when it
    /// is no longer active, the rules must have identifiers below the next
    /// one, and none but rules that there are may be allowed.
    pub fn from_parts(
        staker: Staker,
        gov: GovernStorage,
        gov_reward: GovernRewardableSlashableStorage,
    ) -> (governor: Option<Self>)
        requires
            staker.wf(),
            gov.wf(),
            gov_reward.wf(),
        ensures
            governor is Some == (gov.proposals_dated() && gov.rules_numbered()),
            governor matches Some(governor) ==> {
                &&& governor.wf()
                &&& governor.stakes() == staker
                &&& governor.gov() == gov
                &&& governor.gov_reward() == gov_reward
            },
    {
        let mut i: usize = 0;
        while i < gov.state.len()
            invariant
                gov.wf(),
                i <= gov.state.keys().len(),
                forall|j: int|
                    0 <= j < i ==> ((#[trigger] gov.state.values()[j]).status
                        == ProposalStatus::Active) == gov.state.values()[j].finalized is None,
            decreases gov.state.keys().len() - i,
        {
            let state = gov.state.value_at(i);
            let active = state.status == ProposalStatus::Active;
            if active != state.finalized.is_none() {
                proof {
                    gov.state.lemma_index_of(i as int);
                    assert(gov.state@.dom().contains(gov.state.keys()[i as int]));
                }
                return None;
            }
            i += 1;
        }
        proof {
            assert forall|proposal_id: ProposalId| #[trigger]
                gov.state@.dom().contains(proposal_id) implies (gov.state@[proposal_id].status
                == ProposalStatus::Active) == gov.state@[proposal_id].finalized is None by {
                let j = gov.state.index_of(proposal_id);
                assert(gov.state.keys()[j] == proposal_id);
                assert(gov.state@[proposal_id] == gov.state.values()[j]);
            }
        }
        let mut i: usize = 0;
        while i < gov.rules.len()
            invariant
                gov.wf(),
                i <= gov.rules.keys().len(),
                forall|j: int| 0 <= j < i ==> #[trigger] gov.rules.keys()[j] < gov.next_rule_id,
            decreases gov.rules.keys().len() - i,
        {
            if *gov.rules.key_at(i) >= gov.next_rule_id {
                proof {
                    gov.rules.lemma_index_of(i as int);
                    assert(gov.rules@.dom().contains(gov.rules.keys()[i as int]));
                }
                return None;
            }
            i += 1;
        }
        proof {
            assert forall|rules_id: RulesId| #[trigger]
                gov.rules@.dom().contains(rules_id) implies rules_id < gov.next_rule_id by {
                let j = gov.rules.index_of(rules_id);
                assert(gov.rules.keys()[j] == rules_id);
            }
        }
        let mut i: usize = 0;
        while i < gov.allowed_rules.len()
            invariant
                gov.wf(),
                i <= gov.allowed_rules.keys().len(),
                forall|j: int|
                    0 <= j < i ==> gov.rules@.dom().contains(
                        #[trigger] gov.allowed_rules.keys()[j],
                    ),
            decreases gov.allowed_rules.keys().len() - i,
        {
            if gov.rules.get(gov.allowed_rules.key_at(i)).is_none() {
                proof {
                    gov.allowed_rules.lemma_index_of(i as int);
                    assert(gov.allowed_rules@.dom().contains(gov.allowed_rules.keys()[i as int]));
                }
                return None;
            }
            i += 1;
        }
        proof {
            assert forall|rules_id: RulesId| #[trigger]
                gov.allowed_rules@.dom().contains(rules_id) implies gov.rules@.dom().contains(
                rules_id,
            ) by {
                let j = gov.allowed_rules.index_of(rules_id);
                assert(gov.allowed_rules.keys()[j] == rules_id);
            }
        }
        Some(Governor { staker, gov, gov_reward })
    }

    /// The parts of the engine: the staking ledger, the rules, proposals
    /// and votes, and the votes that were settled.
    pub fn into_parts(self) -> (parts: (Staker, GovernStorage, GovernRewardableSlashableStorage))
        ensures
            parts.0 == self.stakes(),
            parts.1 == self.gov(),
            parts.2 == self.gov_reward(),
    {
        (self.staker, self.gov, self.gov_reward)
    }

    /// The staking ledger, to look things up in.
    pub fn staker(&self) -> (staker: &Staker)
        ensures
            *staker == self.stakes(),
    {
        &self.staker
    }

    pub fn active_proposals(&self) -> (active_proposals: u32)
        ensures
            active_proposals == self.gov().active_proposals,
    {
        self.gov.active_proposals
    }

    pub fn finalized_proposals(&self) -> (finalized_proposals: u32)
        ensures
            finalized_proposals == self.gov().finalized_proposals,
    {
        self.gov.finalized_proposals
    }

    pub fn rules(&self, rules_id: RulesId) -> (rules: Option<ProposalRules>)
        requires
            self.wf(),
        ensures
            rules == self.gov().spec_rule(rules_id),
    {
        self._rule(&rules_id)
    }

    pub fn rules_allowed(&self, rules_id: RulesId) -> (allowed: bool)
        requires
            self.wf(),
        ensures
            allowed == self.gov().spec_rule_allowed(rules_id),
    {
        self._rule_allowed(&rules_id)
    }

    pub fn next_rule_id(&self) -> (next_rule_id: RulesId)
        ensures
            next_rule_id == self.gov().next_rule_id,
    {
        self._next_rule_id()
    }

    pub fn status(&self, proposal_id: ProposalId) -> (status: Option<ProposalStatus>)
        requires
            self.wf(),
        ensures
            status == self.gov().spec_status_of(proposal_id),
    {
        self._status_of(&proposal_id)
    }

    pub fn state(&self, proposal_id: ProposalId) -> (state: Option<ProposalState>)
        requires
            self.wf(),
        ensures
            state == self.gov().spec_state_of(proposal_id),
    {
        self._state_of(&proposal_id)
    }

    /// The identifiers of the proposals, in the order in which they were
    /// made.
    pub fn proposal_ids(&self) -> (proposal_ids: Vec<ProposalId>)
        requires
            self.wf(),
        ensures
            proposal_ids@ == self.gov().state.keys(),
    {
        self._proposal_ids()
    }

    pub fn vote_of_for(&self, account: AccountId, proposal_id: ProposalId) -> (vote: Option<
        UserVote,
    >)
        requires
            self.wf(),
        ensures
            vote == self.gov().spec_vote_of_for(account, proposal_id),
    {
        self._vote_of_for(&account, &proposal_id)
    }

    pub fn claimed_or_slashed(&self, account: AccountId, proposal_id: ProposalId) -> (settled: bool)
        requires
            self.wf(),
        ensures
            settled == self.gov_reward().spec_claimed_or_slashed(account, proposal_id),
    {
        self._claimed_or_slashed(&account, &proposal_id)
    }

    pub fn _rule(&self, rules_id: &RulesId) -> (rules: Option<ProposalRules>)
        requires
            self.wf(),
        ensures
            rules == self.gov().spec_rule(*rules_id),
    {
        self.gov.rule(rules_id)
    }

    pub fn _rule_allowed(&self, rules_id: &RulesId) -> (allowed: bool)
        requires
            self.wf(),
        ensures
            allowed == self.gov().spec_rule_allowed(*rules_id),
    {
        self.gov.rule_allowed(rules_id)
    }

    pub fn _next_rule_id(&self) -> (next_rule_id: RulesId)
        ensures
            next_rule_id == self.gov().next_rule_id,
    {
        self.gov.next_rule_id
    }

    pub fn _status_of(&self, proposal_id: &ProposalId) -> (status: Option<ProposalStatus>)
        requires
            self.wf(),
        ensures
            status == self.gov().spec_status_of(*proposal_id),
    {
        self.gov.status_of(proposal_id)
    }

    pub fn _state_of(&self, proposal_id: &ProposalId) -> (state: Option<ProposalState>)
        requires
            self.wf(),
        ensures
            state == self.gov().spec_state_of(*proposal_id),
    {
        self.gov.state_of(proposal_id)
    }

    pub fn _proposal_ids(&self) -> (proposal_ids: Vec<ProposalId>)
        requires
            self.wf(),
        ensures
            proposal_ids@ == self.gov().state.keys(),
    {
        let mut proposal_ids: Vec<ProposalId> = Vec::new();
        let mut i: usize = 0;
        while i < self.gov.state.len()
            invariant
                self.gov.state.wf(),
                i <= self.gov.state.keys().len(),
                proposal_ids@ == self.gov.state.keys().take(i as int),
            decreases self.gov.state.keys().len() - i,
        {
            proposal_ids.push(*self.gov.state.key_at(i));
            assert(self.gov.state.keys().take(i + 1) =~= self.gov.state.keys().take(
                i as int,
            ).push(self.gov.state.keys()[i as int]));
            i += 1;
        }
        assert(self.gov.state.keys().take(self.gov.state.keys().len() as int)
            =~= self.gov.state.keys());
        proposal_ids
    }

    pub fn _vote_of_for(&self, account: &AccountId, proposal_id: &ProposalId) -> (vote: Option<
        UserVote,
    >)
        requires
            self.wf(),
        ensures
            vote == self.gov().spec_vote_of_for(*account, *proposal_id),
    {
        self.gov.vote_of_for(account, proposal_id)
    }

    pub fn _claimed_or_slashed(&self, account: &AccountId, proposal_id: &ProposalId) -> (settled:
        bool)
        requires
            self.wf(),
        ensures
            settled == self.gov_reward().spec_claimed_or_slashed(*account, *proposal_id),
    {
        self.gov_reward.claimed_or_slashed(account, proposal_id)
    }

    /// The votes that `account` has at `timestamp`: its stake and what it
    /// has sent to its queue since.
    pub fn _get_votes_at(&self, account: &AccountId, timestamp: &Timestamp) -> (res: Result<
        Balance,
        MathError,
    >)
        requires
            self.wf(),
        ensures
            match res {
                Ok(votes) => votes
                    == self.stakes().storage().spec_stake_and_unstakes_initialized_after(
                    *account,
                    *timestamp,
                ),
                Err(error) => error == MathError::Add
                    && self.stakes().storage().spec_stake_and_unstakes_initialized_after(
                    *account,
                    *timestamp,
                ) > u128::MAX,
            },
    {
        self.staker.stake_and_unstakes_initialized_after(*account, *timestamp)
    }
}

/// The part `part_e12`, in units of 10^-12, of `amount`. It is refused
/// where the product does not fit.
pub open spec fn spec_part_of(amount: Balance, part_e12: u64) -> Result<Balance, MathError> {
    if amount * part_e12 > u128::MAX {
        Err(MathError::Mul)
    } else {
        Ok((amount * part_e12 / (E12 as int)) as Balance)
    }
}

pub fn part_of(amount: Balance, part_e12: u64) -> (res: Result<Balance, MathError>)
    ensures
        res == spec_part_of(amount, part_e12),
{
    match amount.checked_mul(part_e12 as u128) {
        Some(product) => Ok(product / E12),
        None => Err(MathError::Mul),
    }
}

} // verus!
