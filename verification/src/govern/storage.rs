//! What the governance engine stores: the rules, the proposals and the
//! votes.

use vstd::prelude::*;
use crate::govern::errors::GovernError;
use crate::govern::structs::ProposalId;
use crate::govern::structs::ProposalRules;
use crate::govern::structs::ProposalState;
use crate::govern::structs::ProposalStatus;
use crate::govern::structs::RulesId;
use crate::govern::structs::UserVote;
use crate::govern::structs::Vote;
use crate::stake::errors::MathError;
use crate::table::Table;
use crate::types::AccountId;
use crate::types::Balance;
use crate::types::E12;

verus! {

/// The votes that a proposal has got for one of the three choices.
pub open spec fn spec_votes_for_choice(state: ProposalState, vote: Vote) -> Balance {
    match vote {
        Vote::Agreed => state.votes_for,
        Vote::Disagreed => state.votes_against,
        Vote::DisagreedWithProposerSlashing => state.votes_against_with_slash,
    }
}

/// The state of a proposal with the votes for one choice set to `votes`.
pub open spec fn spec_with_votes_for_choice(
    state: ProposalState,
    vote: Vote,
    votes: Balance,
) -> ProposalState {
    match vote {
        Vote::Agreed => ProposalState { votes_for: votes, ..state },
        Vote::Disagreed => ProposalState { votes_against: votes, ..state },
        Vote::DisagreedWithProposerSlashing => ProposalState {
            votes_against_with_slash: votes,
            ..state
        },
    }
}

/// The state of a proposal after a vote of `amount` for `vote` by an account
/// whose earlier vote, if it cast one, was `earlier`: the earlier vote leaves
/// its choice, and the new one joins its own. Sums and differences that do not
/// fit are refused.
pub open spec fn spec_tally(
    state: ProposalState,
    earlier: Option<UserVote>,
    vote: Vote,
    amount: Balance,
) -> Result<ProposalState, GovernError> {
    let withdrawn = match earlier {
        None => state,
        Some(earlier) => spec_with_votes_for_choice(
            state,
            earlier.vote,
            (spec_votes_for_choice(state, earlier.vote) - earlier.amount) as Balance,
        ),
    };
    if earlier matches Some(cast) && spec_votes_for_choice(state, cast.vote) < cast.amount {
        Err(GovernError::MathError(MathError::Sub))
    } else if spec_votes_for_choice(withdrawn, vote) + amount > u128::MAX {
        Err(GovernError::MathError(MathError::Add))
    } else {
        Ok(
            spec_with_votes_for_choice(
                withdrawn,
                vote,
                (spec_votes_for_choice(withdrawn, vote) + amount) as Balance,
            ),
        )
    }
}

pub fn votes_for_choice(state: &ProposalState, vote: &Vote) -> (votes: Balance)
    ensures
        votes == spec_votes_for_choice(*state, *vote),
{
    match vote {
        Vote::Agreed => state.votes_for,
        Vote::Disagreed => state.votes_against,
        Vote::DisagreedWithProposerSlashing => state.votes_against_with_slash,
    }
}

pub fn with_votes_for_choice(state: &ProposalState, vote: &Vote, votes: Balance) -> (res:
    ProposalState)
    ensures
        res == spec_with_votes_for_choice(*state, *vote, votes),
{
    let mut res = *state;
    match vote {
        Vote::Agreed => {
            res.votes_for = votes;
        },
        Vote::Disagreed => {
            res.votes_against = votes;
        },
        Vote::DisagreedWithProposerSlashing => {
            res.votes_against_with_slash = votes;
        },
    }
    res
}

/// Moves the vote of one account from where it was to where it is cast now.
pub fn tally(state: &ProposalState, earlier: &Option<UserVote>, vote: &Vote, amount: &Balance) -> (res:
    Result<ProposalState, GovernError>)
    ensures
        res == spec_tally(*state, *earlier, *vote, *amount),
{
    let withdrawn = match earlier {
        None => *state,
        Some(earlier) => {
            match votes_for_choice(state, &earlier.vote).checked_sub(earlier.amount) {
                Some(left) => with_votes_for_choice(state, &earlier.vote, left),
                None => {
                    return Err(GovernError::MathError(MathError::Sub));
                },
            }
        },
    };
    match votes_for_choice(&withdrawn, vote).checked_add(*amount) {
        Some(votes) => Ok(with_votes_for_choice(&withdrawn, vote, votes)),
        None => Err(GovernError::MathError(MathError::Add)),
    }
}

/// The rules, the proposals and the votes.
pub struct GovernStorage {
    pub rules: Table<RulesId, ProposalRules>,
    pub allowed_rules: Table<RulesId, ()>,
    pub next_rule_id: RulesId,
    pub active_proposals: u32,
    pub finalized_proposals: u32,
    /// The proposals, in the order in which they were made.
    pub state: Table<ProposalId, ProposalState>,
    pub votes: Table<(AccountId, ProposalId), UserVote>,
}

impl Default for GovernStorage {
    fn default() -> (storage: Self)
        ensures
            storage.wf(),
            storage.rules@ == Map::<RulesId, ProposalRules>::empty(),
            storage.allowed_rules@ == Map::<RulesId, ()>::empty(),
            storage.next_rule_id == 0,
            storage.active_proposals == 0,
            storage.finalized_proposals == 0,
            storage.state@ == Map::<ProposalId, ProposalState>::empty(),
            storage.state.keys() == Seq::<ProposalId>::empty(),
            storage.votes@ == Map::<(AccountId, ProposalId), UserVote>::empty(),
    {
        GovernStorage {
            rules: Table::new(),
            allowed_rules: Table::new(),
            next_rule_id: 0,
            active_proposals: 0,
            finalized_proposals: 0,
            state: Table::new(),
            votes: Table::new(),
        }
    }
}

impl GovernStorage {
    pub open spec fn wf(&self) -> bool {
        &&& self.rules.wf()
        &&& self.allowed_rules.wf()
        &&& self.state.wf()
        &&& self.votes.wf()
    }

    pub open spec fn spec_rule(&self, rules_id: RulesId) -> Option<ProposalRules> {
        if self.rules@.dom().contains(rules_id) {
            Some(self.rules@[rules_id])
        } else {
            None
        }
    }

    pub open spec fn spec_rule_allowed(&self, rules_id: RulesId) -> bool {
        self.allowed_rules@.dom().contains(rules_id)
    }

    pub open spec fn spec_state_of(&self, proposal_id: ProposalId) -> Option<ProposalState> {
        if self.state@.dom().contains(proposal_id) {
            Some(self.state@[proposal_id])
        } else {
            None
        }
    }

    pub open spec fn spec_status_of(&self, proposal_id: ProposalId) -> Option<ProposalStatus> {
        match self.spec_state_of(proposal_id) {
            Some(state) => Some(state.status),
            None => None,
        }
    }

    pub open spec fn spec_vote_of_for(&self, account: AccountId, proposal_id: ProposalId) -> Option<
        UserVote,
    > {
        if self.votes@.dom().contains((account, proposal_id)) {
            Some(self.votes@[(account, proposal_id)])
        } else {
            None
        }
    }

    /// Whether every proposal has a time of finalization exactly when it
    /// is no longer active.
    pub open spec fn proposals_dated(&self) -> bool {
        forall|proposal_id: ProposalId| #[trigger]
            self.state@.dom().contains(proposal_id) ==> (self.state@[proposal_id].status
                == ProposalStatus::Active) == self.state@[proposal_id].finalized is None
    }

    /// Whether the rules have identifiers below the next one, and none but
    /// rules that there are is allowed.
    pub open spec fn rules_numbered(&self) -> bool {
        &&& forall|rules_id: RulesId| #[trigger]
            self.rules@.dom().contains(rules_id) ==> rules_id < self.next_rule_id
        &&& forall|rules_id: RulesId| #[trigger]
            self.allowed_rules@.dom().contains(rules_id) ==> self.rules@.dom().contains(rules_id)
    }

    /// Whether nothing but the proposals and the votes differs between two
    /// storages.
    pub open spec fn same_rules(&self, other: &Self) -> bool {
        &&& self.rules == other.rules
        &&& self.allowed_rules == other.allowed_rules
        &&& self.next_rule_id == other.next_rule_id
    }

    /// Whether two storages count the same proposals.
    pub open spec fn same_counters(&self, other: &Self) -> bool {
        &&& self.active_proposals == other.active_proposals
        &&& self.finalized_proposals == other.finalized_proposals
    }

    pub fn rule(&self, rules_id: &RulesId) -> (rules: Option<ProposalRules>)
        requires
            self.wf(),
        ensures
            rules == self.spec_rule(*rules_id),
    {
        match self.rules.get(rules_id) {
            Some(rules) => Some(*rules),
            None => None,
        }
    }

    pub fn rule_allowed(&self, rules_id: &RulesId) -> (allowed: bool)
        requires
            self.wf(),
        ensures
            allowed == self.spec_rule_allowed(*rules_id),
    {
        self.allowed_rules.get(rules_id).is_some()
    }

    pub fn next_rule_id(&self) -> (next_rule_id: RulesId)
        ensures
            next_rule_id == self.next_rule_id,
    {
        self.next_rule_id
    }

    pub fn status_of(&self, proposal_id: &ProposalId) -> (status: Option<ProposalStatus>)
        requires
            self.wf(),
        ensures
            status == self.spec_status_of(*proposal_id),
    {
        match self.state.get(proposal_id) {
            Some(state) => Some(state.status),
            None => None,
        }
    }

    pub fn state_of(&self, proposal_id: &ProposalId) -> (state: Option<ProposalState>)
        requires
            self.wf(),
        ensures
            state == self.spec_state_of(*proposal_id),
    {
        match self.state.get(proposal_id) {
            Some(state) => Some(*state),
            None => None,
        }
    }

    pub fn vote_of_for(&self, account: &AccountId, proposal_id: &ProposalId) -> (vote: Option<
        UserVote,
    >)
        requires
            self.wf(),
        ensures
            vote == self.spec_vote_of_for(*account, *proposal_id),
    {
        match self.votes.get(&(*account, *proposal_id)) {
            Some(vote) => Some(*vote),
            None => None,
        }
    }

    /// What [`Self::update_vote_of_for`] answers: the state of the proposal
    /// after the vote.
    pub open spec fn spec_update_vote_of_for(
        &self,
        account: AccountId,
        proposal_id: ProposalId,
        vote: Vote,
        amount: Balance,
    ) -> Result<ProposalState, GovernError> {
        match self.spec_state_of(proposal_id) {
            None => Err(GovernError::ProposalDoesntExist),
            Some(state) => if state.status != ProposalStatus::Active {
                Err(GovernError::NotActive)
            } else if amount == 0 {
                Err(GovernError::ZeroVotes)
            } else {
                spec_tally(state, self.spec_vote_of_for(account, proposal_id), vote, amount)
            },
        }
    }

    /// Casts the vote of `account` on a proposal, with `amount` votes. The
    /// proposal must exist and be active, and only then does the amount
    /// matter, which must not be 0. A vote that the account cast before is
    /// withdrawn first.
    pub fn update_vote_of_for(
        &mut self,
        account: &AccountId,
        proposal_id: &ProposalId,
        vote: &Vote,
        amount: &Balance,
    ) -> (res: Result<(), GovernError>)
        requires
            old(self).wf(),
        ensures
            final(self).wf(),
            match old(self).spec_update_vote_of_for(*account, *proposal_id, *vote, *amount) {
                Ok(state) => {
                    &&& res is Ok
                    &&& final(self).state@ == old(self).state@.insert(*proposal_id, state)
                    &&& final(self).state.keys() == old(self).state.keys()
                    &&& final(self).votes@ == old(self).votes@.insert(
                        (*account, *proposal_id),
                        UserVote { vote: *vote, amount: *amount },
                    )
                    &&& final(self).same_rules(old(self))
                    &&& final(self).same_counters(old(self))
                },
                Err(error) => res == Err::<(), GovernError>(error) && *final(self) == *old(self),
            },
    {
        let state = match self.state_of(proposal_id) {
            Some(state) => state,
            None => {
                return Err(GovernError::ProposalDoesntExist);
            },
        };
        if state.status != ProposalStatus::Active {
            return Err(GovernError::NotActive);
        }
        if *amount == 0 {
            return Err(GovernError::ZeroVotes);
        }
        let user_vote = self.vote_of_for(account, proposal_id);
        let state = match tally(&state, &user_vote, vote, amount) {
            Ok(state) => state,
            Err(error) => {
                return Err(error);
            },
        };
        let new_vote = UserVote { vote: *vote, amount: *amount };
        self.votes.insert((*account, *proposal_id), new_vote);
        self.state.insert(*proposal_id, state);
        Ok(())
    }

    /// What [`Self::add_new_rule`] answers: the identifier of the new rules.
    pub open spec fn spec_add_new_rule(&self, rules: ProposalRules) -> Result<RulesId, GovernError> {
        if rules.proposer_slash_part_e12 > E12 || rules.voter_slash_part_e12 > E12 {
            Err(GovernError::WrongParameters)
        } else if self.next_rule_id == u64::MAX {
            Err(GovernError::MathError(MathError::Add))
        } else {
            Ok(self.next_rule_id)
        }
    }

    /// Stores new rules under the next identifier. Rules that slash more
    /// than the whole are refused.
    pub fn add_new_rule(&mut self, rules: &ProposalRules) -> (res: Result<u64, GovernError>)
        requires
            old(self).wf(),
        ensures
            final(self).wf(),
            res == old(self).spec_add_new_rule(*rules),
            res is Err ==> *final(self) == *old(self),
            res matches Ok(rules_id) ==> *final(self) == (GovernStorage {
                rules: final(self).rules,
                next_rule_id: (rules_id + 1) as RulesId,
                ..*old(self)
            }) && final(self).rules@ == old(self).rules@.insert(rules_id, *rules),
    {
        if rules.proposer_slash_part_e12 as u128 > E12 || rules.voter_slash_part_e12 as u128 > E12 {
            return Err(GovernError::WrongParameters);
        }
        let next_rule_id = self.next_rule_id;
        if next_rule_id == u64::MAX {
            return Err(GovernError::MathError(MathError::Add));
        }
        self.rules.insert(next_rule_id, *rules);
        self.next_rule_id = next_rule_id + 1;
        Ok(next_rule_id)
    }

    /// Whether [`Self::allow_rules`] changes anything.
    pub open spec fn spec_allow_rules_changes(&self, rules_id: RulesId, allow: bool) -> bool {
        self.spec_rule(rules_id) is Some && self.spec_rule_allowed(rules_id) != allow
    }

    /// Allows or disallows the rules `rules_id` for new proposals. Rules
    /// that are as asked stay as they are.
    pub fn allow_rules(&mut self, rules_id: &RulesId, allow: &bool) -> (res: Result<
        (),
        GovernError,
    >)
        requires
            old(self).wf(),
        ensures
            final(self).wf(),
            res == (if old(self).spec_rule(*rules_id) is None {
                Err::<(), GovernError>(GovernError::NoSuchRule)
            } else {
                Ok::<(), GovernError>(())
            }),
            !old(self).spec_allow_rules_changes(*rules_id, *allow) ==> *final(self) == *old(self),
            old(self).spec_allow_rules_changes(*rules_id, *allow) ==> *final(self) == (
            GovernStorage { allowed_rules: final(self).allowed_rules, ..*old(self) })
                && final(self).allowed_rules@ == if *allow {
                old(self).allowed_rules@.insert(*rules_id, ())
            } else {
                old(self).allowed_rules@.remove(*rules_id)
            },
            res is Ok ==> final(self).spec_rule_allowed(*rules_id) == *allow,
    {
        if self.rule(rules_id).is_none() {
            return Err(GovernError::NoSuchRule);
        }
        if self.rule_allowed(rules_id) == *allow {
            return Ok(());
        }
        if *allow {
            self.allowed_rules.insert(*rules_id, ());
        } else {
            self.allowed_rules.remove(rules_id);
        }
        Ok(())
    }
}

/// The votes that were settled: a voter was rewarded or an account that did
/// not vote was slashed.
pub struct GovernRewardableSlashableStorage {
    pub claimed_or_slashed: Table<(AccountId, ProposalId), ()>,
}

impl Default for GovernRewardableSlashableStorage {
    fn default() -> (storage: Self)
        ensures
            storage.wf(),
            storage.claimed_or_slashed@ == Map::<(AccountId, ProposalId), ()>::empty(),
    {
        GovernRewardableSlashableStorage { claimed_or_slashed: Table::new() }
    }
}

impl GovernRewardableSlashableStorage {
    pub open spec fn wf(&self) -> bool {
        self.claimed_or_slashed.wf()
    }

    pub open spec fn spec_claimed_or_slashed(
        &self,
        account: AccountId,
        proposal_id: ProposalId,
    ) -> bool {
        self.claimed_or_slashed@.dom().contains((account, proposal_id))
    }

    pub fn claimed_or_slashed(&self, account: &AccountId, proposal_id: &ProposalId) -> (settled:
        bool)
        requires
            self.wf(),
        ensures
            settled == self.spec_claimed_or_slashed(*account, *proposal_id),
    {
        self.claimed_or_slashed.get(&(*account, *proposal_id)).is_some()
    }

    /// Notes that `account` was rewarded or slashed for `proposal_id`.
    pub fn mark_claimed_or_slashed(&mut self, account: &AccountId, proposal_id: &ProposalId)
        requires
            old(self).wf(),
        ensures
            final(self).wf(),
            final(self).claimed_or_slashed@ == old(self).claimed_or_slashed@.insert(
                (*account, *proposal_id),
                (),
            ),
    {
        self.claimed_or_slashed.insert((*account, *proposal_id), ());
    }
}

} // verus!
