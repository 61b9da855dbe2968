//! Voting on a proposal.

use vstd::prelude::*;
use crate::events::Event;
use crate::events::VoteCasted;
use crate::govern::engine::Governor;
use crate::govern::errors::GovernError;
use crate::govern::structs::ProposalId;
use crate::govern::structs::ProposalState;
use crate::govern::structs::ProposalStatus;
use crate::govern::structs::UserVote;
use crate::govern::structs::Vote;
use crate::stake::errors::MathError;
use crate::types::AccountId;
use crate::types::Balance;

verus! {

impl Governor {
    /// What a vote of `caller` on `proposal_id` answers: the state of the
    /// proposal after the vote. The proposal must exist and be active; what
    /// `caller` holds is looked at only then. The vote has the weight of
    /// what `caller` holds in stake and in unstakes that it initialized
    /// since the proposal was made.
    pub open spec fn spec_vote(&self, caller: AccountId, proposal_id: ProposalId, vote: Vote) -> Result<
        ProposalState,
        GovernError,
    > {
        match self.gov().spec_state_of(proposal_id) {
            None => Err(GovernError::ProposalDoesntExist),
            Some(state) => {
                let amount = self.stakes().storage().spec_stake_and_unstakes_initialized_after(
                    caller,
                    state.start,
                );
                if state.status != ProposalStatus::Active {
                    Err(GovernError::NotActive)
                } else if amount > u128::MAX {
                    Err(GovernError::MathError(MathError::Add))
                } else {
                    self.gov().spec_update_vote_of_for(caller, proposal_id, vote, amount as Balance)
                }
            },
        }
    }

    /// Whether `self` is what `before` becomes once `account` has cast
    /// `amount` votes for `vote` on `proposal_id`, which leaves the proposal
    /// in `state`.
    pub open spec fn voted(
        &self,
        before: &Self,
        account: AccountId,
        proposal_id: ProposalId,
        vote: Vote,
        amount: Balance,
        state: ProposalState,
    ) -> bool {
        &&& self.stakes() == before.stakes()
        &&& self.gov_reward() == before.gov_reward()
        &&& self.gov().state@ == before.gov().state@.insert(proposal_id, state)
        &&& self.gov().state.keys() == before.gov().state.keys()
        &&& self.gov().votes@ == before.gov().votes@.insert(
            (account, proposal_id),
            UserVote { vote, amount },
        )
        &&& self.gov().same_rules(&before.gov())
        &&& self.gov().same_counters(&before.gov())
    }

    /// Casts `amount` votes of `account` for `vote` on an active proposal.
    /// A vote that the account cast before is withdrawn first.
    pub fn _update_vote_of_for(
        &mut self,
        events: &mut Vec<Event>,
        account: &AccountId,
        proposal_id: &ProposalId,
        vote: &Vote,
        amount: &Balance,
        reason: Vec<u8>,
    ) -> (res: Result<(), GovernError>)
        requires
            old(self).wf(),
        ensures
            final(self).wf(),
            match old(self).gov().spec_update_vote_of_for(*account, *proposal_id, *vote, *amount) {
                Ok(state) => {
                    &&& res is Ok
                    &&& final(self).voted(old(self), *account, *proposal_id, *vote, *amount, state)
                    &&& final(events)@ == old(events)@.push(
                        Event::VoteCasted(
                            VoteCasted {
                                account: *account,
                                proposal_id: *proposal_id,
                                vote: *vote,
                                reason,
                            },
                        ),
                    )
                },
                Err(error) => res == Err::<(), GovernError>(error) && *final(self) == *old(self)
                    && final(events)@ == old(events)@,
            },
    {
        match self.gov.update_vote_of_for(account, proposal_id, vote, amount) {
            Ok(()) => {
                events.push(
                    Event::VoteCasted(
                        VoteCasted {
                            account: *account,
                            proposal_id: *proposal_id,
                            vote: *vote,
                            reason,
                        },
                    ),
                );
                Ok(())
            },
            Err(error) => Err(error),
        }
    }

    /// Casts the vote of `caller` on `proposal_id`, with all the votes that
    /// it has. A vote that it cast before is replaced, with the votes that
    /// it has now. The reason goes to the log and nowhere else.
    pub fn vote(
        &mut self,
        events: &mut Vec<Event>,
        caller: AccountId,
        proposal_id: ProposalId,
        vote: Vote,
        reason: Vec<u8>,
    ) -> (res: Result<(), GovernError>)
        requires
            old(self).wf(),
        ensures
            final(self).wf(),
            match old(self).spec_vote(caller, proposal_id, vote) {
                Ok(state) => {
                    &&& res is Ok
                    &&& final(self).voted(
                        old(self),
                        caller,
                        proposal_id,
                        vote,
                        old(self).stakes().storage().spec_stake_and_unstakes_initialized_after(
                            caller,
                            old(self).gov().state@[proposal_id].start,
                        ) as Balance,
                        state,
                    )
                    &&& final(events)@ == old(events)@.push(
                        Event::VoteCasted(
                            VoteCasted { account: caller, proposal_id, vote, reason },
                        ),
                    )
                },
                Err(error) => res == Err::<(), GovernError>(error) && *final(self) == *old(self)
                    && final(events)@ == old(events)@,
            },
    {
        let state = match self._state_of(&proposal_id) {
            Some(state) => state,
            None => {
                return Err(GovernError::ProposalDoesntExist);
            },
        };
        if state.status != ProposalStatus::Active {
            return Err(GovernError::NotActive);
        }
        let amount = match self._get_votes_at(&caller, &state.start) {
            Ok(amount) => amount,
            Err(error) => {
                return Err(GovernError::MathError(error));
            },
        };
        self._update_vote_of_for(events, &caller, &proposal_id, &vote, &amount, reason)
    }
}

} // verus!
