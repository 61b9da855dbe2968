//! Settling the votes on a finalized proposal: rewarding those who
//! voted, and slashing those who did not.

use vstd::prelude::*;
use crate::events::Event;
use crate::events::VoterRewarded;
use crate::events::VoterSlashed;
use crate::govern::engine::Governor;
use crate::govern::engine::SLASH_GRACE_PERIOD;
use crate::govern::engine::part_of;
use crate::govern::engine::spec_part_of;
use crate::govern::errors::GovernError;
use crate::govern::structs::ProposalId;
use crate::govern::structs::ProposalStatus;
use crate::stake::errors::MathError;
use crate::stake::errors::StakeError;
use crate::stake::transfer::StakeTransfer;
use crate::trace::Call;
use crate::trace::Traced;
use crate::trace::token_answer;
use crate::types::AccountId;
use crate::types::Balance;

verus! {

impl Governor {
    /// The reward that `account` can claim for its vote on `proposal_id`:
    /// the part that the proposal offers of the votes that it cast. There
    /// is none while the proposal is active, once the vote is settled, for
    /// an account that did not vote, and where that part comes to 0 or is
    /// more than the total stake can take.
    pub open spec fn spec_voter_reward(&self, account: AccountId, proposal_id: ProposalId) -> Result<
        Balance,
        GovernError,
    > {
        match self.gov().spec_state_of(proposal_id) {
            None => Err(GovernError::ProposalDoesntExist),
            Some(state) => if state.status == ProposalStatus::Active {
                Err(GovernError::StillActive)
            } else if self.gov_reward().spec_claimed_or_slashed(account, proposal_id) {
                Err(GovernError::AlreadyClaimedOrSlashed)
            } else {
                match self.gov().spec_vote_of_for(account, proposal_id) {
                    None => Err(GovernError::DidntVote),
                    Some(vote) => match spec_part_of(vote.amount, state.voter_reward_part_e12) {
                        Ok(reward) => match self.stakes().spec_reward_refused(reward) {
                            Some(error) => Err(GovernError::StakeError(error)),
                            None => Ok(reward),
                        },
                        Err(error) => Err(GovernError::MathError(error)),
                    },
                }
            },
        }
    }

    /// Whether `self` and `logged` are what `before` and `log` become, and
    /// `res` is what is answered, when `account` claims its reward for
    /// `proposal_id` and the token ledger answers the minting with `mint`.
    pub open spec fn reward_settled(
        &self,
        before: &Self,
        log: Seq<Event>,
        logged: Seq<Event>,
        account: AccountId,
        proposal_id: ProposalId,
        mint: Result<(), StakeError>,
        res: Result<(), GovernError>,
    ) -> bool {
        match before.spec_voter_reward(account, proposal_id) {
            Err(error) => res == Err::<(), GovernError>(error) && *self == *before && logged
                == log,
            Ok(reward) => match mint {
                Err(error) => res == Err::<(), GovernError>(GovernError::StakeError(error))
                    && *self == *before && logged == log,
                Ok(_) => {
                    &&& res is Ok
                    &&& self.stakes().rewarded(&before.stakes(), account, reward)
                    &&& self.gov() == before.gov()
                    &&& self.gov_reward().claimed_or_slashed@
                        == before.gov_reward().claimed_or_slashed@.insert(
                        (account, proposal_id),
                        (),
                    )
                    &&& logged == log.push(
                        Event::Rewarded(crate::events::Rewarded { account, amount: reward }),
                    ).push(Event::VoterRewarded(VoterRewarded { account, proposal_id }))
                },
            },
        }
    }

    /// Works out the reward that `account` can claim for `proposal_id`.
    pub fn voter_reward(&self, account: &AccountId, proposal_id: &ProposalId) -> (res: Result<
        Balance,
        GovernError,
    >)
        requires
            self.wf(),
        ensures
            res == self.spec_voter_reward(*account, *proposal_id),
    {
        let state = match self._state_of(proposal_id) {
            Some(state) => state,
            None => {
                return Err(GovernError::ProposalDoesntExist);
            },
        };
        if state.status == ProposalStatus::Active {
            return Err(GovernError::StillActive);
        }
        if self._claimed_or_slashed(account, proposal_id) {
            return Err(GovernError::AlreadyClaimedOrSlashed);
        }
        let vote = match self._vote_of_for(account, proposal_id) {
            Some(vote) => vote,
            None => {
                return Err(GovernError::DidntVote);
            },
        };
        let reward = match part_of(vote.amount, state.voter_reward_part_e12) {
            Ok(reward) => reward,
            Err(error) => {
                return Err(GovernError::MathError(error));
            },
        };
        if let Some(error) = self.staker.reward_refused(reward) {
            return Err(GovernError::StakeError(error));
        }
        Ok(reward)
    }

    /// Books the reward of `account` for `proposal_id` once the token
    /// ledger has answered the minting with `mint`.
    pub fn settle_reward_voter(
        &mut self,
        events: &mut Vec<Event>,
        account: &AccountId,
        proposal_id: &ProposalId,
        mint: Result<(), StakeError>,
    ) -> (res: Result<(), GovernError>)
        requires
            old(self).wf(),
        ensures
            final(self).wf(),
            final(self).reward_settled(
                old(self),
                old(events)@,
                final(events)@,
                *account,
                *proposal_id,
                mint,
                res,
            ),
    {
        let reward = match self.voter_reward(account, proposal_id) {
            Ok(reward) => reward,
            Err(error) => {
                return Err(error);
            },
        };
        if let Err(error) = self.staker.settle_reward(events, *account, reward, mint) {
            return Err(GovernError::StakeError(error));
        }
        self.gov_reward.mark_claimed_or_slashed(account, proposal_id);
        events.push(
            Event::VoterRewarded(VoterRewarded { account: *account, proposal_id: *proposal_id }),
        );
        Ok(())
    }

    /// Rewards `account` for its vote on `proposal_id`, which must be
    /// finalized: its stake grows by the part that the proposal offers of
    /// the votes that it cast, and the token ledger is asked to mint that.
    /// A vote is rewarded once. Nothing is asked where there is no reward.
    pub fn _reward_voter<T: StakeTransfer>(
        &mut self,
        token: &mut Traced<T>,
        events: &mut Vec<Event>,
        account: &AccountId,
        proposal_id: &ProposalId,
    ) -> (res: Result<(), GovernError>)
        requires
            old(self).wf(),
        ensures
            final(self).wf(),
            match old(self).spec_voter_reward(*account, *proposal_id) {
                Err(_) => final(token).not_asked(old(token)),
                Ok(reward) => final(token).asked(
                    old(token),
                    Call::OnReward {
                        amount: reward,
                        answer: token_answer(final(token).last_call()),
                    },
                ),
            },
            final(self).reward_settled(
                old(self),
                old(events)@,
                final(events)@,
                *account,
                *proposal_id,
                token_answer(final(token).last_call()),
                res,
            ),
    {
        let reward = match self.voter_reward(account, proposal_id) {
            Ok(reward) => reward,
            Err(error) => {
                return Err(error);
            },
        };
        let mint = token._on_reward(&reward);
        self.settle_reward_voter(events, account, proposal_id, mint)
    }

    /// Claims the reward of `caller` for its vote on `proposal_id`, as
    /// [`Self::_reward_voter`] does.
    pub fn claim_reward<T: StakeTransfer>(
        &mut self,
        token: &mut Traced<T>,
        events: &mut Vec<Event>,
        caller: AccountId,
        proposal_id: ProposalId,
    ) -> (res: Result<(), GovernError>)
        requires
            old(self).wf(),
        ensures
            final(self).wf(),
            match old(self).spec_voter_reward(caller, proposal_id) {
                Err(_) => final(token).not_asked(old(token)),
                Ok(reward) => final(token).asked(
                    old(token),
                    Call::OnReward {
                        amount: reward,
                        answer: token_answer(final(token).last_call()),
                    },
                ),
            },
            final(self).reward_settled(
                old(self),
                old(events)@,
                final(events)@,
                caller,
                proposal_id,
                token_answer(final(token).last_call()),
                res,
            ),
    {
        self._reward_voter(token, events, &caller, &proposal_id)
    }

    /// The penalty of `account` for not having voted on `proposal_id`: the
    /// part that the rules name of what it held when the proposal was made
    /// and still holds in stake or in its queue. There is none while the
    /// proposal is active, where it was finalized before its final period,
    /// where the account first staked less than the grace period before it
    /// was finalized, once the vote is settled, and for an account that
    /// voted. A penalty of 0 is a penalty that the ledger refuses.
    pub open spec fn spec_voter_penalty(&self, account: AccountId, proposal_id: ProposalId) -> Result<
        Balance,
        GovernError,
    > {
        match self.gov().spec_state_of(proposal_id) {
            None => Err(GovernError::ProposalDoesntExist),
            Some(state) => if state.status == ProposalStatus::Active {
                Err(GovernError::StillActive)
            } else {
                match (self.gov().spec_rule(state.rules_id), state.finalized) {
                    (None, _) => Err(GovernError::NoSuchRule),
                    (Some(rules), None) => Err(GovernError::NothingToSlash),
                    (Some(rules), Some(finalized)) => if finalized <= state.start
                        + rules.initial_period + rules.flat_period {
                        Err(GovernError::NothingToSlash)
                    } else if self.stakes().times().spec_stake_timestamp_of(account) matches Some(
                        staked,
                    ) && staked + SLASH_GRACE_PERIOD > finalized {
                        Err(GovernError::NothingToSlash)
                    } else if self.gov_reward().spec_claimed_or_slashed(account, proposal_id) {
                        Err(GovernError::AlreadyClaimedOrSlashed)
                    } else if self.gov().spec_vote_of_for(account, proposal_id) is Some {
                        Err(GovernError::Voted)
                    } else if self.stakes().storage().spec_stake_and_unstakes_initialized_after(
                        account,
                        state.start,
                    ) > u128::MAX {
                        Err(GovernError::MathError(MathError::Add))
                    } else {
                        match spec_part_of(
                            self.stakes().storage().spec_stake_and_unstakes_initialized_after(
                                account,
                                state.start,
                            ) as Balance,
                            rules.voter_slash_part_e12,
                        ) {
                            Ok(penalty) => Ok(penalty),
                            Err(error) => Err(GovernError::MathError(error)),
                        }
                    },
                }
            },
        }
    }

    /// What slashing `account` for not having voted on `proposal_id`
    /// answers where the token ledger answered the burning of what is taken
    /// with `burned`: the amount that is taken from it.
    pub open spec fn spec_slash_voter(
        &self,
        account: AccountId,
        proposal_id: ProposalId,
        burned: Result<(), StakeError>,
    ) -> Result<Balance, GovernError> {
        match self.spec_voter_penalty(account, proposal_id) {
            Err(error) => Err(error),
            Ok(penalty) => match self.stakes().spec_slash(account, penalty, burned) {
                Ok(taken) => Ok(taken),
                Err(error) => Err(GovernError::StakeError(error)),
            },
        }
    }

    /// Whether `self` and `logged` are what `before` and `log` become, and
    /// `res` is what is answered, when `account` is slashed for not having
    /// voted on `proposal_id` and the token ledger answers the burning of
    /// what is taken with `burned`.
    pub open spec fn slash_voter_settled(
        &self,
        before: &Self,
        log: Seq<Event>,
        logged: Seq<Event>,
        account: AccountId,
        proposal_id: ProposalId,
        burned: Result<(), StakeError>,
        res: Result<(), GovernError>,
    ) -> bool {
        match before.spec_slash_voter(account, proposal_id, burned) {
            Err(error) => res == Err::<(), GovernError>(error) && *self == *before && logged
                == log,
            Ok(taken) => {
                &&& res is Ok
                &&& self.stakes().slashed(
                    &before.stakes(),
                    account,
                    before.spec_voter_penalty(account, proposal_id)->Ok_0,
                )
                &&& self.gov() == before.gov()
                &&& self.gov_reward().claimed_or_slashed@
                    == before.gov_reward().claimed_or_slashed@.insert((account, proposal_id), ())
                &&& logged == log.push(
                    Event::Slashed(crate::events::Slashed { account, amount: taken }),
                ).push(Event::VoterSlashed(VoterSlashed { account, proposal_id }))
            },
        }
    }

    /// Works out the penalty of `account` for not having voted on
    /// `proposal_id`.
    pub fn voter_penalty(&self, account: &AccountId, proposal_id: &ProposalId) -> (res: Result<
        Balance,
        GovernError,
    >)
        requires
            self.wf(),
        ensures
            res == self.spec_voter_penalty(*account, *proposal_id),
    {
        let state = match self._state_of(proposal_id) {
            Some(state) => state,
            None => {
                return Err(GovernError::ProposalDoesntExist);
            },
        };
        if state.status == ProposalStatus::Active {
            return Err(GovernError::StillActive);
        }
        let rules = match self._rule(&state.rules_id) {
            Some(rules) => rules,
            None => {
                return Err(GovernError::NoSuchRule);
            },
        };
        let finalized = match state.finalized {
            Some(finalized) => finalized,
            None => {
                return Err(GovernError::NothingToSlash);
            },
        };
        if finalized as u128 <= state.start as u128 + rules.initial_period as u128
            + rules.flat_period as u128 {
            return Err(GovernError::NothingToSlash);
        }
        if let Some(staked) = self.staker.stake_timestamp_of(*account) {
            if staked as u128 + SLASH_GRACE_PERIOD as u128 > finalized as u128 {
                return Err(GovernError::NothingToSlash);
            }
        }
        if self._claimed_or_slashed(account, proposal_id) {
            return Err(GovernError::AlreadyClaimedOrSlashed);
        }
        if self._vote_of_for(account, proposal_id).is_some() {
            return Err(GovernError::Voted);
        }
        let stake_at_start = match self._get_votes_at(account, &state.start) {
            Ok(stake_at_start) => stake_at_start,
            Err(error) => {
                return Err(GovernError::MathError(error));
            },
        };
        match part_of(stake_at_start, rules.voter_slash_part_e12) {
            Ok(penalty) => Ok(penalty),
            Err(error) => Err(GovernError::MathError(error)),
        }
    }

    /// Slashes `account` for not having voted on `proposal_id` once the
    /// token ledger has answered the burning of what is taken with
    /// `burned`.
    pub fn settle_slash_voter(
        &mut self,
        events: &mut Vec<Event>,
        account: &AccountId,
        proposal_id: &ProposalId,
        burned: Result<(), StakeError>,
    ) -> (res: Result<(), GovernError>)
        requires
            old(self).wf(),
        ensures
            final(self).wf(),
            final(self).slash_voter_settled(
                old(self),
                old(events)@,
                final(events)@,
                *account,
                *proposal_id,
                burned,
                res,
            ),
    {
        let penalty = match self.voter_penalty(account, proposal_id) {
            Ok(penalty) => penalty,
            Err(error) => {
                return Err(error);
            },
        };
        if let Err(error) = self.staker.settle_slash(events, account, &penalty, burned) {
            return Err(GovernError::StakeError(error));
        }
        self.gov_reward.mark_claimed_or_slashed(account, proposal_id);
        events.push(
            Event::VoterSlashed(VoterSlashed { account: *account, proposal_id: *proposal_id }),
        );
        Ok(())
    }

    /// Whether the token ledger was asked what slashing `account` for not
    /// having voted on `proposal_id` asks of it: to burn what is taken; or
    /// nothing where nothing is taken.
    pub open spec fn slash_voter_asked<T>(
        &self,
        token_before: &Traced<T>,
        token: &Traced<T>,
        account: AccountId,
        proposal_id: ProposalId,
    ) -> bool {
        match self.spec_voter_penalty(account, proposal_id) {
            Err(_) => token.not_asked(token_before),
            Ok(penalty) => match self.stakes().spec_slashable(account, penalty) {
                Err(_) => token.not_asked(token_before),
                Ok(taken) => token.asked(
                    token_before,
                    Call::OnSlash { amount: taken, answer: token_answer(token.last_call()) },
                ),
            },
        }
    }

    /// Slashes `account` for not having voted on `proposal_id`, which
    /// must have been finalized in its final period or later. A vote that
    /// was not cast is slashed once.
    pub fn _slash_voter<T: StakeTransfer>(
        &mut self,
        token: &mut Traced<T>,
        events: &mut Vec<Event>,
        account: &AccountId,
        proposal_id: &ProposalId,
    ) -> (res: Result<(), GovernError>)
        requires
            old(self).wf(),
        ensures
            final(self).wf(),
            old(self).slash_voter_asked(old(token), final(token), *account, *proposal_id),
            final(self).slash_voter_settled(
                old(self),
                old(events)@,
                final(events)@,
                *account,
                *proposal_id,
                token_answer(final(token).last_call()),
                res,
            ),
    {
        let penalty = match self.voter_penalty(account, proposal_id) {
            Ok(penalty) => penalty,
            Err(error) => {
                return Err(error);
            },
        };
        let mut burned: Result<(), StakeError> = Ok(());
        if let Ok(taken) = self.staker.slashable(account, &penalty) {
            burned = token._on_slash(&taken);
        }
        self.settle_slash_voter(events, account, proposal_id, burned)
    }

    /// Slashes `account` for not having voted on `proposal_id`, as
    /// [`Self::_slash_voter`] does. Anyone may ask for it.
    pub fn slash_voter<T: StakeTransfer>(
        &mut self,
        token: &mut Traced<T>,
        events: &mut Vec<Event>,
        account: AccountId,
        proposal_id: ProposalId,
    ) -> (res: Result<(), GovernError>)
        requires
            old(self).wf(),
        ensures
            final(self).wf(),
            old(self).slash_voter_asked(old(token), final(token), account, proposal_id),
            final(self).slash_voter_settled(
                old(self),
                old(events)@,
                final(events)@,
                account,
                proposal_id,
                token_answer(final(token).last_call()),
                res,
            ),
    {
        self._slash_voter(token, events, &account, &proposal_id)
    }
}

} // verus!
