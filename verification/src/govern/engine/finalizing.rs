//! Finalizing a proposal: deciding it by its votes, and paying the
//! deposit back or slashing the proposer.

use vstd::prelude::*;
use crate::events::Event;
use crate::events::ProposalFinalized;
use crate::govern::chain::Chain;
use crate::govern::engine::Governor;
use crate::govern::engine::part_of;
use crate::govern::engine::spec_part_of;
use crate::govern::errors::GovernError;
use crate::govern::quorum::spec_minimum_to_finalize;
use crate::govern::structs::ProposalId;
use crate::govern::structs::ProposalRules;
use crate::govern::structs::ProposalState;
use crate::govern::structs::ProposalStatus;
use crate::stake::errors::MathError;
use crate::stake::errors::StakeError;
use crate::stake::transfer::StakeTransfer;
use crate::trace::Call;
use crate::trace::Traced;
use crate::trace::token_answer;
use crate::trace::went_through;
use crate::types::Balance;
use crate::types::Timestamp;

verus! {

/// What the votes decide once they are counted against the votes needed:
/// a proposal is defeated where the votes against it, with and without a
/// slash, reach what is needed, and then with a slash where those votes
/// outnumber all the others; it succeeds where it is not defeated and the
/// votes for it reach what is needed; and else nothing is decided yet.
pub open spec fn spec_decide(state: ProposalState, minimum: Balance) -> Result<
    ProposalStatus,
    GovernError,
> {
    if state.votes_against + state.votes_against_with_slash > u128::MAX {
        Err(GovernError::MathError(MathError::Add))
    } else if state.votes_against + state.votes_against_with_slash >= minimum {
        if state.votes_against + state.votes_for > u128::MAX {
            Err(GovernError::MathError(MathError::Add))
        } else if state.votes_against_with_slash <= state.votes_against + state.votes_for {
            Ok(ProposalStatus::Defeated)
        } else {
            Ok(ProposalStatus::DefeatedWithSlash)
        }
    } else if state.votes_for >= minimum {
        Ok(ProposalStatus::Succeeded)
    } else {
        Err(GovernError::FinalizeCondition)
    }
}

/// Decides a proposal by its votes and the votes needed.
pub fn decide(state: &ProposalState, minimum: Balance) -> (res: Result<ProposalStatus, GovernError>)
    ensures
        res == spec_decide(*state, minimum),
{
    let against = match state.votes_against.checked_add(state.votes_against_with_slash) {
        Some(against) => against,
        None => {
            return Err(GovernError::MathError(MathError::Add));
        },
    };
    if against >= minimum {
        let others = match state.votes_against.checked_add(state.votes_for) {
            Some(others) => others,
            None => {
                return Err(GovernError::MathError(MathError::Add));
            },
        };
        if state.votes_against_with_slash <= others {
            Ok(ProposalStatus::Defeated)
        } else {
            Ok(ProposalStatus::DefeatedWithSlash)
        }
    } else if state.votes_for >= minimum {
        Ok(ProposalStatus::Succeeded)
    } else {
        Err(GovernError::FinalizeCondition)
    }
}

/// What is to be done to finalize a proposal.
pub struct Finalization {
    /// The state of the proposal before it is finalized.
    pub state: ProposalState,
    /// The status that the votes give it.
    pub status: ProposalStatus,
    /// The deposit, which goes back to the proposer unless it is slashed.
    pub deposit: Balance,
    /// What the proposer is slashed by where the status says so, else 0.
    pub slash: Balance,
}

impl Governor {
    /// The votes needed to finalize `proposal_id` at `now`.
    pub open spec fn spec_minimum(&self, proposal_id: ProposalId, now: Timestamp) -> Result<
        Balance,
        GovernError,
    > {
        match self.gov().spec_state_of(proposal_id) {
            None => Err(GovernError::ProposalDoesntExist),
            Some(state) => match self.gov().spec_rule(state.rules_id) {
                None => Err(GovernError::NoSuchRule),
                Some(rules) => match spec_minimum_to_finalize(
                    state,
                    rules,
                    now,
                    self.stakes().counter(),
                ) {
                    Ok(minimum) => Ok(minimum),
                    Err(error) => Err(GovernError::MathError(error)),
                },
            },
        }
    }

    /// The votes needed at `now` to finalize the proposal with `state`
    /// under `rules`.
    pub fn _minimum_to_finalize(&self, state: &ProposalState, rules: &ProposalRules, now: Timestamp) -> (res:
        Result<Balance, MathError>)
        ensures
            res == spec_minimum_to_finalize(*state, *rules, now, self.stakes().counter()),
    {
        crate::govern::quorum::minimum_to_finalize(state, rules, now, self.staker.counter_stake())
    }

    /// The votes needed to finalize `proposal_id` at `now`.
    pub fn minimum_to_finalize(&self, proposal_id: ProposalId, now: Timestamp) -> (res: Result<
        Balance,
        GovernError,
    >)
        requires
            self.wf(),
        ensures
            res == self.spec_minimum(proposal_id, now),
    {
        let state = match self._state_of(&proposal_id) {
            Some(state) => state,
            None => {
                return Err(GovernError::ProposalDoesntExist);
            },
        };
        let rules = match self._rule(&state.rules_id) {
            Some(rules) => rules,
            None => {
                return Err(GovernError::NoSuchRule);
            },
        };
        match self._minimum_to_finalize(&state, &rules, now) {
            Ok(minimum) => Ok(minimum),
            Err(error) => Err(GovernError::MathError(error)),
        }
    }

    /// What the proposer of a proposal is slashed by where the proposal is
    /// defeated with a slash: the part that the rules name of what it held
    /// when it made the proposal and still holds in stake or in its queue.
    pub open spec fn spec_proposer_slash(&self, state: ProposalState, rules: ProposalRules) -> Result<
        Balance,
        GovernError,
    > {
        let held = self.stakes().storage().spec_stake_and_unstakes_initialized_after(
            state.proposer,
            state.start,
        );
        if held > u128::MAX {
            Err(GovernError::MathError(MathError::Add))
        } else {
            match spec_part_of(held as Balance, rules.proposer_slash_part_e12) {
                Ok(slash) => Ok(slash),
                Err(error) => Err(GovernError::MathError(error)),
            }
        }
    }

    /// What is to be done to finalize `proposal_id` at `now`, where it can
    /// be finalized.
    pub open spec fn spec_plan_finalize(&self, proposal_id: ProposalId, now: Timestamp) -> Result<
        Finalization,
        GovernError,
    > {
        match self.gov().spec_state_of(proposal_id) {
            None => Err(GovernError::ProposalDoesntExist),
            Some(state) => if state.status != ProposalStatus::Active {
                Err(GovernError::NotActive)
            } else {
                match self.gov().spec_rule(state.rules_id) {
                    None => Err(GovernError::NoSuchRule),
                    Some(rules) => match spec_minimum_to_finalize(
                        state,
                        rules,
                        now,
                        self.stakes().counter(),
                    ) {
                        Err(error) => Err(GovernError::MathError(error)),
                        Ok(minimum) => match spec_decide(state, minimum) {
                            Err(error) => Err(error),
                            Ok(status) => if self.gov().finalized_proposals == u32::MAX {
                                Err(GovernError::MathError(MathError::Add))
                            } else if status == ProposalStatus::DefeatedWithSlash {
                                match self.spec_proposer_slash(state, rules) {
                                    Err(error) => Err(error),
                                    Ok(slash) => Ok(
                                        Finalization {
                                            state,
                                            status,
                                            deposit: rules.deposit,
                                            slash,
                                        },
                                    ),
                                }
                            } else {
                                Ok(
                                    Finalization {
                                        state,
                                        status,
                                        deposit: rules.deposit,
                                        slash: 0,
                                    },
                                )
                            },
                        },
                    },
                }
            },
        }
    }

    /// Works out what is to be done to finalize `proposal_id` at `now`.
    pub fn plan_finalize(&self, proposal_id: &ProposalId, now: Timestamp) -> (res: Result<
        Finalization,
        GovernError,
    >)
        requires
            self.wf(),
        ensures
            res == self.spec_plan_finalize(*proposal_id, now),
    {
        let state = match self._state_of(proposal_id) {
            Some(state) => state,
            None => {
                return Err(GovernError::ProposalDoesntExist);
            },
        };
        if state.status != ProposalStatus::Active {
            return Err(GovernError::NotActive);
        }
        let rules = match self._rule(&state.rules_id) {
            Some(rules) => rules,
            None => {
                return Err(GovernError::NoSuchRule);
            },
        };
        let minimum_to_finalize = match self._minimum_to_finalize(&state, &rules, now) {
            Ok(minimum) => minimum,
            Err(error) => {
                return Err(GovernError::MathError(error));
            },
        };
        let status = match decide(&state, minimum_to_finalize) {
            Ok(status) => status,
            Err(error) => {
                return Err(error);
            },
        };
        if self.gov.finalized_proposals == u32::MAX {
            return Err(GovernError::MathError(MathError::Add));
        }
        let slash = if status == ProposalStatus::DefeatedWithSlash {
            let held = match self._get_votes_at(&state.proposer, &state.start) {
                Ok(held) => held,
                Err(error) => {
                    return Err(GovernError::MathError(error));
                },
            };
            match part_of(held, rules.proposer_slash_part_e12) {
                Ok(slash) => slash,
                Err(error) => {
                    return Err(GovernError::MathError(error));
                },
            }
        } else {
            0
        };
        Ok(Finalization { state, status, deposit: rules.deposit, slash })
    }

    /// What finalizing `proposal_id` at `now` answers where the chain
    /// answered the refund of the deposit with `refunded`, and the token
    /// ledger the burning of what the proposer is slashed by with `burned`:
    /// the status that the proposal gets. A proposal that is defeated with
    /// a slash gets no refund, and only such a proposal has anything
    /// burned.
    pub open spec fn spec_finalize(
        &self,
        proposal_id: ProposalId,
        now: Timestamp,
        refunded: bool,
        burned: Result<(), StakeError>,
    ) -> Result<ProposalStatus, GovernError> {
        match self.spec_plan_finalize(proposal_id, now) {
            Err(error) => Err(error),
            Ok(plan) => if plan.status == ProposalStatus::DefeatedWithSlash {
                match self.stakes().spec_slash(plan.state.proposer, plan.slash, burned) {
                    Err(error) => Err(GovernError::StakeError(error)),
                    Ok(_) => Ok(plan.status),
                }
            } else if !refunded {
                Err(GovernError::TransferError)
            } else {
                Ok(plan.status)
            },
        }
    }

    /// Whether `self` is what `before` becomes once `proposal_id` has been
    /// finalized at `now` as `plan` says.
    pub open spec fn finalized(
        &self,
        before: &Self,
        proposal_id: ProposalId,
        now: Timestamp,
        plan: Finalization,
    ) -> bool {
        &&& self.gov_reward() == before.gov_reward()
        &&& self.gov().state@ == before.gov().state@.insert(
            proposal_id,
            ProposalState { status: plan.status, finalized: Some(now), ..plan.state },
        )
        &&& self.gov().state.keys() == before.gov().state.keys()
        &&& self.gov().votes == before.gov().votes
        &&& self.gov().same_rules(&before.gov())
        &&& self.gov().active_proposals == before.gov().active_proposals
        &&& self.gov().finalized_proposals == before.gov().finalized_proposals + 1
        &&& if plan.status == ProposalStatus::DefeatedWithSlash {
            self.stakes().slashed(&before.stakes(), plan.state.proposer, plan.slash)
        } else {
            self.stakes() == before.stakes()
        }
    }

    /// What the log gets when `proposal_id` is finalized as `plan` says.
    pub open spec fn finalization_events(
        &self,
        proposal_id: ProposalId,
        plan: Finalization,
    ) -> Seq<Event> {
        let finalized = Event::ProposalFinalized(
            ProposalFinalized { proposal_id, status: plan.status },
        );
        if plan.status == ProposalStatus::DefeatedWithSlash {
            match self.stakes().spec_slashable(plan.state.proposer, plan.slash) {
                Ok(taken) => seq![
                    Event::Slashed(
                        crate::events::Slashed { account: plan.state.proposer, amount: taken },
                    ),
                    finalized,
                ],
                Err(_) => seq![finalized],
            }
        } else {
            seq![finalized]
        }
    }

    /// Whether `self` and `logged` are what `before` and `log` become, and
    /// `res` is what is answered, when `proposal_id` is finalized at `now`,
    /// the chain answers the refund of the deposit with `refunded`, and the
    /// token ledger answers the burning of the slash with `burned`.
    pub open spec fn finalize_settled(
        &self,
        before: &Self,
        log: Seq<Event>,
        logged: Seq<Event>,
        proposal_id: ProposalId,
        now: Timestamp,
        refunded: bool,
        burned: Result<(), StakeError>,
        res: Result<(), GovernError>,
    ) -> bool {
        match before.spec_finalize(proposal_id, now, refunded, burned) {
            Ok(status) => {
                &&& res is Ok
                &&& before.spec_plan_finalize(proposal_id, now) is Ok
                &&& before.spec_plan_finalize(proposal_id, now)->Ok_0.status == status
                &&& self.finalized(
                    before,
                    proposal_id,
                    now,
                    before.spec_plan_finalize(proposal_id, now)->Ok_0,
                )
                &&& logged == log + before.finalization_events(
                    proposal_id,
                    before.spec_plan_finalize(proposal_id, now)->Ok_0,
                )
            },
            Err(error) => res == Err::<(), GovernError>(error) && *self == *before && logged
                == log,
        }
    }

    /// Finalizes `proposal_id` at `now` once the chain has answered the
    /// refund of the deposit with `refunded`, and the token ledger the
    /// burning of the slash with `burned`.
    pub fn settle_finalize(
        &mut self,
        events: &mut Vec<Event>,
        proposal_id: &ProposalId,
        now: Timestamp,
        refunded: bool,
        burned: Result<(), StakeError>,
    ) -> (res: Result<(), GovernError>)
        requires
            old(self).wf(),
        ensures
            final(self).wf(),
            final(self).finalize_settled(
                old(self),
                old(events)@,
                final(events)@,
                *proposal_id,
                now,
                refunded,
                burned,
                res,
            ),
    {
        let plan = match self.plan_finalize(proposal_id, now) {
            Ok(plan) => plan,
            Err(error) => {
                return Err(error);
            },
        };
        let mut state = plan.state;
        match plan.status {
            ProposalStatus::DefeatedWithSlash => {
                if let Err(error) = self.staker.settle_slash(
                    events,
                    &state.proposer,
                    &plan.slash,
                    burned,
                ) {
                    return Err(GovernError::StakeError(error));
                }
            },
            _ => {
                if !refunded {
                    return Err(GovernError::TransferError);
                }
            },
        }
        state.status = plan.status;
        state.finalized = Some(now);
        self.gov.state.insert(*proposal_id, state);
        self.gov.finalized_proposals = self.gov.finalized_proposals + 1;
        events.push(
            Event::ProposalFinalized(
                ProposalFinalized { proposal_id: *proposal_id, status: plan.status },
            ),
        );
        proof {
            assert(events@ =~= old(events)@ + old(self).finalization_events(*proposal_id, plan));
        }
        Ok(())
    }

    /// Whether the chain and the token ledger were asked what finalizing
    /// `proposal_id` at `now` asks of them: the chain to pay the deposit
    /// back to the proposer, unless the proposal is defeated with a slash;
    /// the token ledger to burn what the proposer is slashed by, where it
    /// is; and neither of them anything where the proposal cannot be
    /// finalized.
    pub open spec fn finalize_asked<C, T>(
        &self,
        chain_before: &Traced<C>,
        chain: &Traced<C>,
        token_before: &Traced<T>,
        token: &Traced<T>,
        proposal_id: ProposalId,
        now: Timestamp,
    ) -> bool {
        match self.spec_plan_finalize(proposal_id, now) {
            Err(_) => chain.not_asked(chain_before) && token.not_asked(token_before),
            Ok(plan) => if plan.status == ProposalStatus::DefeatedWithSlash {
                &&& chain.not_asked(chain_before)
                &&& match self.stakes().spec_slashable(plan.state.proposer, plan.slash) {
                    Err(_) => token.not_asked(token_before),
                    Ok(taken) => token.asked(
                        token_before,
                        Call::OnSlash { amount: taken, answer: token_answer(token.last_call()) },
                    ),
                }
            } else {
                &&& token.not_asked(token_before)
                &&& chain.asked(
                    chain_before,
                    Call::Pay {
                        to: plan.state.proposer,
                        value: plan.deposit,
                        went_through: went_through(chain.last_call()),
                    },
                )
            },
        }
    }

    /// Finalizes `proposal_id` where its votes reach what is needed at
    /// `now`. A proposal that is defeated or succeeds has its deposit sent
    /// back to the proposer; one that is defeated with a slash keeps the
    /// deposit, and its proposer is slashed.
    pub fn _finalize<C: Chain, T: StakeTransfer>(
        &mut self,
        chain: &mut Traced<C>,
        token: &mut Traced<T>,
        events: &mut Vec<Event>,
        proposal_id: &ProposalId,
        now: Timestamp,
    ) -> (res: Result<(), GovernError>)
        requires
            old(self).wf(),
        ensures
            final(self).wf(),
            old(self).finalize_asked(
                old(chain),
                final(chain),
                old(token),
                final(token),
                *proposal_id,
                now,
            ),
            final(self).finalize_settled(
                old(self),
                old(events)@,
                final(events)@,
                *proposal_id,
                now,
                went_through(final(chain).last_call()),
                token_answer(final(token).last_call()),
                res,
            ),
    {
        let plan = match self.plan_finalize(proposal_id, now) {
            Ok(plan) => plan,
            Err(error) => {
                return Err(error);
            },
        };
        let mut refunded = true;
        let mut burned: Result<(), StakeError> = Ok(());
        match plan.status {
            ProposalStatus::DefeatedWithSlash => {
                if let Ok(taken) = self.staker.slashable(&plan.state.proposer, &plan.slash) {
                    burned = token._on_slash(&taken);
                }
            },
            _ => {
                refunded = chain.transfer(&plan.state.proposer, &plan.deposit);
            },
        }
        self.settle_finalize(events, proposal_id, now, refunded, burned)
    }

    /// Finalizes `proposal_id`, as [`Self::_finalize`] does.
    pub fn finalize<C: Chain, T: StakeTransfer>(
        &mut self,
        chain: &mut Traced<C>,
        token: &mut Traced<T>,
        events: &mut Vec<Event>,
        proposal_id: ProposalId,
        now: Timestamp,
    ) -> (res: Result<(), GovernError>)
        requires
            old(self).wf(),
        ensures
            final(self).wf(),
            old(self).finalize_asked(
                old(chain),
                final(chain),
                old(token),
                final(token),
                proposal_id,
                now,
            ),
            final(self).finalize_settled(
                old(self),
                old(events)@,
                final(events)@,
                proposal_id,
                now,
                went_through(final(chain).last_call()),
                token_answer(final(token).last_call()),
                res,
            ),
    {
        self._finalize(chain, token, events, &proposal_id, now)
    }
}

} // verus!
