//! What holds of the governance engine whatever is done with it.

use vstd::prelude::*;
use crate::events::Event;
use crate::govern::engine::Governor;
use crate::govern::engine::finalizing::Finalization;
use crate::govern::errors::GovernError;
use crate::govern::quorum::spec_total_votes;
use crate::govern::structs::ProposalRules;
use crate::govern::structs::ProposalState;
use crate::govern::structs::UserVote;
use crate::govern::structs::ProposalId;
use crate::govern::structs::ProposalStatus;
use crate::govern::structs::RulesId;
use crate::govern::structs::Vote;
use crate::stake::errors::StakeError;
use crate::types::AccountId;
use crate::types::Balance;
use crate::types::Timestamp;

verus! {

/// Asking twice for the same is asking once: where rules were allowed or
/// disallowed, asking for the same again changes nothing and adds nothing
/// to the log.
pub proof fn lemma_allow_rules_twice(
    start: Governor,
    once: Governor,
    twice: Governor,
    log: Seq<Event>,
    logged_once: Seq<Event>,
    logged_twice: Seq<Event>,
    caller: AccountId,
    rules_id: RulesId,
    allow: bool,
    first: Result<(), GovernError>,
    second: Result<(), GovernError>,
)
    requires
        once.allow_rules_settled(&start, log, logged_once, caller, rules_id, allow, first),
        twice.allow_rules_settled(&once, logged_once, logged_twice, caller, rules_id, allow, second),
    ensures
        second == first,
        twice == once,
        logged_twice == logged_once,
{
    if first is Ok {
        if start.gov().spec_allow_rules_changes(rules_id, allow) {
            assert(once.gov().allowed_rules@.dom().contains(rules_id) == allow);
            assert(once.gov().rules == start.gov().rules);
        }
    }
}

/// Whether a proposal may go from one status to another: it may stay as
/// it is, leave the active status for one of the three that a finalization
/// gives, and go from succeeded to executed.
pub open spec fn may_follow(from: ProposalStatus, to: ProposalStatus) -> bool {
    ||| to == from
    ||| from == ProposalStatus::Active && (to == ProposalStatus::Defeated || to
        == ProposalStatus::DefeatedWithSlash || to == ProposalStatus::Succeeded)
    ||| from == ProposalStatus::Succeeded && to == ProposalStatus::Executed
}

/// A vote changes the status of no proposal.
pub proof fn lemma_vote_keeps_the_status(
    before: Governor,
    after: Governor,
    caller: AccountId,
    proposal_id: ProposalId,
    vote: Vote,
    amount: Balance,
    any: ProposalId,
)
    requires
        before.spec_vote(caller, proposal_id, vote) is Ok,
        after.voted(
            &before,
            caller,
            proposal_id,
            vote,
            amount,
            before.spec_vote(caller, proposal_id, vote)->Ok_0,
        ),
    ensures
        after.gov().spec_status_of(any) == before.gov().spec_status_of(any),
        after.gov().spec_state_of(proposal_id) is Some,
        after.gov().spec_state_of(proposal_id)->Some_0.finalized == before.gov().spec_state_of(
            proposal_id,
        )->Some_0.finalized,
{
}

/// A vote that is cast again moves in one step: where an account that
/// agreed with `old_amount` votes now disagrees with `new_amount`, the
/// votes for the proposal fall by the old amount, the votes against it
/// grow by the new one, and the vote that is kept for the account is the
/// new one. This is so wherever the votes for the proposal hold the old
/// amount and the votes against it can take the new one.
pub proof fn lemma_recast_moves_the_votes(
    before: Governor,
    after: Governor,
    account: AccountId,
    proposal_id: ProposalId,
    state: ProposalState,
    old_amount: Balance,
    new_amount: Balance,
)
    requires
        before.gov().spec_state_of(proposal_id) == Some(state),
        state.status == ProposalStatus::Active,
        before.gov().spec_vote_of_for(account, proposal_id) == Some(
            UserVote { vote: Vote::Agreed, amount: old_amount },
        ),
        new_amount > 0,
        old_amount <= state.votes_for,
        state.votes_against + new_amount <= u128::MAX,
        after.voted(
            &before,
            account,
            proposal_id,
            Vote::Disagreed,
            new_amount,
            before.gov().spec_update_vote_of_for(
                account,
                proposal_id,
                Vote::Disagreed,
                new_amount,
            )->Ok_0,
        ),
    ensures
        before.gov().spec_update_vote_of_for(account, proposal_id, Vote::Disagreed, new_amount)
            == Ok::<ProposalState, GovernError>(
            ProposalState {
                votes_for: (state.votes_for - old_amount) as Balance,
                votes_against: (state.votes_against + new_amount) as Balance,
                ..state
            },
        ),
        after.gov().spec_state_of(proposal_id) == Some(
            ProposalState {
                votes_for: (state.votes_for - old_amount) as Balance,
                votes_against: (state.votes_against + new_amount) as Balance,
                ..state
            },
        ),
        after.gov().spec_vote_of_for(account, proposal_id) == Some(
            UserVote { vote: Vote::Disagreed, amount: new_amount },
        ),
{
}

/// At the end of the initial period a proposal needs half of all the
/// votes, and where nobody voted against it with a slash it is decided by
/// that half alone: it is defeated where the votes against it reach the
/// half, it succeeds where they do not and the votes for it do, and else
/// it cannot be finalized yet. A finalization whose refund goes through
/// answers accordingly. This is so wherever the initial period is
/// not empty, the counter of stakes has not wrapped since the proposal was
/// made, and the sums that are taken on the way fit.
pub proof fn lemma_decision_at_the_end_of_the_initial_period(
    governor: Governor,
    proposal_id: ProposalId,
    state: ProposalState,
    rules: ProposalRules,
    now: Timestamp,
    burned: Result<(), StakeError>,
)
    requires
        governor.gov().spec_state_of(proposal_id) == Some(state),
        governor.gov().spec_rule(state.rules_id) == Some(rules),
        state.status == ProposalStatus::Active,
        state.votes_against_with_slash == 0,
        rules.initial_period > 0,
        now == state.start + rules.initial_period,
        state.counter_at_start <= governor.stakes().counter(),
        spec_total_votes(state, governor.stakes().counter()) <= u128::MAX,
        state.votes_against + state.votes_for <= u128::MAX,
        governor.gov().finalized_proposals < u32::MAX,
    ensures
        governor.spec_minimum(proposal_id, now) == Ok::<Balance, GovernError>(
            (spec_total_votes(state, governor.stakes().counter()) / 2) as Balance,
        ),
        governor.spec_plan_finalize(proposal_id, now) == (if state.votes_against
            >= spec_total_votes(state, governor.stakes().counter()) / 2 {
            Ok::<Finalization, GovernError>(
                Finalization {
                    state,
                    status: ProposalStatus::Defeated,
                    deposit: rules.deposit,
                    slash: 0,
                },
            )
        } else if state.votes_for >= spec_total_votes(state, governor.stakes().counter()) / 2 {
            Ok::<Finalization, GovernError>(
                Finalization {
                    state,
                    status: ProposalStatus::Succeeded,
                    deposit: rules.deposit,
                    slash: 0,
                },
            )
        } else {
            Err::<Finalization, GovernError>(GovernError::FinalizeCondition)
        }),
        governor.spec_finalize(proposal_id, now, true, burned) == (if state.votes_against
            >= spec_total_votes(state, governor.stakes().counter()) / 2 {
            Ok::<ProposalStatus, GovernError>(ProposalStatus::Defeated)
        } else if state.votes_for >= spec_total_votes(state, governor.stakes().counter()) / 2 {
            Ok::<ProposalStatus, GovernError>(ProposalStatus::Succeeded)
        } else {
            Err::<ProposalStatus, GovernError>(GovernError::FinalizeCondition)
        }),
{
    let half = spec_total_votes(state, governor.stakes().counter()) / 2;
    assert(half * 0 == 0) by (nonlinear_arith);
    assert(0int / (rules.initial_period as int) == 0) by (nonlinear_arith)
        requires
            rules.initial_period > 0,
    ;
}

/// A finalization takes an active proposal to one of the three statuses
/// that stand for a decision, notes when that was, and changes the status
/// of no other proposal.
pub proof fn lemma_finalize_decides_an_active_proposal(
    before: Governor,
    after: Governor,
    log: Seq<Event>,
    logged: Seq<Event>,
    proposal_id: ProposalId,
    now: Timestamp,
    refunded: bool,
    burned: Result<(), StakeError>,
    any: ProposalId,
)
    requires
        after.finalize_settled(&before, log, logged, proposal_id, now, refunded, burned, Ok(())),
    ensures
        before.gov().spec_status_of(proposal_id) == Some(ProposalStatus::Active),
        after.gov().spec_status_of(proposal_id) == Some(ProposalStatus::Defeated)
            || after.gov().spec_status_of(proposal_id) == Some(ProposalStatus::DefeatedWithSlash)
            || after.gov().spec_status_of(proposal_id) == Some(ProposalStatus::Succeeded),
        after.gov().spec_state_of(proposal_id)->Some_0.finalized == Some(now),
        any != proposal_id ==> after.gov().spec_state_of(any) == before.gov().spec_state_of(any),
{
}

/// An execution takes a proposal that succeeded to the executed status
/// and changes no other proposal. Where it fails, nothing changes.
pub proof fn lemma_execute_moves_a_succeeded_proposal(
    before: Governor,
    after: Governor,
    log: Seq<Event>,
    logged: Seq<Event>,
    proposal_id: ProposalId,
    went_through: bool,
    res: Result<(), GovernError>,
    any: ProposalId,
)
    requires
        after.execute_settled(&before, log, logged, proposal_id, went_through, res),
    ensures
        res is Ok ==> before.gov().spec_status_of(proposal_id) == Some(ProposalStatus::Succeeded)
            && after.gov().spec_status_of(proposal_id) == Some(ProposalStatus::Executed)
            && went_through,
        res is Err ==> after == before && logged == log,
        any != proposal_id ==> after.gov().spec_state_of(any) == before.gov().spec_state_of(any),
        before.gov().spec_status_of(any) matches Some(from) ==> after.gov().spec_status_of(any)
            matches Some(to) && may_follow(from, to),
{
}

} // verus!
