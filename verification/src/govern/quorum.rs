//! The votes that a proposal needs to be finalized. They start at all of
//! the votes, fall to half of them over the initial period, stay there over
//! the flat period, and fall to none over the final period.

use vstd::arithmetic::div_mod::lemma_div_is_ordered;
use vstd::arithmetic::div_mod::lemma_div_multiples_vanish;
use vstd::arithmetic::mul::lemma_mul_inequality;
use vstd::prelude::*;
use crate::govern::structs::ProposalRules;
use crate::govern::structs::ProposalState;
use crate::stake::errors::MathError;
use crate::types::Balance;
use crate::types::Timestamp;

verus! {

/// The votes needed at `now` to finalize a proposal that was made at
/// `start`, out of `total_votes` votes.
pub open spec fn quorum(
    total_votes: nat,
    start: nat,
    initial_period: nat,
    flat_period: nat,
    final_period: nat,
    now: nat,
) -> nat {
    let end_initial = start + initial_period;
    let end_flat = end_initial + flat_period;
    let end_final = end_flat + final_period;
    let half = total_votes / 2;
    if now <= end_initial {
        (half * (end_initial - now) / (initial_period as int) + half) as nat
    } else if now <= end_flat {
        half
    } else if now <= end_final {
        (half * (end_final - now) / (final_period as int)) as nat
    } else {
        0
    }
}

/// The votes needed never grow as time goes by. This holds from any time
/// on where the initial period is not empty, and else from any time after
/// the start.
pub proof fn lemma_quorum_decays(
    total_votes: nat,
    start: nat,
    initial_period: nat,
    flat_period: nat,
    final_period: nat,
    earlier: nat,
    later: nat,
)
    requires
        earlier <= later,
        initial_period > 0 || start < earlier,
    ensures
        quorum(total_votes, start, initial_period, flat_period, final_period, later) <= quorum(
            total_votes,
            start,
            initial_period,
            flat_period,
            final_period,
            earlier,
        ),
{
    let end_initial = (start + initial_period) as int;
    let end_flat = end_initial + flat_period;
    let end_final = end_flat + final_period;
    let half = (total_votes / 2) as int;
    if earlier <= end_initial {
        lemma_mul_inequality(0, end_initial - earlier, half);
        lemma_div_is_ordered(0, (end_initial - earlier) * half, initial_period as int);
        assert((end_initial - earlier) * half == half * (end_initial - earlier))
            by (nonlinear_arith);
        if later <= end_initial {
            lemma_mul_inequality(end_initial - later, end_initial - earlier, half);
            assert((end_initial - later) * half == half * (end_initial - later))
                by (nonlinear_arith);
            lemma_mul_inequality(0, end_initial - later, half);
            lemma_div_is_ordered(
                half * (end_initial - later),
                half * (end_initial - earlier),
                initial_period as int,
            );
            lemma_div_is_ordered(0, half * (end_initial - later), initial_period as int);
        }
    }
    if end_flat < later <= end_final {
        lemma_final_quorum_bounds(half, end_final - later, final_period as int);
        if end_flat < earlier {
            lemma_mul_inequality(end_final - later, end_final - earlier, half);
            assert((end_final - later) * half == half * (end_final - later)) by (nonlinear_arith);
            assert((end_final - earlier) * half == half * (end_final - earlier))
                by (nonlinear_arith);
            lemma_div_is_ordered(
                half * (end_final - later),
                half * (end_final - earlier),
                final_period as int,
            );
        }
    }
    if end_flat < earlier <= end_final {
        lemma_final_quorum_bounds(half, end_final - earlier, final_period as int);
    }
}

/// In the final period the votes needed lie between none and half.
proof fn lemma_final_quorum_bounds(half: int, left: int, final_period: int)
    requires
        0 <= half,
        0 <= left < final_period,
    ensures
        0 <= half * left / final_period <= half,
{
    lemma_mul_inequality(0, left, half);
    lemma_mul_inequality(left, final_period, half);
    assert(left * half == half * left) by (nonlinear_arith);
    lemma_div_is_ordered(0, half * left, final_period);
    lemma_div_is_ordered(half * left, final_period * half, final_period);
    lemma_div_multiples_vanish(half, final_period);
}

/// From the end of the initial period to the end of the flat period the
/// votes needed are exactly half of the votes.
pub proof fn lemma_quorum_flat(
    total_votes: nat,
    start: nat,
    initial_period: nat,
    flat_period: nat,
    final_period: nat,
    now: nat,
)
    requires
        start + initial_period <= now <= start + initial_period + flat_period,
        initial_period > 0 || start < now,
    ensures
        quorum(total_votes, start, initial_period, flat_period, final_period, now) == total_votes
            / 2,
{
    if now == start + initial_period {
        let half = (total_votes / 2) as int;
        assert(half * 0 == 0) by (nonlinear_arith);
        assert(0int / (initial_period as int) == 0) by (nonlinear_arith)
            requires
                initial_period > 0,
        ;
    }
}

/// All the votes that can be cast on a proposal: the total stake when it
/// was made and what the counter has grown by since.
pub open spec fn spec_total_votes(state: ProposalState, counter_stake: Balance) -> int {
    counter_stake - state.counter_at_start + state.votes_at_start
}

/// What [`minimum_to_finalize`] answers.
pub open spec fn spec_minimum_to_finalize(
    state: ProposalState,
    rules: ProposalRules,
    now: Timestamp,
    counter_stake: Balance,
) -> Result<Balance, MathError> {
    let total_votes = spec_total_votes(state, counter_stake);
    let half = total_votes / 2;
    let end_initial = state.start + rules.initial_period;
    let end_flat = end_initial + rules.flat_period;
    let end_final = end_flat + rules.final_period;
    let needed = quorum(
        total_votes as nat,
        state.start as nat,
        rules.initial_period as nat,
        rules.flat_period as nat,
        rules.final_period as nat,
        now as nat,
    );
    if counter_stake < state.counter_at_start {
        Err(MathError::Sub)
    } else if total_votes > u128::MAX {
        Err(MathError::Add)
    } else if now <= end_initial {
        if rules.initial_period == 0 {
            Err(MathError::Div)
        } else if half * (end_initial - now) > u128::MAX {
            Err(MathError::Mul)
        } else if needed > u128::MAX {
            Err(MathError::Add)
        } else {
            Ok(needed as Balance)
        }
    } else if now <= end_final && end_flat < now && half * (end_final - now) > u128::MAX {
        Err(MathError::Mul)
    } else {
        Ok(needed as Balance)
    }
}

/// The votes needed at `now` to finalize the proposal with `state` under
/// `rules`, where the stake counter stands at `counter_stake`. The answer is
/// refused where a step of the computation does not fit, and where the
/// initial period is empty and has not passed.
pub fn minimum_to_finalize(
    state: &ProposalState,
    rules: &ProposalRules,
    now: Timestamp,
    counter_stake: Balance,
) -> (res: Result<Balance, MathError>)
    ensures
        res == spec_minimum_to_finalize(*state, *rules, now, counter_stake),
{
    let end_initial_period: u128 = state.start as u128 + rules.initial_period as u128;
    let end_flat_period: u128 = end_initial_period + rules.flat_period as u128;
    let end_final_period: u128 = end_flat_period + rules.final_period as u128;
    let now: u128 = now as u128;
    let counter_diff = match counter_stake.checked_sub(state.counter_at_start) {
        Some(counter_diff) => counter_diff,
        None => {
            return Err(MathError::Sub);
        },
    };
    let total_votes = match counter_diff.checked_add(state.votes_at_start) {
        Some(total_votes) => total_votes,
        None => {
            return Err(MathError::Add);
        },
    };
    let half: u128 = total_votes / 2;
    if now <= end_initial_period {
        if rules.initial_period == 0 {
            return Err(MathError::Div);
        }
        let product = match half.checked_mul(end_initial_period - now) {
            Some(product) => product,
            None => {
                return Err(MathError::Mul);
            },
        };
        match (product / rules.initial_period as u128).checked_add(half) {
            Some(needed) => Ok(needed),
            None => Err(MathError::Add),
        }
    } else if now <= end_flat_period {
        Ok(half)
    } else if now <= end_final_period {
        match half.checked_mul(end_final_period - now) {
            Some(product) => {
                proof {
                    lemma_final_quorum_bounds(
                        half as int,
                        end_final_period - now,
                        rules.final_period as int,
                    );
                }
                Ok(product / rules.final_period as u128)
            },
            None => Err(MathError::Mul),
        }
    } else {
        Ok(0)
    }
}

/// The votes needed to finalize a proposal never grow as time goes by:
/// of two answers for the same proposal, the later one is no greater.
pub proof fn lemma_minimum_to_finalize_decays(
    state: ProposalState,
    rules: ProposalRules,
    counter_stake: Balance,
    earlier: Timestamp,
    later: Timestamp,
)
    requires
        earlier <= later,
        spec_minimum_to_finalize(state, rules, earlier, counter_stake) is Ok,
        spec_minimum_to_finalize(state, rules, later, counter_stake) is Ok,
    ensures
        spec_minimum_to_finalize(state, rules, later, counter_stake)->Ok_0
            <= spec_minimum_to_finalize(state, rules, earlier, counter_stake)->Ok_0,
{
    lemma_quorum_decays(
        spec_total_votes(state, counter_stake) as nat,
        state.start as nat,
        rules.initial_period as nat,
        rules.flat_period as nat,
        rules.final_period as nat,
        earlier as nat,
        later as nat,
    );
}

/// From the end of the initial period to the end of the flat period the
/// votes needed to finalize a proposal are exactly half of all the votes.
pub proof fn lemma_minimum_to_finalize_flat(
    state: ProposalState,
    rules: ProposalRules,
    counter_stake: Balance,
    now: Timestamp,
)
    requires
        state.start + rules.initial_period <= now <= state.start + rules.initial_period
            + rules.flat_period,
        spec_minimum_to_finalize(state, rules, now, counter_stake) is Ok,
    ensures
        spec_minimum_to_finalize(state, rules, now, counter_stake)->Ok_0 == spec_total_votes(
            state,
            counter_stake,
        ) / 2,
{
    lemma_quorum_flat(
        spec_total_votes(state, counter_stake) as nat,
        state.start as nat,
        rules.initial_period as nat,
        rules.flat_period as nat,
        rules.final_period as nat,
        now as nat,
    );
}

} // verus!
