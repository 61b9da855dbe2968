//! What holds of the staking ledger whatever is done with it.

use vstd::prelude::*;
use crate::stake::errors::StakeError;
use crate::stake::ledger::Staker;
use crate::stake::queue::lemma_single_unstake_matures;
use crate::stake::queue::queue_total;
use crate::stake::storage::balance_weight;
use crate::stake::storage::lemma_counter_grows;
use crate::stake::storage::queue_weight;
use crate::stake::structs::Unstake;
use crate::sums::lemma_sum_same;
use crate::sums::sum_by;
use crate::types::AccountId;
use crate::types::Balance;
use crate::types::Timestamp;

verus! {

/// The total stake is the sum of the stakes of all accounts, and the total
/// unstake is the sum of the amounts in the queues of all accounts. The
/// accounts are those that the tables list, each once; an account that is
/// not listed has no stake, or an empty queue.
pub proof fn lemma_totals_are_sums(staker: Staker)
    requires
        staker.wf(),
    ensures
        staker.storage().stakes.keys().no_duplicates(),
        forall|account: AccountId|
            !staker.storage().stakes.keys().contains(account)
                ==> #[trigger] staker.storage().spec_stake_of(account) == 0,
        staker.storage().total_stake == sum_by(
            staker.storage().stakes.keys(),
            |account: AccountId| staker.storage().spec_stake_of(account) as nat,
        ),
        staker.storage().unstakes.keys().no_duplicates(),
        forall|account: AccountId|
            !staker.storage().unstakes.keys().contains(account)
                ==> #[trigger] staker.storage().spec_unstakes_of(account) == Seq::<Unstake>::empty(),
        staker.storage().total_unstake == sum_by(
            staker.storage().unstakes.keys(),
            |account: AccountId| queue_total(staker.storage().spec_unstakes_of(account)),
        ),
{
    let storage = staker.storage();
    assert forall|i: int| 0 <= i < storage.stakes.keys().len() implies storage.spec_stake_of(
        storage.stakes.keys()[i],
    ) == storage.stakes.values()[i] by {
        storage.stakes.lemma_index_of(i);
        assert(storage.stakes@.dom().contains(storage.stakes.keys()[i]));
    }
    lemma_sum_same(
        storage.stakes.keys(),
        |account: AccountId| storage.spec_stake_of(account) as nat,
        storage.stakes.values(),
        balance_weight(),
    );
    assert forall|i: int| 0 <= i < storage.unstakes.keys().len() implies storage.spec_unstakes_of(
        storage.unstakes.keys()[i],
    ) == storage.unstakes.values()[i]@ by {
        storage.unstakes.lemma_index_of(i);
        assert(storage.unstakes@.dom().contains(storage.unstakes.keys()[i]));
        assert(storage.unstakes_view().dom().contains(storage.unstakes.keys()[i]));
    }
    lemma_sum_same(
        storage.unstakes.keys(),
        |account: AccountId| queue_total(storage.spec_unstakes_of(account)),
        storage.unstakes.values(),
        queue_weight(),
    );
    assert forall|account: AccountId|
        !storage.stakes.keys().contains(account) implies #[trigger] storage.spec_stake_of(account)
        == 0 by {
        assert(!storage.stakes@.dom().contains(account));
    }
    assert forall|account: AccountId|
        !storage.unstakes.keys().contains(
            account,
        ) implies #[trigger] storage.spec_unstakes_of(account) == Seq::<Unstake>::empty() by {
        assert(!storage.unstakes@.dom().contains(account));
        assert(!storage.unstakes_view().dom().contains(account));
    }
}

/// An account that holds nothing stakes `amount`, sends all of it to its
/// queue, and unstakes once the unstake period has passed: it gets exactly
/// `amount` back and is left with no stake and an empty queue.
pub proof fn lemma_round_trip(
    start: Staker,
    staked: Staker,
    queued: Staker,
    done: Staker,
    account: AccountId,
    amount: Balance,
    staked_at: Timestamp,
    queued_at: Timestamp,
    unstaked_at: Timestamp,
)
    requires
        start.wf(),
        start.storage().spec_stake_of(account) == 0,
        start.storage().spec_unstakes_of(account) == Seq::<Unstake>::empty(),
        start.spec_stake(amount, Ok(())) is Ok,
        staked.staked(&start, account, amount, staked_at),
        staked.spec_initialize_unstake(account, amount) is Ok,
        queued.unstake_initialized(&staked, account, amount, queued_at),
        queued_at + queued.storage().unstake_period <= unstaked_at,
        done.unstaked(&queued, account, amount, unstaked_at),
    ensures
        queued.spec_unstake(account, unstaked_at, Ok(())) == Ok::<Balance, StakeError>(amount),
        done.storage().spec_stake_of(account) == 0,
        done.storage().spec_unstakes_of(account) == Seq::<Unstake>::empty(),
{
    let queue = seq![Unstake { init_time: queued_at, amount }];
    assert(staked.storage().spec_unstakes_of(account) == Seq::<Unstake>::empty()) by {
        assert(staked.storage().unstakes_view() == start.storage().unstakes_view());
    }
    assert(queued.storage().spec_unstakes_of(account) =~= queue);
    lemma_single_unstake_matures(
        amount,
        queued_at,
        queued.storage().unstake_period,
        unstaked_at,
    );
}

/// An account that sends part of its stake to its queue moves that amount
/// from its stake, and from the total stake, to the back of its queue, and
/// to the total unstake. Nothing else changes: not the counter, and not
/// what another account holds. This is so wherever the account holds the
/// amount, its queue has room, and the total unstake can take the amount.
pub proof fn lemma_initialize_unstake_moves_stake_to_the_queue(
    before: Staker,
    after: Staker,
    caller: AccountId,
    amount: Balance,
    now: Timestamp,
    other: AccountId,
)
    requires
        before.wf(),
        0 < amount <= before.storage().spec_stake_of(caller),
        before.storage().spec_unstakes_of(caller).len()
            < before.storage().maximal_number_of_unstakes,
        before.storage().total_unstake + amount <= u128::MAX,
        after.unstake_initialized(&before, caller, amount, now),
    ensures
        before.spec_initialize_unstake(caller, amount) is Ok,
        after.storage().spec_stake_of(caller) == before.storage().spec_stake_of(caller) - amount,
        after.storage().total_stake == before.storage().total_stake - amount,
        after.storage().spec_unstakes_of(caller) == before.storage().spec_unstakes_of(caller).push(
            Unstake { init_time: now, amount },
        ),
        after.storage().total_unstake == before.storage().total_unstake + amount,
        after.counter() == before.counter(),
        other != caller ==> after.storage().spec_stake_of(other) == before.storage().spec_stake_of(
            other,
        ) && after.storage().spec_unstakes_of(other) == before.storage().spec_unstakes_of(other),
{
}

/// The counter never goes down, whatever is done with the ledger, unless
/// a stake or a reward takes it past the greatest amount there is, where it
/// wraps.
pub proof fn lemma_counter_never_goes_down(
    before: Staker,
    after: Staker,
    account: AccountId,
    amount: Balance,
    now: Timestamp,
)
    requires
        after.staked(&before, account, amount, now) || after.unstake_initialized(
            &before,
            account,
            amount,
            now,
        ) || after.unstaked(&before, account, amount, now) || after.rewarded(
            &before,
            account,
            amount,
        ) || after.slashed(&before, account, amount),
        before.counter() + amount <= u128::MAX || (!after.staked(&before, account, amount, now)
            && !after.rewarded(&before, account, amount)),
    ensures
        after.counter() >= before.counter(),
{
    lemma_counter_grows(before.counter(), amount);
}

} // verus!
