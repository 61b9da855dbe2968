//! The queue of unstakes of one account, oldest first: what is ready to
//! leave it, what a slash takes from it, and what of it still counts as
//! stake at a given time.

use vstd::prelude::*;
use crate::stake::structs::Unstake;
use crate::sums::lemma_sum_push;
use crate::sums::lemma_sum_split;
use crate::sums::sum_by;
use crate::types::Balance;
use crate::types::Timestamp;

verus! {

/// What an unstake weighs in a sum: its amount.
pub open spec fn unstake_weight() -> spec_fn(Unstake) -> nat {
    |unstake: Unstake| unstake.amount as nat
}

/// The sum of the amounts in a queue.
pub open spec fn queue_total(queue: Seq<Unstake>) -> nat {
    sum_by(queue, unstake_weight())
}

/// The sum of the amounts of the newest unstakes, from the back of the queue
/// down to the first one that was initialized before `timestamp`.
pub open spec fn recent_total(queue: Seq<Unstake>, timestamp: Timestamp) -> nat
    decreases queue.len(),
{
    if queue.len() == 0 || queue.last().init_time < timestamp {
        0
    } else {
        recent_total(queue.drop_last(), timestamp) + queue.last().amount as nat
    }
}

/// Whether an unstake has waited for `unstake_period` at time `now`.
pub open spec fn is_ready(unstake: Unstake, unstake_period: Timestamp, now: Timestamp) -> bool {
    unstake.init_time + unstake_period <= now
}

/// The number of unstakes at the front of the queue that are ready, up to the
/// first one that is not.
pub open spec fn ready_count(queue: Seq<Unstake>, unstake_period: Timestamp, now: Timestamp) -> nat
    decreases queue.len(),
{
    if queue.len() == 0 || !is_ready(queue.first(), unstake_period, now) {
        0
    } else {
        1 + ready_count(queue.drop_first(), unstake_period, now)
    }
}

/// The sum of the amounts that are ready to leave the queue.
pub open spec fn ready_total(queue: Seq<Unstake>, unstake_period: Timestamp, now: Timestamp) -> nat {
    queue_total(queue.take(ready_count(queue, unstake_period, now) as int))
}

/// The queue without the unstakes that are ready.
pub open spec fn pending(queue: Seq<Unstake>, unstake_period: Timestamp, now: Timestamp) -> Seq<
    Unstake,
> {
    queue.skip(ready_count(queue, unstake_period, now) as int)
}

/// The queue after a slash of `amount`: the slash empties unstakes from the
/// newest one down, and takes the rest from the first one that can bear it.
pub open spec fn slashed_queue(queue: Seq<Unstake>, amount: nat) -> Seq<Unstake>
    decreases queue.len(),
{
    if queue.len() == 0 {
        queue
    } else if amount < queue.last().amount {
        queue.drop_last().push(
            Unstake {
                init_time: queue.last().init_time,
                amount: (queue.last().amount - amount) as Balance,
            },
        )
    } else if amount == queue.last().amount {
        queue.drop_last()
    } else {
        slashed_queue(queue.drop_last(), (amount - queue.last().amount) as nat)
    }
}

/// What a slash of `amount` takes from a queue: all of `amount`, or all of
/// the queue where it holds less.
pub open spec fn slashed_total(queue: Seq<Unstake>, amount: nat) -> nat {
    if amount <= queue_total(queue) {
        amount
    } else {
        queue_total(queue)
    }
}

/// The ready unstakes are at most as many as the queue is long.
pub proof fn lemma_ready_count_bound(queue: Seq<Unstake>, unstake_period: Timestamp, now: Timestamp)
    ensures
        ready_count(queue, unstake_period, now) <= queue.len(),
    decreases queue.len(),
{
    if queue.len() > 0 && is_ready(queue.first(), unstake_period, now) {
        lemma_ready_count_bound(queue.drop_first(), unstake_period, now);
    }
}

/// Where the first `index` unstakes are ready, the count goes on from there.
pub proof fn lemma_ready_count_skip(
    queue: Seq<Unstake>,
    unstake_period: Timestamp,
    now: Timestamp,
    index: int,
)
    requires
        0 <= index <= queue.len(),
        forall|i: int| 0 <= i < index ==> is_ready(#[trigger] queue[i], unstake_period, now),
    ensures
        ready_count(queue, unstake_period, now) == index + ready_count(
            queue.skip(index),
            unstake_period,
            now,
        ),
    decreases index,
{
    if index == 0 {
        assert(queue.skip(0) =~= queue);
    } else {
        assert(is_ready(queue[0], unstake_period, now));
        let rest = queue.drop_first();
        assert forall|i: int| 0 <= i < index - 1 implies is_ready(
            #[trigger] rest[i],
            unstake_period,
            now,
        ) by {
            assert(rest[i] == queue[i + 1]);
        }
        lemma_ready_count_skip(rest, unstake_period, now, index - 1);
        assert(rest.skip(index - 1) =~= queue.skip(index));
    }
}

/// What is ready and what is pending make up the queue.
pub proof fn lemma_ready_split(queue: Seq<Unstake>, unstake_period: Timestamp, now: Timestamp)
    ensures
        queue_total(queue) == ready_total(queue, unstake_period, now) + queue_total(
            pending(queue, unstake_period, now),
        ),
{
    lemma_ready_count_bound(queue, unstake_period, now);
    lemma_sum_split(queue, unstake_weight(), ready_count(queue, unstake_period, now) as int);
}

/// A slash takes from the queue exactly what it is said to take.
pub proof fn lemma_slashed_queue_total(queue: Seq<Unstake>, amount: nat)
    ensures
        queue_total(slashed_queue(queue, amount)) + slashed_total(queue, amount) == queue_total(
            queue,
        ),
    decreases queue.len(),
{
    if queue.len() == 0 {
    } else if amount < queue.last().amount {
        let rest = Unstake {
            init_time: queue.last().init_time,
            amount: (queue.last().amount - amount) as Balance,
        };
        lemma_sum_push(queue.drop_last(), unstake_weight(), rest);
    } else if amount == queue.last().amount {
    } else {
        lemma_slashed_queue_total(queue.drop_last(), (amount - queue.last().amount) as nat);
    }
}

/// A queue that holds a single unstake of `amount`, made at `now`, gives all
/// of it back once `unstake_period` has passed, and nothing stays behind.
pub proof fn lemma_single_unstake_matures(
    amount: Balance,
    init_time: Timestamp,
    unstake_period: Timestamp,
    now: Timestamp,
)
    requires
        init_time + unstake_period <= now,
    ensures
        ready_total(seq![Unstake { init_time, amount }], unstake_period, now) == amount,
        pending(seq![Unstake { init_time, amount }], unstake_period, now) == Seq::<
            Unstake,
        >::empty(),
{
    let queue = seq![Unstake { init_time, amount }];
    assert(queue.drop_first() =~= Seq::<Unstake>::empty());
    assert(ready_count(queue.drop_first(), unstake_period, now) == 0);
    assert(ready_count(queue, unstake_period, now) == 1);
    assert(queue.take(1) =~= queue);
    crate::sums::lemma_sum_one(Unstake { init_time, amount }, unstake_weight());
    assert(queue.skip(1) =~= Seq::<Unstake>::empty());
}

} // verus!
