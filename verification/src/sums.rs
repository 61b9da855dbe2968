//! Sums over sequences, and how they change with the sequence.

use vstd::prelude::*;

verus! {

/// The sum of `weight` over the items of `items`.
pub open spec fn sum_by<T>(items: Seq<T>, weight: spec_fn(T) -> nat) -> nat
    decreases items.len(),
{
    if items.len() == 0 {
        0
    } else {
        sum_by(items.drop_last(), weight) + weight(items.last())
    }
}

pub proof fn lemma_sum_push<T>(items: Seq<T>, weight: spec_fn(T) -> nat, item: T)
    ensures
        sum_by(items.push(item), weight) == sum_by(items, weight) + weight(item),
{
    assert(items.push(item).drop_last() =~= items);
}

pub proof fn lemma_sum_concat<T>(left: Seq<T>, right: Seq<T>, weight: spec_fn(T) -> nat)
    ensures
        sum_by(left + right, weight) == sum_by(left, weight) + sum_by(right, weight),
    decreases right.len(),
{
    if right.len() == 0 {
        assert(left + right =~= left);
    } else {
        assert((left + right).drop_last() =~= left + right.drop_last());
        lemma_sum_concat(left, right.drop_last(), weight);
    }
}

/// A sequence splits at any index into two parts whose sums add up.
pub proof fn lemma_sum_split<T>(items: Seq<T>, weight: spec_fn(T) -> nat, at: int)
    requires
        0 <= at <= items.len(),
    ensures
        sum_by(items, weight) == sum_by(items.take(at), weight) + sum_by(items.skip(at), weight),
{
    assert(items =~= items.take(at) + items.skip(at));
    lemma_sum_concat(items.take(at), items.skip(at), weight);
}

pub proof fn lemma_sum_one<T>(item: T, weight: spec_fn(T) -> nat)
    ensures
        sum_by(seq![item], weight) == weight(item),
{
    let one = seq![item];
    assert(one.len() == 1);
    assert(one.last() == item);
    assert(one.drop_last() =~= Seq::<T>::empty());
    assert(sum_by(one.drop_last(), weight) == 0);
}

/// No item weighs more than the whole.
pub proof fn lemma_sum_bounds<T>(items: Seq<T>, weight: spec_fn(T) -> nat, i: int)
    requires
        0 <= i < items.len(),
    ensures
        weight(items[i]) <= sum_by(items, weight),
        sum_by(items.remove(i), weight) == sum_by(items, weight) - weight(items[i]),
{
    lemma_sum_split(items, weight, i);
    lemma_sum_split(items.skip(i), weight, 1);
    assert(items.skip(i).take(1) =~= seq![items[i]]);
    lemma_sum_one(items[i], weight);
    assert(items.skip(i).skip(1) =~= items.skip(i + 1));
    assert(items.remove(i) =~= items.take(i) + items.skip(i + 1));
    lemma_sum_concat(items.take(i), items.skip(i + 1), weight);
}

pub proof fn lemma_sum_update<T>(items: Seq<T>, weight: spec_fn(T) -> nat, i: int, item: T)
    requires
        0 <= i < items.len(),
    ensures
        sum_by(items.update(i, item), weight) == sum_by(items, weight) - weight(items[i])
            + weight(item),
{
    let updated = items.update(i, item);
    lemma_sum_bounds(items, weight, i);
    lemma_sum_bounds(updated, weight, i);
    assert(updated.remove(i) =~= items.remove(i));
}

/// Two sequences whose items weigh the same, index by index, sum up to the
/// same.
pub proof fn lemma_sum_same<A, B>(
    left: Seq<A>,
    left_weight: spec_fn(A) -> nat,
    right: Seq<B>,
    right_weight: spec_fn(B) -> nat,
)
    requires
        left.len() == right.len(),
        forall|i: int| 0 <= i < left.len() ==> left_weight(left[i]) == right_weight(right[i]),
    ensures
        sum_by(left, left_weight) == sum_by(right, right_weight),
    decreases left.len(),
{
    if left.len() > 0 {
        lemma_sum_same(left.drop_last(), left_weight, right.drop_last(), right_weight);
    }
}

} // verus!
