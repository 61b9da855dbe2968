//! What the staking ledger stores, and the steps that change it one table
//! at a time.

use vstd::prelude::*;
use crate::stake::errors::MathError;
use crate::stake::errors::StakeError;
use crate::stake::queue::is_ready;
use crate::stake::queue::lemma_ready_count_bound;
use crate::stake::queue::lemma_ready_count_skip;
use crate::stake::queue::lemma_ready_split;
use crate::stake::queue::lemma_slashed_queue_total;
use crate::stake::queue::pending;
use crate::stake::queue::queue_total;
use crate::stake::queue::ready_count;
use crate::stake::queue::ready_total;
use crate::stake::queue::recent_total;
use crate::stake::queue::slashed_queue;
use crate::stake::queue::slashed_total;
use crate::stake::queue::unstake_weight;
use crate::stake::structs::Unstake;
use crate::sums::lemma_sum_bounds;
use crate::sums::lemma_sum_push;
use crate::sums::lemma_sum_split;
use crate::sums::lemma_sum_update;
use crate::sums::sum_by;
use crate::table::Table;
use crate::types::AccountId;
use crate::types::Balance;
use crate::types::Timestamp;

verus! {

/// What a stake weighs in a sum: itself.
pub open spec fn balance_weight() -> spec_fn(Balance) -> nat {
    |balance: Balance| balance as nat
}

/// What a queue of unstakes weighs in a sum: the sum of its amounts.
pub open spec fn queue_weight() -> spec_fn(Vec<Unstake>) -> nat {
    |queue: Vec<Unstake>| queue_total(queue@)
}

/// A copy of a queue.
pub fn copy_queue(queue: &Vec<Unstake>) -> (copy: Vec<Unstake>)
    ensures
        copy@ == queue@,
{
    let mut copy: Vec<Unstake> = Vec::new();
    let mut i: usize = 0;
    while i < queue.len()
        invariant
            i <= queue.len(),
            copy@ == queue@.take(i as int),
        decreases queue.len() - i,
    {
        copy.push(queue[i]);
        assert(queue@.take(i + 1) =~= queue@.take(i as int).push(queue@[i as int]));
        i += 1;
    }
    assert(queue@.take(queue.len() as int) =~= queue@);
    copy
}

/// Takes up to `amount` from a queue, from its newest unstake down, and
/// gives what is left of the queue and how much was taken.
pub fn slash_queue(queue: Vec<Unstake>, amount: Balance) -> (res: (Vec<Unstake>, Balance))
    ensures
        res.0@ == slashed_queue(queue@, amount as nat),
        res.1 == slashed_total(queue@, amount as nat),
{
    let mut to_slash: Balance = amount;
    let mut unstakes = queue;
    while unstakes.len() > 0
        invariant_except_break
            slashed_queue(queue@, amount as nat) == slashed_queue(unstakes@, to_slash as nat),
            to_slash <= amount,
            (amount - to_slash) + queue_total(unstakes@) == queue_total(queue@),
        ensures
            unstakes@ == slashed_queue(queue@, amount as nat),
            to_slash <= amount,
            amount - to_slash == slashed_total(queue@, amount as nat),
        decreases unstakes.len(),
    {
        let ghost before = unstakes@;
        let mut unstake = unstakes.pop().unwrap();
        assert(unstakes@ =~= before.drop_last());
        assert(unstake == before.last());
        if to_slash <= unstake.amount {
            unstake.amount -= to_slash;
            if unstake.amount != 0 {
                unstakes.push(unstake);
            }
            to_slash = 0;
            break ;
        } else {
            to_slash -= unstake.amount;
        }
    }
    (unstakes, amount - to_slash)
}

/// The stakes and the queued unstakes of all accounts, with their totals and
/// the two parameters of unstaking.
pub struct StakeStorage {
    /// The token that is staked.
    pub want: AccountId,
    /// The time that an unstake waits in the queue.
    pub unstake_period: Timestamp,
    /// How many unstakes one account may have in its queue.
    pub maximal_number_of_unstakes: u64,
    pub total_stake: Balance,
    pub stakes: Table<AccountId, Balance>,
    pub total_unstake: Balance,
    pub unstakes: Table<AccountId, Vec<Unstake>>,
}

impl Default for StakeStorage {
    fn default() -> (storage: Self)
        ensures
            storage.wf(),
            storage.want.is_zero(),
            storage.unstake_period == 0,
            storage.maximal_number_of_unstakes == 0,
            storage.total_stake == 0,
            storage.total_unstake == 0,
            storage.stakes@ == Map::<AccountId, Balance>::empty(),
            storage.unstakes@ == Map::<AccountId, Vec<Unstake>>::empty(),
            storage.stakes_sum() == 0,
            storage.unstakes_sum() == 0,
    {
        StakeStorage {
            want: AccountId::zero(),
            unstake_period: 0,
            maximal_number_of_unstakes: 0,
            total_stake: 0,
            total_unstake: 0,
            stakes: Table::new(),
            unstakes: Table::new(),
        }
    }
}

impl StakeStorage {
    pub open spec fn wf(&self) -> bool {
        self.stakes.wf() && self.unstakes.wf()
    }

    /// The stake of an account: 0 where none is stored.
    pub open spec fn spec_stake_of(&self, account: AccountId) -> Balance {
        if self.stakes@.dom().contains(account) {
            self.stakes@[account]
        } else {
            0
        }
    }

    /// The queue of an account: empty where none is stored.
    pub open spec fn spec_unstakes_of(&self, account: AccountId) -> Seq<Unstake> {
        if self.unstakes_view().dom().contains(account) {
            self.unstakes_view()[account]
        } else {
            Seq::empty()
        }
    }

    /// The stored queues, by account.
    pub open spec fn unstakes_view(&self) -> Map<AccountId, Seq<Unstake>> {
        Map::new(
            |account: AccountId| self.unstakes@.dom().contains(account),
            |account: AccountId| self.unstakes@[account]@,
        )
    }

    /// The sum of the stakes of all accounts.
    pub open spec fn stakes_sum(&self) -> nat {
        sum_by(self.stakes.values(), balance_weight())
    }

    /// The sum of the amounts in the queues of all accounts.
    pub open spec fn unstakes_sum(&self) -> nat {
        sum_by(self.unstakes.values(), queue_weight())
    }

    /// Whether two storages have the same parameters.
    pub open spec fn same_parameters(&self, other: &Self) -> bool {
        &&& self.want == other.want
        &&& self.unstake_period == other.unstake_period
        &&& self.maximal_number_of_unstakes == other.maximal_number_of_unstakes
    }

    /// Whether two storages have the same stakes and the same total of them.
    pub open spec fn same_stakes(&self, other: &Self) -> bool {
        self.total_stake == other.total_stake && self.stakes == other.stakes
    }

    /// The queue that `account` has after `queue` was stored for it: an
    /// empty queue is not stored.
    pub open spec fn unstakes_with(&self, account: AccountId, queue: Seq<Unstake>) -> Map<
        AccountId,
        Seq<Unstake>,
    > {
        if queue.len() == 0 {
            self.unstakes_view().remove(account)
        } else {
            self.unstakes_view().insert(account, queue)
        }
    }

    /// No account holds more than all accounts together.
    pub proof fn lemma_stake_within_sum(&self, account: AccountId)
        requires
            self.wf(),
        ensures
            self.spec_stake_of(account) <= self.stakes_sum(),
            queue_total(self.spec_unstakes_of(account)) <= self.unstakes_sum(),
    {
        if self.stakes.contains(account) {
            lemma_sum_bounds(self.stakes.values(), balance_weight(), self.stakes.index_of(account));
        }
        if self.unstakes.contains(account) {
            lemma_sum_bounds(
                self.unstakes.values(),
                queue_weight(),
                self.unstakes.index_of(account),
            );
        }
    }

    /// The sum of the stakes of all accounts, where it fits.
    pub fn sum_of_stakes(&self) -> (sum: Option<Balance>)
        requires
            self.wf(),
        ensures
            match sum {
                Some(sum) => sum == self.stakes_sum(),
                None => self.stakes_sum() > u128::MAX,
            },
    {
        let mut sum: Balance = 0;
        let mut i: usize = 0;
        while i < self.stakes.len()
            invariant
                self.wf(),
                i <= self.stakes.values().len(),
                sum == sum_by(self.stakes.values().take(i as int), balance_weight()),
            decreases self.stakes.values().len() - i,
        {
            proof {
                let values = self.stakes.values();
                assert(values.take(i + 1) =~= values.take(i as int).push(values[i as int]));
                lemma_sum_push(values.take(i as int), balance_weight(), values[i as int]);
                lemma_sum_split(values, balance_weight(), i + 1);
            }
            sum = match sum.checked_add(*self.stakes.value_at(i)) {
                Some(sum) => sum,
                None => {
                    return None;
                },
            };
            i += 1;
        }
        assert(self.stakes.values().take(i as int) =~= self.stakes.values());
        Some(sum)
    }

    /// The sum of the amounts in the queues of all accounts, where it fits.
    pub fn sum_of_unstakes(&self) -> (sum: Option<Balance>)
        requires
            self.wf(),
        ensures
            match sum {
                Some(sum) => sum == self.unstakes_sum(),
                None => self.unstakes_sum() > u128::MAX,
            },
    {
        let mut sum: Balance = 0;
        let mut i: usize = 0;
        while i < self.unstakes.len()
            invariant
                self.wf(),
                i <= self.unstakes.values().len(),
                sum == sum_by(self.unstakes.values().take(i as int), queue_weight()),
            decreases self.unstakes.values().len() - i,
        {
            let queue = self.unstakes.value_at(i);
            proof {
                let values = self.unstakes.values();
                assert(values.take(i + 1) =~= values.take(i as int).push(values[i as int]));
                lemma_sum_push(values.take(i as int), queue_weight(), values[i as int]);
                lemma_sum_split(values, queue_weight(), i + 1);
            }
            let mut j: usize = 0;
            let ghost before = sum;
            while j < queue.len()
                invariant
                    j <= queue@.len(),
                    sum == before + queue_total(queue@.take(j as int)),
                    before + queue_total(queue@) <= sum_by(self.unstakes.values(), queue_weight()),
                decreases queue@.len() - j,
            {
                proof {
                    assert(queue@.take(j + 1) =~= queue@.take(j as int).push(queue@[j as int]));
                    lemma_sum_push(queue@.take(j as int), unstake_weight(), queue@[j as int]);
                    lemma_sum_split(queue@, unstake_weight(), j + 1);
                }
                sum = match sum.checked_add(queue[j].amount) {
                    Some(sum) => sum,
                    None => {
                        return None;
                    },
                };
                j += 1;
            }
            assert(queue@.take(j as int) =~= queue@);
            i += 1;
        }
        assert(self.unstakes.values().take(i as int) =~= self.unstakes.values());
        Some(sum)
    }

    pub fn stake_of(&self, account: &AccountId) -> (stake: Balance)
        requires
            self.wf(),
        ensures
            stake == self.spec_stake_of(*account),
    {
        match self.stakes.get(account) {
            Some(stake) => *stake,
            None => 0,
        }
    }

    pub fn initialized_unstakes_of(&self, account: &AccountId) -> (queue: Vec<Unstake>)
        requires
            self.wf(),
        ensures
            queue@ == self.spec_unstakes_of(*account),
    {
        match self.unstakes.get(account) {
            Some(queue) => copy_queue(queue),
            None => Vec::new(),
        }
    }

    pub fn change_unstake_period(&mut self, unstake_period: &Timestamp)
        ensures
            *final(self) == (StakeStorage { unstake_period: *unstake_period, ..*old(self) }),
    {
        if self.unstake_period != *unstake_period {
            self.unstake_period = *unstake_period;
        }
    }

    pub fn change_maximal_number_of_unstakes(&mut self, maximal_number_of_unstakes: &u64)
        ensures
            *final(self) == (StakeStorage {
                maximal_number_of_unstakes: *maximal_number_of_unstakes,
                ..*old(self)
            }),
    {
        if self.maximal_number_of_unstakes != *maximal_number_of_unstakes {
            self.maximal_number_of_unstakes = *maximal_number_of_unstakes;
        }
    }

    pub fn increase_total_stake(&mut self, amount: &Balance) -> (res: Result<(), MathError>)
        ensures
            match res {
                Ok(()) => old(self).total_stake + *amount <= u128::MAX && *final(self) == (
                StakeStorage {
                    total_stake: (old(self).total_stake + *amount) as Balance,
                    ..*old(self)
                }),
                Err(error) => error == MathError::Add && old(self).total_stake + *amount
                    > u128::MAX && *final(self) == *old(self),
            },
    {
        match self.total_stake.checked_add(*amount) {
            Some(new_total_stake) => {
                self.total_stake = new_total_stake;
                Ok(())
            },
            None => Err(MathError::Add),
        }
    }

    pub fn decrease_total_stake(&mut self, amount: &Balance) -> (res: Result<(), MathError>)
        ensures
            match res {
                Ok(()) => *amount <= old(self).total_stake && *final(self) == (StakeStorage {
                    total_stake: (old(self).total_stake - *amount) as Balance,
                    ..*old(self)
                }),
                Err(error) => error == MathError::Sub && *amount > old(self).total_stake
                    && *final(self) == *old(self),
            },
    {
        match self.total_stake.checked_sub(*amount) {
            Some(new_total_stake) => {
                self.total_stake = new_total_stake;
                Ok(())
            },
            None => Err(MathError::Sub),
        }
    }

    pub fn increase_total_unstake(&mut self, amount: &Balance) -> (res: Result<(), MathError>)
        ensures
            match res {
                Ok(()) => old(self).total_unstake + *amount <= u128::MAX && *final(self) == (
                StakeStorage {
                    total_unstake: (old(self).total_unstake + *amount) as Balance,
                    ..*old(self)
                }),
                Err(error) => error == MathError::Add && old(self).total_unstake + *amount
                    > u128::MAX && *final(self) == *old(self),
            },
    {
        match self.total_unstake.checked_add(*amount) {
            Some(new_total_unstake) => {
                self.total_unstake = new_total_unstake;
                Ok(())
            },
            None => Err(MathError::Add),
        }
    }

    pub fn decrease_total_unstake(&mut self, amount: &Balance) -> (res: Result<(), MathError>)
        ensures
            match res {
                Ok(()) => *amount <= old(self).total_unstake && *final(self) == (StakeStorage {
                    total_unstake: (old(self).total_unstake - *amount) as Balance,
                    ..*old(self)
                }),
                Err(error) => error == MathError::Sub && *amount > old(self).total_unstake
                    && *final(self) == *old(self),
            },
    {
        match self.total_unstake.checked_sub(*amount) {
            Some(new_total_unstake) => {
                self.total_unstake = new_total_unstake;
                Ok(())
            },
            None => Err(MathError::Sub),
        }
    }

    /// Adds `amount` to the stake of `account`.
    pub fn increase_stake_of(&mut self, account: &AccountId, amount: &Balance) -> (res: Result<
        (),
        MathError,
    >)
        requires
            old(self).wf(),
        ensures
            final(self).wf(),
            match res {
                Ok(()) => {
                    &&& old(self).spec_stake_of(*account) + *amount <= u128::MAX
                    &&& final(self).stakes@ == old(self).stakes@.insert(
                        *account,
                        (old(self).spec_stake_of(*account) + *amount) as Balance,
                    )
                    &&& final(self).stakes_sum() == old(self).stakes_sum() + *amount
                    &&& final(self).total_stake == old(self).total_stake
                    &&& final(self).total_unstake == old(self).total_unstake
                    &&& final(self).unstakes == old(self).unstakes
                    &&& final(self).same_parameters(old(self))
                },
                Err(error) => error == MathError::Add && old(self).spec_stake_of(*account)
                    + *amount > u128::MAX && *final(self) == *old(self),
            },
    {
        let stake = self.stake_of(account);
        match stake.checked_add(*amount) {
            Some(new_stake) => {
                proof {
                    if self.stakes.contains(*account) {
                        lemma_sum_update(
                            self.stakes.values(),
                            balance_weight(),
                            self.stakes.index_of(*account),
                            new_stake,
                        );
                    } else {
                        lemma_sum_push(self.stakes.values(), balance_weight(), new_stake);
                    }
                }
                self.stakes.insert(*account, new_stake);
                Ok(())
            },
            None => Err(MathError::Add),
        }
    }

    /// Takes `amount` from the stake of `account` and says whether nothing
    /// is left of it. An account that is left with nothing is forgotten.
    pub fn decrease_stake_of(&mut self, account: &AccountId, amount: &Balance) -> (res: Result<
        bool,
        StakeError,
    >)
        requires
            old(self).wf(),
        ensures
            final(self).wf(),
            match res {
                Ok(stake_is_zero) => {
                    &&& *amount <= old(self).spec_stake_of(*account)
                    &&& stake_is_zero == (*amount == old(self).spec_stake_of(*account))
                    &&& final(self).stakes@ == if stake_is_zero {
                        old(self).stakes@.remove(*account)
                    } else {
                        old(self).stakes@.insert(
                            *account,
                            (old(self).spec_stake_of(*account) - *amount) as Balance,
                        )
                    }
                    &&& final(self).spec_stake_of(*account) == old(self).spec_stake_of(*account)
                        - *amount
                    &&& final(self).stakes_sum() == old(self).stakes_sum() - *amount
                    &&& final(self).total_stake == old(self).total_stake
                    &&& final(self).total_unstake == old(self).total_unstake
                    &&& final(self).unstakes == old(self).unstakes
                    &&& final(self).same_parameters(old(self))
                },
                Err(error) => error == StakeError::InsufficientStake && *amount > old(
                    self,
                ).spec_stake_of(*account) && *final(self) == *old(self),
            },
    {
        let stake = self.stake_of(account);
        if *amount > stake {
            return Err(StakeError::InsufficientStake);
        }
        let new_stake = stake - *amount;
        proof {
            if self.stakes.contains(*account) {
                let at = self.stakes.index_of(*account);
                lemma_sum_bounds(self.stakes.values(), balance_weight(), at);
                lemma_sum_update(self.stakes.values(), balance_weight(), at, new_stake);
            }
        }
        if new_stake == 0 {
            self.stakes.remove(account);
        } else if *amount < stake {
            self.stakes.insert(*account, new_stake);
        } else {
            assert(self.stakes@ =~= self.stakes@.insert(*account, new_stake));
        }
        Ok(new_stake == 0)
    }

    /// Takes up to `amount` from the queue of `account`, from its newest
    /// unstake down, and says how much it took.
    pub fn decrease_unstakes_of(&mut self, account: &AccountId, amount: &Balance) -> (slashed:
        Balance)
        requires
            old(self).wf(),
        ensures
            final(self).wf(),
            slashed == slashed_total(old(self).spec_unstakes_of(*account), *amount as nat),
            final(self).spec_unstakes_of(*account) == slashed_queue(
                old(self).spec_unstakes_of(*account),
                *amount as nat,
            ),
            final(self).unstakes_view() == old(self).unstakes_with(
                *account,
                slashed_queue(old(self).spec_unstakes_of(*account), *amount as nat),
            ),
            final(self).unstakes_sum() == old(self).unstakes_sum() - slashed,
            final(self).total_unstake == old(self).total_unstake,
            final(self).same_stakes(old(self)),
            final(self).same_parameters(old(self)),
    {
        let queue_before = self.initialized_unstakes_of(account);
        let ghost queue = queue_before@;
        let (unstakes, slashed) = slash_queue(queue_before, *amount);
        proof {
            lemma_slashed_queue_total(queue, *amount as nat);
            if self.unstakes.contains(*account) {
                let at = self.unstakes.index_of(*account);
                lemma_sum_bounds(self.unstakes.values(), queue_weight(), at);
                lemma_sum_update(self.unstakes.values(), queue_weight(), at, unstakes);
            }
        }
        let ghost before = *self;
        let ghost stored = unstakes;
        if unstakes.len() > 0 {
            self.unstakes.insert(*account, unstakes);
            proof {
                assert(self.unstakes@.dom().contains(*account));
                assert(self.unstakes@[*account] == stored);
            }
        } else {
            self.unstakes.remove(account);
        }
        proof {
            before.lemma_unstakes_stored(self, *account, stored@);
        }
        slashed
    }

    /// How the stored queues read after one of them was stored or dropped.
    proof fn lemma_unstakes_stored(&self, after: &Self, account: AccountId, queue: Seq<Unstake>)
        requires
            self.wf(),
            after.wf(),
            queue.len() > 0 ==> after.unstakes@ == self.unstakes@.insert(
                account,
                after.unstakes.value_of(account),
            ) && after.unstakes.value_of(account)@ == queue,
            queue.len() == 0 ==> after.unstakes@ == self.unstakes@.remove(account),
        ensures
            after.unstakes_view() == self.unstakes_with(account, queue),
            after.spec_unstakes_of(account) == queue,
            forall|other: AccountId|
                other != account ==> #[trigger] after.spec_unstakes_of(other)
                    == self.spec_unstakes_of(other),
    {
        assert forall|other: AccountId|
            after.unstakes.contains(other) == (if other == account {
                queue.len() > 0
            } else {
                self.unstakes.contains(other)
            }) by {
            assert(after.unstakes@.dom().contains(other) == after.unstakes.contains(other));
            assert(self.unstakes@.dom().contains(other) == self.unstakes.contains(other));
        }
        assert forall|other: AccountId|
            other != account && self.unstakes.contains(other) implies after.unstakes.value_of(
            other,
        ) == self.unstakes.value_of(other) by {
            assert(self.unstakes@.dom().contains(other));
            assert(after.unstakes@[other] == self.unstakes@[other]);
        }
        assert(after.unstakes_view() =~= self.unstakes_with(account, queue));
    }

    /// The stake of `account` and the amounts of its unstakes that were
    /// initialized at `timestamp` or later.
    pub open spec fn spec_stake_and_unstakes_initialized_after(
        &self,
        account: AccountId,
        timestamp: Timestamp,
    ) -> nat {
        self.spec_stake_of(account) as nat + recent_total(
            self.spec_unstakes_of(account),
            timestamp,
        )
    }

    /// What an account counts for at `timestamp`: its stake and what it has
    /// sent to its queue since. The sum is refused where it does not fit.
    #[verifier::loop_isolation(false)]
    pub fn stake_and_unstakes_initialized_after(
        &self,
        account: &AccountId,
        timestamp: &Timestamp,
    ) -> (res: Result<Balance, MathError>)
        requires
            self.wf(),
        ensures
            match res {
                Ok(stake_and_unstakes) => stake_and_unstakes
                    == self.spec_stake_and_unstakes_initialized_after(*account, *timestamp),
                Err(error) => error == MathError::Add
                    && self.spec_stake_and_unstakes_initialized_after(*account, *timestamp)
                    > u128::MAX,
            },
    {
        let mut stake_and_unstakes = self.stake_of(account);
        let unstakes = self.initialized_unstakes_of(account);
        let ghost stake = stake_and_unstakes as nat;
        let mut index: usize = unstakes.len();
        assert(unstakes@.take(index as int) =~= unstakes@);
        while index > 0
            invariant
                index <= unstakes.len(),
                stake_and_unstakes + recent_total(unstakes@.take(index as int), *timestamp)
                    == stake + recent_total(unstakes@, *timestamp),
            decreases index,
        {
            let unstake = unstakes[index - 1];
            let ghost front = unstakes@.take(index as int);
            assert(front.last() == unstake);
            assert(front.drop_last() =~= unstakes@.take(index - 1));
            if unstake.init_time >= *timestamp {
                match stake_and_unstakes.checked_add(unstake.amount) {
                    Some(sum) => {
                        stake_and_unstakes = sum;
                    },
                    None => {
                        return Err(MathError::Add);
                    },
                }
            } else {
                return Ok(stake_and_unstakes);
            }
            index -= 1;
        }
        assert(unstakes@.take(0) =~= Seq::<Unstake>::empty());
        Ok(stake_and_unstakes)
    }

    /// What [`Self::register_unstake`] answers.
    pub open spec fn spec_register_unstake(&self, account: AccountId, amount: Balance) -> Result<
        (),
        StakeError,
    > {
        if self.spec_unstakes_of(account).len() >= self.maximal_number_of_unstakes {
            Err(StakeError::ToManyUnstakes)
        } else if self.total_unstake + amount > u128::MAX {
            Err(StakeError::MathError(MathError::Add))
        } else {
            Ok(())
        }
    }

    /// Puts an unstake of `amount`, initialized at `timestamp`, at the back
    /// of the queue of `account`.
    pub fn register_unstake(
        &mut self,
        account: &AccountId,
        amount: &Balance,
        timestamp: &Timestamp,
    ) -> (res: Result<(), StakeError>)
        requires
            old(self).wf(),
        ensures
            final(self).wf(),
            res == old(self).spec_register_unstake(*account, *amount),
            res is Err ==> *final(self) == *old(self),
            res is Ok ==> {
                &&& final(self).unstakes_view() == old(self).unstakes_view().insert(
                    *account,
                    old(self).spec_unstakes_of(*account).push(
                        Unstake { init_time: *timestamp, amount: *amount },
                    ),
                )
                &&& final(self).total_unstake == old(self).total_unstake + *amount
                &&& final(self).unstakes_sum() == old(self).unstakes_sum() + *amount
                &&& final(self).same_stakes(old(self))
                &&& final(self).same_parameters(old(self))
            },
    {
        let mut unstakes = self.initialized_unstakes_of(account);
        if unstakes.len() as u64 >= self.maximal_number_of_unstakes {
            return Err(StakeError::ToManyUnstakes);
        }
        let new_total_unstake = match self.total_unstake.checked_add(*amount) {
            Some(new_total_unstake) => new_total_unstake,
            None => {
                return Err(StakeError::MathError(MathError::Add));
            },
        };
        let unstake = Unstake { init_time: *timestamp, amount: *amount };
        proof {
            lemma_sum_push(unstakes@, unstake_weight(), unstake);
        }
        unstakes.push(unstake);
        proof {
            if self.unstakes.contains(*account) {
                let at = self.unstakes.index_of(*account);
                lemma_sum_bounds(self.unstakes.values(), queue_weight(), at);
                lemma_sum_update(self.unstakes.values(), queue_weight(), at, unstakes);
            } else {
                lemma_sum_push(self.unstakes.values(), queue_weight(), unstakes);
            }
        }
        let ghost before = *self;
        let ghost stored = unstakes;
        self.unstakes.insert(*account, unstakes);
        self.total_unstake = new_total_unstake;
        proof {
            assert(self.unstakes@.dom().contains(*account));
            assert(self.unstakes@[*account] == stored);
            before.lemma_unstakes_stored(self, *account, stored@);
        }
        Ok(())
    }

    /// What [`Self::deregister_ready_unstakes`] answers.
    pub open spec fn spec_deregister_ready_unstakes(
        &self,
        account: AccountId,
        timestamp: Timestamp,
    ) -> Result<Balance, StakeError> {
        let queue = self.spec_unstakes_of(account);
        let ready = ready_total(queue, self.unstake_period, timestamp);
        if queue.len() == 0 {
            Err(StakeError::NoInitializedUnstakes)
        } else if !is_ready(queue[0], self.unstake_period, timestamp) {
            Err(StakeError::TooEarly)
        } else if ready > u128::MAX {
            Err(StakeError::MathError(MathError::Add))
        } else if ready > self.total_unstake {
            Err(StakeError::MathError(MathError::Sub))
        } else {
            Ok(ready as Balance)
        }
    }

    /// The sum of the amounts that `account` can take out at `timestamp`,
    /// and the number of unstakes that hold them.
    #[verifier::loop_isolation(false)]
    fn scan_ready_unstakes(&self, account: &AccountId, timestamp: &Timestamp) -> (res: Result<
        (Balance, usize),
        StakeError,
    >)
        requires
            self.wf(),
        ensures
            match res {
                Ok((amount, count)) => self.spec_deregister_ready_unstakes(*account, *timestamp)
                    == Ok::<Balance, StakeError>(amount) && count == ready_count(
                    self.spec_unstakes_of(*account),
                    self.unstake_period,
                    *timestamp,
                ) && 0 < count <= self.spec_unstakes_of(*account).len(),
                Err(error) => self.spec_deregister_ready_unstakes(*account, *timestamp) == Err::<
                    Balance,
                    StakeError,
                >(error),
            },
    {
        let unstakes = match self.unstakes.get(account) {
            Some(unstakes) => unstakes,
            None => {
                return Err(StakeError::NoInitializedUnstakes);
            },
        };
        if unstakes.len() == 0 {
            return Err(StakeError::NoInitializedUnstakes);
        }
        let mut amount: Balance = 0;
        let unstake_period = self.unstake_period;
        if (*timestamp as u128) < unstakes[0].init_time as u128 + unstake_period as u128 {
            return Err(StakeError::TooEarly);
        }
        let ghost queue = unstakes@;
        let ghost count = ready_count(queue, unstake_period, *timestamp);
        proof {
            lemma_ready_count_bound(queue, unstake_period, *timestamp);
        }
        let mut index: usize = 0;
        while index < unstakes.len() && *timestamp as u128 >= unstakes[index].init_time as u128
            + unstake_period as u128
            invariant
                index <= unstakes.len(),
                forall|i: int|
                    0 <= i < index ==> is_ready(#[trigger] queue[i], unstake_period, *timestamp),
                amount == queue_total(queue.take(index as int)),
                index <= count,
            decreases unstakes.len() - index,
        {
            proof {
                assert(queue.take(index + 1) =~= queue.take(index as int).push(queue[index as int]));
                lemma_sum_push(queue.take(index as int), unstake_weight(), queue[index as int]);
                assert forall|i: int| 0 <= i < index + 1 implies is_ready(
                    #[trigger] queue[i],
                    unstake_period,
                    *timestamp,
                ) by {}
                lemma_ready_count_skip(queue, unstake_period, *timestamp, index + 1);
                lemma_sum_split(queue.take(count as int), unstake_weight(), index + 1);
                assert(queue.take(count as int).take(index + 1) =~= queue.take(index + 1));
            }
            match amount.checked_add(unstakes[index].amount) {
                Some(sum) => {
                    amount = sum;
                },
                None => {
                    return Err(StakeError::MathError(MathError::Add));
                },
            }
            index += 1;
        }
        proof {
            lemma_ready_count_skip(queue, unstake_period, *timestamp, index as int);
            assert(ready_count(queue.skip(index as int), unstake_period, *timestamp) == 0) by {
                if index < queue.len() {
                    assert(queue.skip(index as int).first() == queue[index as int]);
                }
            }
            assert(index == count);
        }
        if amount > self.total_unstake {
            return Err(StakeError::MathError(MathError::Sub));
        }
        Ok((amount, index))
    }

    /// The sum of the amounts that `account` can take out at `timestamp`.
    pub fn ready_unstakes_of(&self, account: &AccountId, timestamp: &Timestamp) -> (res: Result<
        Balance,
        StakeError,
    >)
        requires
            self.wf(),
        ensures
            res == self.spec_deregister_ready_unstakes(*account, *timestamp),
    {
        match self.scan_ready_unstakes(account, timestamp) {
            Ok((amount, _)) => Ok(amount),
            Err(error) => Err(error),
        }
    }

    /// Takes from the front of the queue of `account` every unstake that
    /// has waited for the unstake period at `timestamp`, up to the first one
    /// that has not, and gives the sum of their amounts.
    pub fn deregister_ready_unstakes(&mut self, account: &AccountId, timestamp: &Timestamp) -> (res:
        Result<Balance, StakeError>)
        requires
            old(self).wf(),
        ensures
            final(self).wf(),
            res == old(self).spec_deregister_ready_unstakes(*account, *timestamp),
            res is Err ==> *final(self) == *old(self),
            res matches Ok(amount) ==> {
                &&& final(self).unstakes_view() == old(self).unstakes_with(
                    *account,
                    pending(
                        old(self).spec_unstakes_of(*account),
                        old(self).unstake_period,
                        *timestamp,
                    ),
                )
                &&& final(self).spec_unstakes_of(*account) == pending(
                    old(self).spec_unstakes_of(*account),
                    old(self).unstake_period,
                    *timestamp,
                )
                &&& final(self).total_unstake == old(self).total_unstake - amount
                &&& final(self).unstakes_sum() == old(self).unstakes_sum() - amount
                &&& final(self).same_stakes(old(self))
                &&& final(self).same_parameters(old(self))
            },
    {
        let (amount, index) = match self.scan_ready_unstakes(account, timestamp) {
            Ok(ready) => ready,
            Err(error) => {
                return Err(error);
            },
        };
        let unstakes = self.initialized_unstakes_of(account);
        let ghost queue = unstakes@;
        let mut rest: Vec<Unstake> = Vec::new();
        let mut at: usize = index;
        while at < unstakes.len()
            invariant
                index <= at <= unstakes.len(),
                rest@ == unstakes@.subrange(index as int, at as int),
            decreases unstakes.len() - at,
        {
            rest.push(unstakes[at]);
            assert(unstakes@.subrange(index as int, at + 1) =~= unstakes@.subrange(
                index as int,
                at as int,
            ).push(unstakes@[at as int]));
            at += 1;
        }
        proof {
            assert(rest@ =~= queue.skip(index as int));
            lemma_ready_split(queue, self.unstake_period, *timestamp);
            let slot = self.unstakes.index_of(*account);
            lemma_sum_bounds(self.unstakes.values(), queue_weight(), slot);
            lemma_sum_update(self.unstakes.values(), queue_weight(), slot, rest);
        }
        let ghost before = *self;
        let ghost stored = rest;
        if index < unstakes.len() {
            self.unstakes.insert(*account, rest);
            proof {
                assert(self.unstakes@.dom().contains(*account));
                assert(self.unstakes@[*account] == stored);
            }
        } else {
            self.unstakes.remove(account);
        }
        self.total_unstake = self.total_unstake - amount;
        proof {
            before.lemma_unstakes_stored(self, *account, stored@);
        }
        Ok(amount)
    }
}

/// When each account first staked and when it last did.
pub struct StakeTimesStorage {
    pub stakes_timestamps: Table<AccountId, Timestamp>,
    pub last_stakes_timestamps: Table<AccountId, Timestamp>,
}

impl Default for StakeTimesStorage {
    fn default() -> (storage: Self)
        ensures
            storage.wf(),
            storage.stakes_timestamps@ == Map::<AccountId, Timestamp>::empty(),
            storage.last_stakes_timestamps@ == Map::<AccountId, Timestamp>::empty(),
    {
        StakeTimesStorage { stakes_timestamps: Table::new(), last_stakes_timestamps: Table::new() }
    }
}

impl StakeTimesStorage {
    pub open spec fn wf(&self) -> bool {
        self.stakes_timestamps.wf() && self.last_stakes_timestamps.wf()
    }

    /// Whether none but the accounts that have a stake in `stake` have a
    /// time at which they staked.
    pub open spec fn of_stakers_only(&self, stake: &StakeStorage) -> bool {
        &&& forall|account: AccountId| #[trigger]
            self.stakes_timestamps@.dom().contains(account) ==> stake.spec_stake_of(account) > 0
        &&& forall|account: AccountId| #[trigger]
            self.last_stakes_timestamps@.dom().contains(account) ==> stake.spec_stake_of(account)
                > 0
    }

    /// When `account` first staked, if it has a stake.
    pub open spec fn spec_stake_timestamp_of(&self, account: AccountId) -> Option<Timestamp> {
        if self.stakes_timestamps@.dom().contains(account) {
            Some(self.stakes_timestamps@[account])
        } else {
            None
        }
    }

    /// When `account` last staked, if it has a stake.
    pub open spec fn spec_last_stake_timestamp_of(&self, account: AccountId) -> Option<Timestamp> {
        if self.last_stakes_timestamps@.dom().contains(account) {
            Some(self.last_stakes_timestamps@[account])
        } else {
            None
        }
    }

    pub fn stake_timestamp_of(&self, account: &AccountId) -> (timestamp: Option<Timestamp>)
        requires
            self.wf(),
        ensures
            timestamp == self.spec_stake_timestamp_of(*account),
    {
        match self.stakes_timestamps.get(account) {
            Some(timestamp) => Some(*timestamp),
            None => None,
        }
    }

    pub fn last_stake_timestamp_of(&self, account: &AccountId) -> (timestamp: Option<Timestamp>)
        requires
            self.wf(),
        ensures
            timestamp == self.spec_last_stake_timestamp_of(*account),
    {
        match self.last_stakes_timestamps.get(account) {
            Some(timestamp) => Some(*timestamp),
            None => None,
        }
    }

    /// Finds out whether none but the accounts that have a stake in `stake`
    /// have a time at which they staked.
    pub fn is_of_stakers_only(&self, stake: &StakeStorage) -> (fits: bool)
        requires
            self.wf(),
            stake.wf(),
        ensures
            fits == self.of_stakers_only(stake),
    {
        let mut i: usize = 0;
        while i < self.stakes_timestamps.len()
            invariant
                self.wf(),
                stake.wf(),
                i <= self.stakes_timestamps.keys().len(),
                forall|j: int|
                    0 <= j < i ==> stake.spec_stake_of(#[trigger] self.stakes_timestamps.keys()[j])
                        > 0,
            decreases self.stakes_timestamps.keys().len() - i,
        {
            if stake.stake_of(self.stakes_timestamps.key_at(i)) == 0 {
                proof {
                    self.stakes_timestamps.lemma_index_of(i as int);
                    assert(self.stakes_timestamps@.dom().contains(
                        self.stakes_timestamps.keys()[i as int],
                    ));
                }
                return false;
            }
            i += 1;
        }
        proof {
            assert forall|account: AccountId| #[trigger]
                self.stakes_timestamps@.dom().contains(account) implies stake.spec_stake_of(account)
                > 0 by {
                let j = self.stakes_timestamps.index_of(account);
                assert(self.stakes_timestamps.keys()[j] == account);
            }
        }
        let mut i: usize = 0;
        while i < self.last_stakes_timestamps.len()
            invariant
                self.wf(),
                stake.wf(),
                i <= self.last_stakes_timestamps.keys().len(),
                forall|j: int|
                    0 <= j < i ==> stake.spec_stake_of(
                        #[trigger] self.last_stakes_timestamps.keys()[j],
                    ) > 0,
            decreases self.last_stakes_timestamps.keys().len() - i,
        {
            if stake.stake_of(self.last_stakes_timestamps.key_at(i)) == 0 {
                proof {
                    self.last_stakes_timestamps.lemma_index_of(i as int);
                    assert(self.last_stakes_timestamps@.dom().contains(
                        self.last_stakes_timestamps.keys()[i as int],
                    ));
                }
                return false;
            }
            i += 1;
        }
        proof {
            assert forall|account: AccountId| #[trigger]
                self.last_stakes_timestamps@.dom().contains(account) implies stake.spec_stake_of(
                account,
            ) > 0 by {
                let j = self.last_stakes_timestamps.index_of(account);
                assert(self.last_stakes_timestamps.keys()[j] == account);
            }
        }
        true
    }

    /// Notes a stake of `account` at `timestamp`: the first one is kept,
    /// the last one is replaced.
    pub fn update_stake_timestamps_of(&mut self, account: &AccountId, timestamp: &Timestamp)
        requires
            old(self).wf(),
        ensures
            final(self).wf(),
            final(self).stakes_timestamps@ == if old(self).stakes_timestamps@.dom().contains(
                *account,
            ) {
                old(self).stakes_timestamps@
            } else {
                old(self).stakes_timestamps@.insert(*account, *timestamp)
            },
            final(self).last_stakes_timestamps@ == old(self).last_stakes_timestamps@.insert(
                *account,
                *timestamp,
            ),
    {
        if self.stake_timestamp_of(account).is_none() {
            self.stakes_timestamps.insert(*account, *timestamp);
        }
        self.last_stakes_timestamps.insert(*account, *timestamp);
    }

    /// Forgets when `account` staked.
    pub fn remove_stake_timestamps_of(&mut self, account: &AccountId)
        requires
            old(self).wf(),
        ensures
            final(self).wf(),
            final(self).stakes_timestamps@ == old(self).stakes_timestamps@.remove(*account),
            final(self).last_stakes_timestamps@ == old(self).last_stakes_timestamps@.remove(
                *account,
            ),
    {
        self.stakes_timestamps.remove(account);
        self.last_stakes_timestamps.remove(account);
    }
}

/// The sum of two amounts as a counter that wraps holds it.
pub open spec fn wrapped_sum(counter: Balance, amount: Balance) -> Balance {
    if counter + amount > u128::MAX {
        (counter + amount - u128::MAX - 1) as Balance
    } else {
        (counter + amount) as Balance
    }
}

/// The counter never goes down but where it wraps.
pub proof fn lemma_counter_grows(counter: Balance, amount: Balance)
    ensures
        counter + amount <= u128::MAX ==> wrapped_sum(counter, amount) >= counter,
        counter + amount <= u128::MAX ==> wrapped_sum(counter, amount) == counter + amount,
        counter + amount > u128::MAX ==> wrapped_sum(counter, amount) < counter,
{
}

/// The sum of all that was ever staked or given as a reward.
#[derive(Debug, Default)]
pub struct StakeCounterStorage {
    pub counter_stake: Balance,
}

impl StakeCounterStorage {
    /// Adds `amount` to the counter, which wraps where the sum does not
    /// fit.
    pub fn increase_counter(&mut self, amount: &Balance)
        ensures
            final(self).counter_stake == wrapped_sum(old(self).counter_stake, *amount),
    {
        let new_counter_stake = self.counter_stake.wrapping_add(*amount);
        self.counter_stake = new_counter_stake;
    }
}

} // verus!
