//! The staking ledger. An account stakes tokens, sends part of its stake to
//! a queue of unstakes, and takes out what has waited there long enough. A
//! reward adds to a stake; a slash takes from a stake first and then from
//! the queue, newest unstake first.

use vstd::prelude::*;
use crate::stake::errors::MathError;
use crate::stake::errors::OwnableError;
use crate::stake::storage::StakeCounterStorage;
use crate::stake::storage::StakeStorage;
use crate::stake::storage::StakeTimesStorage;
use crate::stake::structs::Unstake;
use crate::types::AccountId;
use crate::types::Balance;
use crate::types::Key;
use crate::types::Timestamp;

pub mod parameters;
pub mod rewarding;
pub mod slashing;
pub mod staking;
pub mod unstaking;

verus! {

/// The staking ledger of one token.
pub struct Staker {
    owner: AccountId,
    stake: StakeStorage,
    stake_times: StakeTimesStorage,
    stake_counter: StakeCounterStorage,
}

impl Staker {
    /// The account that may change the parameters.
    pub closed spec fn spec_owner(&self) -> AccountId {
        self.owner
    }

    /// The stakes and the queues.
    pub closed spec fn storage(&self) -> StakeStorage {
        self.stake
    }

    /// When the accounts staked.
    pub closed spec fn times(&self) -> StakeTimesStorage {
        self.stake_times
    }

    /// The sum of all that was ever staked or given as a reward, as a
    /// counter that wraps.
    pub closed spec fn counter(&self) -> Balance {
        self.stake_counter.counter_stake
    }

    /// What holds of the ledger at all times: its tables are well formed,
    /// the total stake is the sum of the stakes of all accounts, the total
    /// unstake is the sum of the amounts in the queues of all accounts, and
    /// none but the accounts that have a stake have a time at which they
    /// staked.
    pub open spec fn wf(&self) -> bool {
        &&& self.storage().wf()
        &&& self.times().wf()
        &&& self.storage().total_stake == self.storage().stakes_sum()
        &&& self.storage().total_unstake == self.storage().unstakes_sum()
        &&& self.times().of_stakers_only(&self.storage())
    }

    /// Whether nothing but the stakes, the queues and their totals differs
    /// between two ledgers.
    pub open spec fn same_but_storage(&self, other: &Self) -> bool {
        &&& self.spec_owner() == other.spec_owner()
        &&& self.times() == other.times()
        &&& self.counter() == other.counter()
        &&& self.storage().same_parameters(&other.storage())
    }

    /// Whether two ledgers hold the same queues and the same total of them.
    pub open spec fn same_unstakes(&self, other: &Self) -> bool {
        &&& self.storage().total_unstake == other.storage().total_unstake
        &&& self.storage().unstakes == other.storage().unstakes
    }

    /// A ledger of the token `want` that holds nothing yet.
    pub fn new(
        owner: AccountId,
        want: AccountId,
        unstake_period: Timestamp,
        maximal_number_of_initialized_unstakes: u64,
    ) -> (staker: Self)
        ensures
            staker.wf(),
            staker.spec_owner() == owner,
            staker.storage().want == want,
            staker.storage().unstake_period == unstake_period,
            staker.storage().maximal_number_of_unstakes == maximal_number_of_initialized_unstakes,
            staker.storage().total_stake == 0,
            staker.storage().total_unstake == 0,
            staker.storage().stakes@ == Map::<AccountId, Balance>::empty(),
            staker.storage().unstakes@ == Map::<AccountId, Vec<Unstake>>::empty(),
            staker.times().stakes_timestamps@ == Map::<AccountId, Timestamp>::empty(),
            staker.times().last_stakes_timestamps@ == Map::<AccountId, Timestamp>::empty(),
            staker.counter() == 0,
    {
        let mut stake = StakeStorage::default();
        stake.want = want;
        stake.unstake_period = unstake_period;
        stake.maximal_number_of_unstakes = maximal_number_of_initialized_unstakes;
        Staker {
            owner,
            stake,
            stake_times: StakeTimesStorage::default(),
            stake_counter: StakeCounterStorage { counter_stake: 0 },
        }
    }

    /// The ledger that holds what the parts hold, where they make up a
    /// ledger: the totals must be the sums over the accounts, and none but
    /// the accounts that have a stake may have a time at which they staked.
    pub fn from_parts(
        owner: AccountId,
        stake: StakeStorage,
        stake_times: StakeTimesStorage,
        stake_counter: StakeCounterStorage,
    ) -> (staker: Option<Self>)
        requires
            stake.wf(),
            stake_times.wf(),
        ensures
            staker is Some == (stake.total_stake == stake.stakes_sum() && stake.total_unstake
                == stake.unstakes_sum() && stake_times.of_stakers_only(&stake)),
            staker matches Some(staker) ==> {
                &&& staker.wf()
                &&& staker.spec_owner() == owner
                &&& staker.storage() == stake
                &&& staker.times() == stake_times
                &&& staker.counter() == stake_counter.counter_stake
            },
    {
        match stake.sum_of_stakes() {
            Some(sum) => {
                if sum != stake.total_stake {
                    return None;
                }
            },
            None => {
                return None;
            },
        }
        match stake.sum_of_unstakes() {
            Some(sum) => {
                if sum != stake.total_unstake {
                    return None;
                }
            },
            None => {
                return None;
            },
        }
        if !stake_times.is_of_stakers_only(&stake) {
            return None;
        }
        Some(Staker { owner, stake, stake_times, stake_counter })
    }

    /// The parts of the ledger: its owner, its stakes and queues, the
    /// timestamps of the stakes, and the counter.
    pub fn into_parts(self) -> (parts: (
        AccountId,
        StakeStorage,
        StakeTimesStorage,
        StakeCounterStorage,
    ))
        ensures
            parts.0 == self.spec_owner(),
            parts.1 == self.storage(),
            parts.2 == self.times(),
            parts.3.counter_stake == self.counter(),
    {
        (self.owner, self.stake, self.stake_times, self.stake_counter)
    }

    pub fn owner(&self) -> (owner: AccountId)
        ensures
            owner == self.spec_owner(),
    {
        self.owner
    }

    /// Lets the owner through and nobody else.
    pub fn only_owner(&self, caller: &AccountId) -> (res: Result<(), OwnableError>)
        ensures
            res == (if *caller == self.spec_owner() {
                Ok::<(), OwnableError>(())
            } else {
                Err::<(), OwnableError>(OwnableError::CallerIsNotOwner)
            }),
    {
        if self.owner.same(caller) {
            Ok(())
        } else {
            Err(OwnableError::CallerIsNotOwner)
        }
    }

    pub fn want(&self) -> (want: AccountId)
        ensures
            want == self.storage().want,
    {
        self.stake.want
    }

    pub fn unstake_period(&self) -> (unstake_period: Timestamp)
        ensures
            unstake_period == self.storage().unstake_period,
    {
        self.stake.unstake_period
    }

    pub fn maximal_number_of_unstakes(&self) -> (maximal_number_of_unstakes: u64)
        ensures
            maximal_number_of_unstakes == self.storage().maximal_number_of_unstakes,
    {
        self.stake.maximal_number_of_unstakes
    }

    pub fn total_stake(&self) -> (total_stake: Balance)
        ensures
            total_stake == self.storage().total_stake,
    {
        self.stake.total_stake
    }

    pub fn total_unstake(&self) -> (total_unstake: Balance)
        ensures
            total_unstake == self.storage().total_unstake,
    {
        self.stake.total_unstake
    }

    pub fn stake_of(&self, account: AccountId) -> (stake: Balance)
        requires
            self.wf(),
        ensures
            stake == self.storage().spec_stake_of(account),
    {
        self.stake.stake_of(&account)
    }

    /// What `account` counts for at `timestamp`: its stake and what it has
    /// sent to its queue since.
    pub fn stake_and_unstakes_initialized_after(
        &self,
        account: AccountId,
        timestamp: Timestamp,
    ) -> (res: Result<Balance, MathError>)
        requires
            self.wf(),
        ensures
            match res {
                Ok(stake_and_unstakes) => stake_and_unstakes
                    == self.storage().spec_stake_and_unstakes_initialized_after(account, timestamp),
                Err(error) => error == MathError::Add
                    && self.storage().spec_stake_and_unstakes_initialized_after(account, timestamp)
                    > u128::MAX,
            },
    {
        self.stake.stake_and_unstakes_initialized_after(&account, &timestamp)
    }

    /// The queue of `account`, oldest unstake first.
    pub fn initialized_unstakes_of(&self, account: AccountId) -> (queue: Vec<Unstake>)
        requires
            self.wf(),
        ensures
            queue@ == self.storage().spec_unstakes_of(account),
    {
        self.stake.initialized_unstakes_of(&account)
    }

    pub fn counter_stake(&self) -> (counter: Balance)
        ensures
            counter == self.counter(),
    {
        self.stake_counter.counter_stake
    }

    /// When `account` first staked, since it last had no stake.
    pub fn stake_timestamp_of(&self, account: AccountId) -> (timestamp: Option<Timestamp>)
        requires
            self.wf(),
        ensures
            timestamp == self.times().spec_stake_timestamp_of(account),
    {
        self.stake_times.stake_timestamp_of(&account)
    }

    /// When `account` last staked, since it last had no stake.
    pub fn last_stake_timestamp_of(&self, account: AccountId) -> (timestamp: Option<Timestamp>)
        requires
            self.wf(),
        ensures
            timestamp == self.times().spec_last_stake_timestamp_of(account),
    {
        self.stake_times.last_stake_timestamp_of(&account)
    }
}

} // verus!
