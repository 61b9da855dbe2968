//! The staking ledger of the engine: what its stakers do with it.

use vstd::prelude::*;
use crate::events::Event;
use crate::govern::engine::Governor;
use crate::stake::errors::OwnableError;
use crate::stake::errors::StakeError;
use crate::stake::ledger::Staker;
use crate::stake::transfer::StakeTransfer;
use crate::trace::Call;
use crate::trace::Traced;
use crate::trace::token_answer;
use crate::types::AccountId;
use crate::types::Balance;
use crate::types::Timestamp;

verus! {

impl Governor {
    /// Whether nothing but the staking ledger differs between two engines.
    pub open spec fn same_governance(&self, other: &Self) -> bool {
        self.gov() == other.gov() && self.gov_reward() == other.gov_reward()
    }

    /// Stakes in the ledger of the engine, as [`Staker::stake`] does.
    pub fn stake<T: StakeTransfer>(
        &mut self,
        token: &mut Traced<T>,
        events: &mut Vec<Event>,
        caller: AccountId,
        amount: Balance,
        now: Timestamp,
    ) -> (res: Result<(), StakeError>)
        requires
            old(self).wf(),
        ensures
            final(self).wf(),
            final(self).same_governance(old(self)),
            amount == 0 ==> final(token).not_asked(old(token)),
            amount != 0 ==> final(token).asked(
                old(token),
                Call::TransferIn {
                    account: caller,
                    amount,
                    answer: token_answer(final(token).last_call()),
                },
            ),
            res == old(self).stakes().spec_stake(amount, token_answer(final(token).last_call())),
            res is Err ==> *final(self) == *old(self) && final(events)@ == old(events)@,
            res is Ok ==> final(self).stakes().staked(&old(self).stakes(), caller, amount, now)
                && final(events)@ == old(events)@.push(
                Event::Staked(crate::events::Staked { caller, amount }),
            ),
    {
        self.staker.stake(token, events, caller, amount, now)
    }

    /// Initializes an unstake in the ledger of the engine, as
    /// [`Staker::initialize_unstake`] does.
    pub fn initialize_unstake(
        &mut self,
        events: &mut Vec<Event>,
        caller: AccountId,
        amount: Balance,
        now: Timestamp,
    ) -> (res: Result<(), StakeError>)
        requires
            old(self).wf(),
        ensures
            final(self).wf(),
            final(self).same_governance(old(self)),
            res == old(self).stakes().spec_initialize_unstake(caller, amount),
            res is Err ==> *final(self) == *old(self) && final(events)@ == old(events)@,
            res is Ok ==> final(self).stakes().unstake_initialized(
                &old(self).stakes(),
                caller,
                amount,
                now,
            ) && final(events)@ == old(events)@.push(
                Event::InitializedUnstake(crate::events::InitializedUnstake { caller, amount }),
            ),
    {
        self.staker.initialize_unstake(events, caller, amount, now)
    }

    /// Unstakes from the ledger of the engine, as [`Staker::unstake`] does.
    pub fn unstake<T: StakeTransfer>(
        &mut self,
        token: &mut Traced<T>,
        events: &mut Vec<Event>,
        caller: AccountId,
        now: Timestamp,
    ) -> (res: Result<Balance, StakeError>)
        requires
            old(self).wf(),
        ensures
            final(self).wf(),
            final(self).same_governance(old(self)),
            match old(self).stakes().storage().spec_deregister_ready_unstakes(caller, now) {
                Err(_) => final(token).not_asked(old(token)),
                Ok(amount) => final(token).asked(
                    old(token),
                    Call::TransferOut {
                        account: caller,
                        amount,
                        answer: token_answer(final(token).last_call()),
                    },
                ),
            },
            res == old(self).stakes().spec_unstake(
                caller,
                now,
                token_answer(final(token).last_call()),
            ),
            res is Err ==> *final(self) == *old(self) && final(events)@ == old(events)@,
            res matches Ok(amount) ==> final(self).stakes().unstaked(
                &old(self).stakes(),
                caller,
                amount,
                now,
            ) && final(events)@ == old(events)@.push(
                Event::Unstaked(crate::events::Unstaked { caller }),
            ),
    {
        self.staker.unstake(token, events, caller, now)
    }

    /// Sets the unstake period of the ledger, as
    /// [`Staker::change_unstake_period`] does.
    pub fn change_unstake_period(
        &mut self,
        events: &mut Vec<Event>,
        caller: AccountId,
        unstake_period: Timestamp,
    ) -> (res: Result<(), StakeError>)
        requires
            old(self).wf(),
        ensures
            final(self).wf(),
            final(self).same_governance(old(self)),
            res == (if caller == old(self).stakes().spec_owner() {
                Ok::<(), StakeError>(())
            } else {
                Err::<(), StakeError>(StakeError::OwnableError(OwnableError::CallerIsNotOwner))
            }),
            res is Err ==> *final(self) == *old(self) && final(events)@ == old(events)@,
            res is Ok ==> final(self).stakes().storage() == (crate::stake::storage::StakeStorage {
                unstake_period,
                ..old(self).stakes().storage()
            }) && final(self).stakes().times() == old(self).stakes().times() && final(self).stakes().counter() == old(self).stakes().counter() && final(self).stakes().spec_owner()
                == old(self).stakes().spec_owner() && final(events)@ == old(events)@.push(
                Event::UnstakePeriodChanged(crate::events::UnstakePeriodChanged { unstake_period }),
            ),
    {
        self.staker.change_unstake_period(events, caller, unstake_period)
    }

    /// Sets the greatest length of a queue in the ledger, as
    /// [`Staker::change_maximal_number_of_unstakes`] does.
    pub fn change_maximal_number_of_unstakes(
        &mut self,
        events: &mut Vec<Event>,
        caller: AccountId,
        maximal_number_of_unstakes: u64,
    ) -> (res: Result<(), StakeError>)
        requires
            old(self).wf(),
        ensures
            final(self).wf(),
            final(self).same_governance(old(self)),
            res == (if caller == old(self).stakes().spec_owner() {
                Ok::<(), StakeError>(())
            } else {
                Err::<(), StakeError>(StakeError::OwnableError(OwnableError::CallerIsNotOwner))
            }),
            res is Err ==> *final(self) == *old(self) && final(events)@ == old(events)@,
            res is Ok ==> final(self).stakes().storage() == (crate::stake::storage::StakeStorage {
                maximal_number_of_unstakes,
                ..old(self).stakes().storage()
            }) && final(self).stakes().times() == old(self).stakes().times() && final(self).stakes().counter() == old(self).stakes().counter() && final(self).stakes().spec_owner()
                == old(self).stakes().spec_owner() && final(events)@ == old(events)@.push(
                Event::MaximalNumberOfUnstakesChanged(
                    crate::events::MaximalNumberOfUnstakesChanged { maximal_number_of_unstakes },
                ),
            ),
    {
        self.staker.change_maximal_number_of_unstakes(events, caller, maximal_number_of_unstakes)
    }
}

} // verus!
