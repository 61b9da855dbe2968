//! Unstaking: stake goes to the queue, waits there, and leaves.

use vstd::prelude::*;
use crate::events::Event;
use crate::events::InitializedUnstake;
use crate::events::Unstaked;
use crate::stake::errors::MathError;
use crate::stake::errors::StakeError;
use crate::stake::ledger::Staker;
use crate::stake::queue::pending;
use crate::stake::structs::Unstake;
use crate::stake::transfer::StakeTransfer;
use crate::trace::Call;
use crate::trace::Traced;
use crate::trace::token_answer;
use crate::types::AccountId;
use crate::types::Balance;
use crate::types::Timestamp;

verus! {

impl Staker {
    /// What initializing an unstake of `amount` by `caller` answers.
    pub open spec fn spec_initialize_unstake(&self, caller: AccountId, amount: Balance) -> Result<
        (),
        StakeError,
    > {
        if amount == 0 {
            Err(StakeError::AmountIsZero)
        } else if amount > self.storage().spec_stake_of(caller) {
            Err(StakeError::InsufficientStake)
        } else {
            self.storage().spec_register_unstake(caller, amount)
        }
    }

    /// The timestamps of the stakes after the stake of `account` went from
    /// `stake` down by `amount`: an account that is left with no stake has
    /// none.
    pub open spec fn times_after_decrease(
        &self,
        before: &Self,
        account: AccountId,
        emptied: bool,
    ) -> bool {
        &&& self.times().stakes_timestamps@ == if emptied {
            before.times().stakes_timestamps@.remove(account)
        } else {
            before.times().stakes_timestamps@
        }
        &&& self.times().last_stakes_timestamps@ == if emptied {
            before.times().last_stakes_timestamps@.remove(account)
        } else {
            before.times().last_stakes_timestamps@
        }
    }

    /// Whether `self` is what `before` becomes once `caller` has sent
    /// `amount` of its stake to its queue at `now`.
    pub open spec fn unstake_initialized(
        &self,
        before: &Self,
        caller: AccountId,
        amount: Balance,
        now: Timestamp,
    ) -> bool {
        let stake = before.storage().spec_stake_of(caller);
        &&& self.storage().stakes@ == if stake == amount {
            before.storage().stakes@.remove(caller)
        } else {
            before.storage().stakes@.insert(caller, (stake - amount) as Balance)
        }
        &&& self.storage().total_stake == before.storage().total_stake - amount
        &&& self.storage().unstakes_view() == before.storage().unstakes_view().insert(
            caller,
            before.storage().spec_unstakes_of(caller).push(
                Unstake { init_time: now, amount },
            ),
        )
        &&& self.storage().total_unstake == before.storage().total_unstake + amount
        &&& self.storage().same_parameters(&before.storage())
        &&& self.times_after_decrease(before, caller, stake == amount)
        &&& self.counter() == before.counter()
        &&& self.spec_owner() == before.spec_owner()
    }

    /// Sends `amount` of the stake of `caller` to the back of its queue,
    /// to wait there from `now` on. An account that is left with no stake
    /// loses its timestamps.
    pub fn initialize_unstake(
        &mut self,
        events: &mut Vec<Event>,
        caller: AccountId,
        amount: Balance,
        now: Timestamp,
    ) -> (res: Result<(), StakeError>)
        requires
            old(self).wf(),
        ensures
            final(self).wf(),
            res == old(self).spec_initialize_unstake(caller, amount),
            res is Err ==> *final(self) == *old(self) && final(events)@ == old(events)@,
            res is Ok ==> final(self).unstake_initialized(old(self), caller, amount, now) && final(events)@ == old(events)@.push(
                Event::InitializedUnstake(InitializedUnstake { caller, amount }),
            ),
    {
        if amount == 0 {
            return Err(StakeError::AmountIsZero);
        }
        if amount > self.stake.stake_of(&caller) {
            return Err(StakeError::InsufficientStake);
        }
        let queue = self.stake.initialized_unstakes_of(&caller);
        if queue.len() as u64 >= self.stake.maximal_number_of_unstakes {
            return Err(StakeError::ToManyUnstakes);
        }
        if self.stake.total_unstake.checked_add(amount).is_none() {
            return Err(StakeError::MathError(MathError::Add));
        }
        proof {
            self.stake.lemma_stake_within_sum(caller);
        }
        let stake_is_zero = self.stake.decrease_stake_of(&caller, &amount).unwrap();
        self.stake.decrease_total_stake(&amount).unwrap();
        if stake_is_zero {
            self.stake_times.remove_stake_timestamps_of(&caller);
        }
        self.stake.register_unstake(&caller, &amount, &now).unwrap();
        events.push(Event::InitializedUnstake(InitializedUnstake { caller, amount }));
        Ok(())
    }
}

impl Staker {
    /// What unstaking by `caller` at `now` answers where the token ledger
    /// answered the transfer with `transfer`.
    pub open spec fn spec_unstake(
        &self,
        caller: AccountId,
        now: Timestamp,
        transfer: Result<(), StakeError>,
    ) -> Result<Balance, StakeError> {
        let ready = self.storage().spec_deregister_ready_unstakes(caller, now);
        if ready is Err {
            ready
        } else {
            match transfer {
                Err(error) => Err(error),
                Ok(()) => ready,
            }
        }
    }

    /// Whether `self` is what `before` becomes once `caller` has taken
    /// `amount` out of its queue at `now`.
    pub open spec fn unstaked(
        &self,
        before: &Self,
        caller: AccountId,
        amount: Balance,
        now: Timestamp,
    ) -> bool {
        let left = pending(
            before.storage().spec_unstakes_of(caller),
            before.storage().unstake_period,
            now,
        );
        &&& self.storage().unstakes_view() == before.storage().unstakes_with(caller, left)
        &&& self.storage().spec_unstakes_of(caller) == left
        &&& self.storage().total_unstake == before.storage().total_unstake - amount
        &&& self.storage().same_stakes(&before.storage())
        &&& self.same_but_storage(before)
    }

    /// The sum of the amounts that `caller` can take out of its queue at
    /// `now`.
    pub fn ready_to_unstake(&self, caller: AccountId, now: Timestamp) -> (res: Result<
        Balance,
        StakeError,
    >)
        requires
            self.wf(),
        ensures
            res == self.storage().spec_deregister_ready_unstakes(caller, now),
    {
        self.stake.ready_unstakes_of(&caller, &now)
    }

    /// Takes what is ready out of the queue of `caller` once the token
    /// ledger has answered the transfer with `transfer`.
    pub fn settle_unstake(
        &mut self,
        events: &mut Vec<Event>,
        caller: AccountId,
        now: Timestamp,
        transfer: Result<(), StakeError>,
    ) -> (res: Result<Balance, StakeError>)
        requires
            old(self).wf(),
        ensures
            final(self).wf(),
            res == old(self).spec_unstake(caller, now, transfer),
            res is Err ==> *final(self) == *old(self) && final(events)@ == old(events)@,
            res matches Ok(amount) ==> final(self).unstaked(old(self), caller, amount, now)
                && final(events)@ == old(events)@.push(Event::Unstaked(Unstaked { caller })),
    {
        if let Err(error) = self.stake.ready_unstakes_of(&caller, &now) {
            return Err(error);
        }
        if let Err(error) = transfer {
            return Err(error);
        }
        let amount = self.stake.deregister_ready_unstakes(&caller, &now).unwrap();
        events.push(Event::Unstaked(Unstaked { caller }));
        Ok(amount)
    }

    /// Gives `caller` the tokens of its unstakes that have waited for the
    /// unstake period at `now`: they leave the front of its queue, up to
    /// the first one that has not waited long enough, and the token ledger
    /// is asked to move them out. Nothing is asked where nothing is ready.
    pub fn unstake<T: StakeTransfer>(
        &mut self,
        token: &mut Traced<T>,
        events: &mut Vec<Event>,
        caller: AccountId,
        now: Timestamp,
    ) -> (res: Result<Balance, StakeError>)
        requires
            old(self).wf(),
        ensures
            final(self).wf(),
            match old(self).storage().spec_deregister_ready_unstakes(caller, now) {
                Err(_) => final(token).not_asked(old(token)),
                Ok(amount) => final(token).asked(
                    old(token),
                    Call::TransferOut {
                        account: caller,
                        amount,
                        answer: token_answer(final(token).last_call()),
                    },
                ),
            },
            res == old(self).spec_unstake(caller, now, token_answer(final(token).last_call())),
            res is Err ==> *final(self) == *old(self) && final(events)@ == old(events)@,
            res matches Ok(amount) ==> final(self).unstaked(old(self), caller, amount, now)
                && final(events)@ == old(events)@.push(Event::Unstaked(Unstaked { caller })),
    {
        let amount = match self.stake.ready_unstakes_of(&caller, &now) {
            Ok(amount) => amount,
            Err(error) => {
                return Err(error);
            },
        };
        let transfer = token._transfer_out(&caller, &amount);
        self.settle_unstake(events, caller, now, transfer)
    }
}

} // verus!
