//! Staking: tokens come in and count as stake.

use vstd::prelude::*;
use crate::events::Event;
use crate::events::Staked;
use crate::stake::errors::MathError;
use crate::stake::errors::StakeError;
use crate::stake::ledger::Staker;
use crate::stake::storage::wrapped_sum;
use crate::stake::transfer::StakeTransfer;
use crate::trace::Call;
use crate::trace::Traced;
use crate::trace::token_answer;
use crate::types::AccountId;
use crate::types::Balance;
use crate::types::Timestamp;

verus! {

impl Staker {
    /// What staking `amount` answers where the token ledger answered the
    /// transfer with `transfer`.
    pub open spec fn spec_stake(&self, amount: Balance, transfer: Result<(), StakeError>) -> Result<
        (),
        StakeError,
    > {
        if amount == 0 {
            Err(StakeError::AmountIsZero)
        } else if transfer is Err {
            transfer
        } else if self.storage().total_stake + amount > u128::MAX {
            Err(StakeError::MathError(MathError::Add))
        } else {
            Ok(())
        }
    }

    /// Whether `self` is what `before` becomes once `caller` has staked
    /// `amount` at `now`.
    pub open spec fn staked(
        &self,
        before: &Self,
        caller: AccountId,
        amount: Balance,
        now: Timestamp,
    ) -> bool {
        &&& self.storage().stakes@ == before.storage().stakes@.insert(
            caller,
            (before.storage().spec_stake_of(caller) + amount) as Balance,
        )
        &&& self.storage().total_stake == before.storage().total_stake + amount
        &&& self.same_unstakes(before)
        &&& self.storage().same_parameters(&before.storage())
        &&& self.times().stakes_timestamps@ == if before.times().stakes_timestamps@.dom().contains(
            caller,
        ) {
            before.times().stakes_timestamps@
        } else {
            before.times().stakes_timestamps@.insert(caller, now)
        }
        &&& self.times().last_stakes_timestamps@
            == before.times().last_stakes_timestamps@.insert(caller, now)
        &&& self.counter() == wrapped_sum(before.counter(), amount)
        &&& self.spec_owner() == before.spec_owner()
    }

    /// Books a stake of `amount` by `caller` once the token ledger has
    /// answered the transfer with `transfer`.
    pub fn settle_stake(
        &mut self,
        events: &mut Vec<Event>,
        caller: AccountId,
        amount: Balance,
        now: Timestamp,
        transfer: Result<(), StakeError>,
    ) -> (res: Result<(), StakeError>)
        requires
            old(self).wf(),
        ensures
            final(self).wf(),
            res == old(self).spec_stake(amount, transfer),
            res is Err ==> *final(self) == *old(self) && final(events)@ == old(events)@,
            res is Ok ==> final(self).staked(old(self), caller, amount, now) && final(events)@
                == old(events)@.push(Event::Staked(Staked { caller, amount })),
    {
        if amount == 0 {
            return Err(StakeError::AmountIsZero);
        }
        if let Err(error) = transfer {
            return Err(error);
        }
        if self.stake.total_stake.checked_add(amount).is_none() {
            return Err(StakeError::MathError(MathError::Add));
        }
        proof {
            self.stake.lemma_stake_within_sum(caller);
        }
        self.stake_times.update_stake_timestamps_of(&caller, &now);
        self.stake.increase_stake_of(&caller, &amount).unwrap();
        self.stake.increase_total_stake(&amount).unwrap();
        self.stake_counter.increase_counter(&amount);
        events.push(Event::Staked(Staked { caller, amount }));
        Ok(())
    }

    /// Stakes `amount` tokens of `caller`: the token ledger is asked to move
    /// them in, the stake of `caller` and the total stake grow by `amount`,
    /// and so does the counter. The first stake of an account sets both of
    /// its timestamps, a later one only the last. Nothing is asked for a
    /// stake of nothing.
    pub fn stake<T: StakeTransfer>(
        &mut self,
        token: &mut Traced<T>,
        events: &mut Vec<Event>,
        caller: AccountId,
        amount: Balance,
        now: Timestamp,
    ) -> (res: Result<(), StakeError>)
        requires
            old(self).wf(),
        ensures
            final(self).wf(),
            amount == 0 ==> final(token).not_asked(old(token)),
            amount != 0 ==> final(token).asked(
                old(token),
                Call::TransferIn {
                    account: caller,
                    amount,
                    answer: token_answer(final(token).last_call()),
                },
            ),
            res == old(self).spec_stake(amount, token_answer(final(token).last_call())),
            res is Err ==> *final(self) == *old(self) && final(events)@ == old(events)@,
            res is Ok ==> final(self).staked(old(self), caller, amount, now) && final(events)@
                == old(events)@.push(Event::Staked(Staked { caller, amount })),
    {
        if amount == 0 {
            return Err(StakeError::AmountIsZero);
        }
        let transfer = token._transfer_in(&caller, &amount);
        self.settle_stake(events, caller, amount, now, transfer)
    }
}

} // verus!
