//! Slashing: a stake, and then the queue from its newest unstake down,
//! lose what is burned.

use vstd::prelude::*;
use crate::events::Event;
use crate::events::Slashed;
use crate::stake::errors::StakeError;
use crate::stake::ledger::Staker;
use crate::stake::queue::slashed_queue;
use crate::stake::queue::slashed_total;
use crate::stake::transfer::StakeTransfer;
use crate::trace::Call;
use crate::trace::Traced;
use crate::trace::token_answer;
use crate::types::AccountId;
use crate::types::Balance;

verus! {

impl Staker {
    /// What a slash of `account` by `amount` takes: `amount` or, where the
    /// account holds less, all that it holds in stake and in its queue. A
    /// slash by 0 is refused, and so is one that can take nothing at all.
    pub open spec fn spec_slashable(&self, account: AccountId, amount: Balance) -> Result<
        Balance,
        StakeError,
    > {
        let stake = self.storage().spec_stake_of(account);
        let queue = self.storage().spec_unstakes_of(account);
        if amount == 0 {
            Err(StakeError::AmountIsZero)
        } else if stake >= amount {
            Ok(amount)
        } else {
            let taken = slashed_total(queue, (amount - stake) as nat);
            if stake + taken == 0 {
                Err(StakeError::StakeIsZero)
            } else {
                Ok((stake + taken) as Balance)
            }
        }
    }

    /// What a slash of `account` by `amount` answers where the token ledger
    /// answered the burning of what is taken with `burn`: the amount that
    /// is taken.
    pub open spec fn spec_slash(
        &self,
        account: AccountId,
        amount: Balance,
        burn: Result<(), StakeError>,
    ) -> Result<Balance, StakeError> {
        match self.spec_slashable(account, amount) {
            Err(error) => Err(error),
            Ok(taken) => match burn {
                Err(error) => Err(error),
                Ok(_) => Ok(taken),
            },
        }
    }

    /// Whether `self` is what `before` becomes once `account` has been
    /// slashed by `amount`: the stake bears what it can, and the queue the
    /// rest, from its newest unstake down.
    pub open spec fn slashed(&self, before: &Self, account: AccountId, amount: Balance) -> bool {
        let stake = before.storage().spec_stake_of(account);
        let queue = before.storage().spec_unstakes_of(account);
        &&& self.storage().same_parameters(&before.storage())
        &&& self.counter() == before.counter()
        &&& self.spec_owner() == before.spec_owner()
        &&& if stake >= amount {
            &&& self.storage().stakes@ == if stake == amount {
                before.storage().stakes@.remove(account)
            } else {
                before.storage().stakes@.insert(account, (stake - amount) as Balance)
            }
            &&& self.storage().total_stake == before.storage().total_stake - amount
            &&& self.same_unstakes(before)
            &&& self.times_after_decrease(before, account, stake == amount)
        } else {
            &&& self.storage().stakes@ == if stake > 0 {
                before.storage().stakes@.remove(account)
            } else {
                before.storage().stakes@
            }
            &&& self.storage().total_stake == before.storage().total_stake - stake
            &&& self.times_after_decrease(before, account, true)
            &&& self.storage().unstakes_view() == before.storage().unstakes_with(
                account,
                slashed_queue(queue, (amount - stake) as nat),
            )
            &&& self.storage().spec_unstakes_of(account) == slashed_queue(
                queue,
                (amount - stake) as nat,
            )
            &&& self.storage().total_unstake == before.storage().total_unstake - slashed_total(
                queue,
                (amount - stake) as nat,
            )
        }
    }

    /// The amount that a slash of `account` by `amount` takes.
    pub fn slashable(&self, account: &AccountId, amount: &Balance) -> (res: Result<
        Balance,
        StakeError,
    >)
        requires
            self.wf(),
        ensures
            res == self.spec_slashable(*account, *amount),
            res matches Ok(taken) ==> taken <= *amount,
    {
        if *amount == 0 {
            return Err(StakeError::AmountIsZero);
        }
        let stake = self.stake.stake_of(account);
        if stake >= *amount {
            return Ok(*amount);
        }
        let rest = *amount - stake;
        let queue = self.stake.initialized_unstakes_of(account);
        let (_, taken) = crate::stake::storage::slash_queue(queue, rest);
        if taken == 0 && stake == 0 {
            return Err(StakeError::StakeIsZero);
        }
        Ok(taken + stake)
    }

    /// Takes up to `amount` from `account` once the token ledger has
    /// answered the burning of what is taken with `burn`.
    pub fn settle_slash(
        &mut self,
        events: &mut Vec<Event>,
        account: &AccountId,
        amount: &Balance,
        burn: Result<(), StakeError>,
    ) -> (res: Result<Balance, StakeError>)
        requires
            old(self).wf(),
        ensures
            final(self).wf(),
            res == old(self).spec_slash(*account, *amount, burn),
            res is Err ==> *final(self) == *old(self) && final(events)@ == old(events)@,
            res matches Ok(taken) ==> taken <= *amount && final(self).slashed(
                old(self),
                *account,
                *amount,
            ) && final(events)@ == old(events)@.push(
                Event::Slashed(Slashed { account: *account, amount: taken }),
            ),
    {
        if let Err(error) = self.slashable(account, amount) {
            return Err(error);
        }
        if let Err(error) = burn {
            return Err(error);
        }
        let stake = self.stake.stake_of(account);
        proof {
            self.stake.lemma_stake_within_sum(*account);
        }
        if stake >= *amount {
            let stake_is_zero = self.stake.decrease_stake_of(account, amount).unwrap();
            self.stake.decrease_total_stake(amount).unwrap();
            if stake_is_zero {
                self.stake_times.remove_stake_timestamps_of(account);
            }
            events.push(Event::Slashed(Slashed { account: *account, amount: *amount }));
            Ok(*amount)
        } else {
            let rest = *amount - stake;
            if stake > 0 {
                self.stake.decrease_stake_of(account, &stake).unwrap();
                self.stake.decrease_total_stake(&stake).unwrap();
            }
            self.stake_times.remove_stake_timestamps_of(account);
            let unstake_amount_slashed = self.stake.decrease_unstakes_of(account, &rest);
            self.stake.decrease_total_unstake(&unstake_amount_slashed).unwrap();
            let slashed = unstake_amount_slashed + stake;
            events.push(Event::Slashed(Slashed { account: *account, amount: slashed }));
            Ok(slashed)
        }
    }

    /// Takes up to `amount`, which must not be 0, from `account`: from its
    /// stake as far as that goes, then from its queue, newest unstake first.
    /// An account whose stake is used up has no stake times any more. The
    /// token ledger is asked to burn what is taken. Nothing is asked where
    /// the slash is refused.
    pub fn _slash<T: StakeTransfer>(
        &mut self,
        token: &mut Traced<T>,
        events: &mut Vec<Event>,
        account: &AccountId,
        amount: &Balance,
    ) -> (res: Result<Balance, StakeError>)
        requires
            old(self).wf(),
        ensures
            final(self).wf(),
            match old(self).spec_slashable(*account, *amount) {
                Err(_) => final(token).not_asked(old(token)),
                Ok(taken) => final(token).asked(
                    old(token),
                    Call::OnSlash { amount: taken, answer: token_answer(final(token).last_call()) },
                ),
            },
            res == old(self).spec_slash(*account, *amount, token_answer(final(token).last_call())),
            res is Err ==> *final(self) == *old(self) && final(events)@ == old(events)@,
            res matches Ok(taken) ==> taken <= *amount && final(self).slashed(
                old(self),
                *account,
                *amount,
            ) && final(events)@ == old(events)@.push(
                Event::Slashed(Slashed { account: *account, amount: taken }),
            ),
    {
        let taken = match self.slashable(account, amount) {
            Ok(taken) => taken,
            Err(error) => {
                return Err(error);
            },
        };
        let burn = token._on_slash(&taken);
        self.settle_slash(events, account, amount, burn)
    }

    /// Slashes `account` by `amount`, as [`Self::_slash`] does, and gives
    /// the amount that was taken.
    pub fn slash<T: StakeTransfer>(
        &mut self,
        token: &mut Traced<T>,
        events: &mut Vec<Event>,
        account: AccountId,
        amount: Balance,
    ) -> (res: Result<Balance, StakeError>)
        requires
            old(self).wf(),
        ensures
            final(self).wf(),
            match old(self).spec_slashable(account, amount) {
                Err(_) => final(token).not_asked(old(token)),
                Ok(taken) => final(token).asked(
                    old(token),
                    Call::OnSlash { amount: taken, answer: token_answer(final(token).last_call()) },
                ),
            },
            res == old(self).spec_slash(account, amount, token_answer(final(token).last_call())),
            res is Err ==> *final(self) == *old(self) && final(events)@ == old(events)@,
            res matches Ok(taken) ==> taken <= amount && final(self).slashed(
                old(self),
                account,
                amount,
            ) && final(events)@ == old(events)@.push(
                Event::Slashed(Slashed { account, amount: taken }),
            ),
    {
        self._slash(token, events, &account, &amount)
    }
}

} // verus!
