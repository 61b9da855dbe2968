//! Rewarding: a stake grows by what is minted for it.

use vstd::prelude::*;
use crate::events::Event;
use crate::events::Rewarded;
use crate::stake::errors::MathError;
use crate::stake::errors::StakeError;
use crate::stake::ledger::Staker;
use crate::stake::storage::wrapped_sum;
use crate::stake::transfer::StakeTransfer;
use crate::trace::Call;
use crate::trace::Traced;
use crate::trace::token_answer;
use crate::types::AccountId;
use crate::types::Balance;

verus! {

impl Staker {
    /// Why a reward of `amount` is refused before anything is minted, where
    /// it is: there is no reward of 0, and none that the total stake cannot
    /// take.
    pub open spec fn spec_reward_refused(&self, amount: Balance) -> Option<StakeError> {
        if amount == 0 {
            Some(StakeError::AmountIsZero)
        } else if self.storage().total_stake + amount > u128::MAX {
            Some(StakeError::MathError(MathError::Add))
        } else {
            None
        }
    }

    /// What a reward of `amount` answers where the token ledger answered
    /// the minting with `mint`.
    pub open spec fn spec_reward(&self, amount: Balance, mint: Result<(), StakeError>) -> Result<
        (),
        StakeError,
    > {
        match self.spec_reward_refused(amount) {
            Some(error) => Err(error),
            None => match mint {
                Err(error) => Err(error),
                Ok(_) => Ok(()),
            },
        }
    }

    /// Whether `self` is what `before` becomes once `account` has got a
    /// reward of `amount`.
    pub open spec fn rewarded(&self, before: &Self, account: AccountId, amount: Balance) -> bool {
        &&& self.storage().stakes@ == before.storage().stakes@.insert(
            account,
            (before.storage().spec_stake_of(account) + amount) as Balance,
        )
        &&& self.storage().total_stake == before.storage().total_stake + amount
        &&& self.same_unstakes(before)
        &&& self.storage().same_parameters(&before.storage())
        &&& self.times() == before.times()
        &&& self.counter() == wrapped_sum(before.counter(), amount)
        &&& self.spec_owner() == before.spec_owner()
    }

    /// Why a reward of `amount` is refused before anything is minted, where
    /// it is.
    pub fn reward_refused(&self, amount: Balance) -> (refused: Option<StakeError>)
        ensures
            refused == self.spec_reward_refused(amount),
    {
        if amount == 0 {
            Some(StakeError::AmountIsZero)
        } else if self.stake.total_stake.checked_add(amount).is_none() {
            Some(StakeError::MathError(MathError::Add))
        } else {
            None
        }
    }

    /// Books a reward of `amount` for `account` once the token ledger has
    /// answered the minting with `mint`.
    pub fn settle_reward(
        &mut self,
        events: &mut Vec<Event>,
        account: AccountId,
        amount: Balance,
        mint: Result<(), StakeError>,
    ) -> (res: Result<(), StakeError>)
        requires
            old(self).wf(),
        ensures
            final(self).wf(),
            res == old(self).spec_reward(amount, mint),
            res is Err ==> *final(self) == *old(self) && final(events)@ == old(events)@,
            res is Ok ==> final(self).rewarded(old(self), account, amount) && final(events)@
                == old(events)@.push(Event::Rewarded(Rewarded { account, amount })),
    {
        if let Some(error) = self.reward_refused(amount) {
            return Err(error);
        }
        if let Err(error) = mint {
            return Err(error);
        }
        proof {
            self.stake.lemma_stake_within_sum(account);
        }
        self.stake.increase_stake_of(&account, &amount).unwrap();
        self.stake.increase_total_stake(&amount).unwrap();
        self.stake_counter.increase_counter(&amount);
        events.push(Event::Rewarded(Rewarded { account, amount }));
        Ok(())
    }

    /// Adds `amount`, which must not be 0, to the stake of `account`, to the
    /// total stake and to the counter, and asks the token ledger to mint it.
    /// Nothing is asked for a reward that is refused.
    pub fn _reward<T: StakeTransfer>(
        &mut self,
        token: &mut Traced<T>,
        events: &mut Vec<Event>,
        account: &AccountId,
        amount: &Balance,
    ) -> (res: Result<(), StakeError>)
        requires
            old(self).wf(),
        ensures
            final(self).wf(),
            old(self).spec_reward_refused(*amount) is Some ==> final(token).not_asked(old(token)),
            old(self).spec_reward_refused(*amount) is None ==> final(token).asked(
                old(token),
                Call::OnReward { amount: *amount, answer: token_answer(final(token).last_call()) },
            ),
            res == old(self).spec_reward(*amount, token_answer(final(token).last_call())),
            res is Err ==> *final(self) == *old(self) && final(events)@ == old(events)@,
            res is Ok ==> final(self).rewarded(old(self), *account, *amount) && final(events)@
                == old(events)@.push(
                Event::Rewarded(Rewarded { account: *account, amount: *amount }),
            ),
    {
        if let Some(error) = self.reward_refused(*amount) {
            return Err(error);
        }
        let mint = token._on_reward(amount);
        self.settle_reward(events, *account, *amount, mint)
    }

    /// Rewards `account` with `amount`, as [`Self::_reward`] does.
    pub fn reward<T: StakeTransfer>(
        &mut self,
        token: &mut Traced<T>,
        events: &mut Vec<Event>,
        account: AccountId,
        amount: Balance,
    ) -> (res: Result<(), StakeError>)
        requires
            old(self).wf(),
        ensures
            final(self).wf(),
            old(self).spec_reward_refused(amount) is Some ==> final(token).not_asked(old(token)),
            old(self).spec_reward_refused(amount) is None ==> final(token).asked(
                old(token),
                Call::OnReward { amount, answer: token_answer(final(token).last_call()) },
            ),
            res == old(self).spec_reward(amount, token_answer(final(token).last_call())),
            res is Err ==> *final(self) == *old(self) && final(events)@ == old(events)@,
            res is Ok ==> final(self).rewarded(old(self), account, amount) && final(events)@
                == old(events)@.push(Event::Rewarded(Rewarded { account, amount })),
    {
        self._reward(token, events, &account, &amount)
    }
}

} // verus!
