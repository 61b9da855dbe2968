//! The parameters of unstaking, which the owner sets.

use vstd::prelude::*;
use crate::events::Event;
use crate::events::MaximalNumberOfUnstakesChanged;
use crate::events::UnstakePeriodChanged;
use crate::stake::errors::OwnableError;
use crate::stake::errors::StakeError;
use crate::stake::ledger::Staker;
use crate::stake::storage::StakeStorage;
use crate::types::AccountId;
use crate::types::Timestamp;

verus! {

impl Staker {
    /// Sets the time that an unstake waits in the queue. Only the owner
    /// may.
    pub fn change_unstake_period(
        &mut self,
        events: &mut Vec<Event>,
        caller: AccountId,
        unstake_period: Timestamp,
    ) -> (res: Result<(), StakeError>)
        requires
            old(self).wf(),
        ensures
            final(self).wf(),
            res == (if caller == old(self).spec_owner() {
                Ok::<(), StakeError>(())
            } else {
                Err::<(), StakeError>(StakeError::OwnableError(OwnableError::CallerIsNotOwner))
            }),
            res is Err ==> *final(self) == *old(self) && final(events)@ == old(events)@,
            res is Ok ==> final(self).storage() == (StakeStorage {
                unstake_period,
                ..old(self).storage()
            }) && final(self).times() == old(self).times() && final(self).counter() == old(self).counter() && final(self).spec_owner() == old(self).spec_owner() && final(events)@
                == old(events)@.push(
                Event::UnstakePeriodChanged(UnstakePeriodChanged { unstake_period }),
            ),
    {
        if let Err(error) = self.only_owner(&caller) {
            return Err(StakeError::OwnableError(error));
        }
        self.stake.change_unstake_period(&unstake_period);
        events.push(Event::UnstakePeriodChanged(UnstakePeriodChanged { unstake_period }));
        Ok(())
    }

    /// Sets how many unstakes one account may have in its queue. Only the
    /// owner may.
    pub fn change_maximal_number_of_unstakes(
        &mut self,
        events: &mut Vec<Event>,
        caller: AccountId,
        maximal_number_of_unstakes: u64,
    ) -> (res: Result<(), StakeError>)
        requires
            old(self).wf(),
        ensures
            final(self).wf(),
            res == (if caller == old(self).spec_owner() {
                Ok::<(), StakeError>(())
            } else {
                Err::<(), StakeError>(StakeError::OwnableError(OwnableError::CallerIsNotOwner))
            }),
            res is Err ==> *final(self) == *old(self) && final(events)@ == old(events)@,
            res is Ok ==> final(self).storage() == (StakeStorage {
                maximal_number_of_unstakes,
                ..old(self).storage()
            }) && final(self).times() == old(self).times() && final(self).counter() == old(self).counter() && final(self).spec_owner() == old(self).spec_owner() && final(events)@
                == old(events)@.push(
                Event::MaximalNumberOfUnstakesChanged(
                    MaximalNumberOfUnstakesChanged { maximal_number_of_unstakes },
                ),
            ),
    {
        if let Err(error) = self.only_owner(&caller) {
            return Err(StakeError::OwnableError(error));
        }
        self.stake.change_maximal_number_of_unstakes(&maximal_number_of_unstakes);
        events.push(
            Event::MaximalNumberOfUnstakesChanged(
                MaximalNumberOfUnstakesChanged { maximal_number_of_unstakes },
            ),
        );
        Ok(())
    }
}

} // verus!
