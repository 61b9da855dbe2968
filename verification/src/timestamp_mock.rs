//! Where the time comes from: the chain, or a clock that its owner sets.

use vstd::prelude::*;
use crate::stake::errors::OwnableError;
use crate::types::AccountId;
use crate::types::Key;
use crate::types::Timestamp;

verus! {

/// The account that the ledger and the engine ask for the time.
#[derive(Debug, Clone, Copy, PartialEq, Eq)]
pub struct TimestampMockStorage {
    pub timestamp_provider: AccountId,
}

impl Default for TimestampMockStorage {
    fn default() -> (storage: Self)
        ensures
            storage.timestamp_provider.is_zero(),
    {
        TimestampMockStorage { timestamp_provider: AccountId::zero() }
    }
}

impl TimestampMockStorage {
    pub fn set_timestamp_provider(&mut self, account: AccountId)
        ensures
            final(self).timestamp_provider == account,
    {
        self.timestamp_provider = account;
    }

    pub fn timestamp_provider(&self) -> (account: AccountId)
        ensures
            account == self.timestamp_provider,
    {
        self.timestamp_provider
    }
}

/// A clock that gives the time of the chain or, where its owner has said
/// so, a time that its owner has set.
#[derive(Debug, Clone, Copy, PartialEq, Eq)]
pub struct BlockTimestampProvider {
    owner: AccountId,
    should_return_mock_value: bool,
    mock_timestamp: u64,
}

impl BlockTimestampProvider {
    pub closed spec fn spec_owner(&self) -> AccountId {
        self.owner
    }

    pub closed spec fn spec_should_return_mock_value(&self) -> bool {
        self.should_return_mock_value
    }

    pub closed spec fn spec_mock_timestamp(&self) -> u64 {
        self.mock_timestamp
    }

    /// What a call that only the owner may make answers.
    pub open spec fn spec_only_owner(&self, caller: AccountId) -> Result<(), OwnableError> {
        if caller == self.spec_owner() {
            Ok(())
        } else {
            Err(OwnableError::CallerIsNotOwner)
        }
    }

    pub fn new(init_should_return_mock_value: bool, owner: AccountId) -> (provider: Self)
        ensures
            provider.spec_owner() == owner,
            provider.spec_should_return_mock_value() == init_should_return_mock_value,
            provider.spec_mock_timestamp() == 0,
    {
        BlockTimestampProvider {
            owner,
            should_return_mock_value: init_should_return_mock_value,
            mock_timestamp: 0,
        }
    }

    /// The clock with the given owner, setting and time.
    pub fn from_parts(owner: AccountId, should_return_mock_value: bool, mock_timestamp: u64) -> (provider:
        Self)
        ensures
            provider.spec_owner() == owner,
            provider.spec_should_return_mock_value() == should_return_mock_value,
            provider.spec_mock_timestamp() == mock_timestamp,
    {
        BlockTimestampProvider { owner, should_return_mock_value, mock_timestamp }
    }

    /// The time: the one that was set where the clock is told to give it,
    /// else `block_timestamp`, the time of the chain.
    pub fn get_block_timestamp(&self, block_timestamp: Timestamp) -> (timestamp: u64)
        ensures
            timestamp == if self.spec_should_return_mock_value() {
                self.spec_mock_timestamp()
            } else {
                block_timestamp
            },
    {
        if self.should_return_mock_value {
            return self.mock_timestamp;
        }
        block_timestamp
    }

    pub fn set_block_timestamp(&mut self, caller: AccountId, timestamp: u64) -> (res: Result<
        (),
        OwnableError,
    >)
        ensures
            res == old(self).spec_only_owner(caller),
            res is Err ==> *final(self) == *old(self),
            res is Ok ==> final(self).spec_mock_timestamp() == timestamp && final(self).spec_owner() == old(self).spec_owner() && final(self).spec_should_return_mock_value() == old(self).spec_should_return_mock_value(),
    {
        if !self.owner.same(&caller) {
            return Err(OwnableError::CallerIsNotOwner);
        }
        self.mock_timestamp = timestamp;
        Ok(())
    }

    /// Moves the time that was set on by `delta_timestamp`, which must not
    /// take it past the greatest time there is.
    pub fn increase_block_timestamp(&mut self, caller: AccountId, delta_timestamp: u64) -> (res:
        Result<(), OwnableError>)
        requires
            caller == old(self).spec_owner() ==> old(self).spec_mock_timestamp() + delta_timestamp
                <= u64::MAX,
        ensures
            res == old(self).spec_only_owner(caller),
            res is Err ==> *final(self) == *old(self),
            res is Ok ==> final(self).spec_mock_timestamp() == old(self).spec_mock_timestamp()
                + delta_timestamp && final(self).spec_owner() == old(self).spec_owner() && final(self).spec_should_return_mock_value() == old(self).spec_should_return_mock_value(),
    {
        if !self.owner.same(&caller) {
            return Err(OwnableError::CallerIsNotOwner);
        }
        self.mock_timestamp = self.mock_timestamp + delta_timestamp;
        Ok(())
    }

    pub fn set_should_return_mock_value(
        &mut self,
        caller: AccountId,
        should_return_mock_value: bool,
    ) -> (res: Result<(), OwnableError>)
        ensures
            res == old(self).spec_only_owner(caller),
            res is Err ==> *final(self) == *old(self),
            res is Ok ==> final(self).spec_should_return_mock_value() == should_return_mock_value
                && final(self).spec_owner() == old(self).spec_owner() && final(self).spec_mock_timestamp() == old(self).spec_mock_timestamp(),
    {
        if !self.owner.same(&caller) {
            return Err(OwnableError::CallerIsNotOwner);
        }
        self.should_return_mock_value = should_return_mock_value;
        Ok(())
    }

    pub fn get_should_return_mock_value(&self) -> (should_return_mock_value: bool)
        ensures
            should_return_mock_value == self.spec_should_return_mock_value(),
    {
        self.should_return_mock_value
    }

    /// The time that was set, whether the clock gives it or not.
    pub fn mock_timestamp(&self) -> (timestamp: u64)
        ensures
            timestamp == self.spec_mock_timestamp(),
    {
        self.mock_timestamp
    }

    pub fn owner(&self) -> (owner: AccountId)
        ensures
            owner == self.spec_owner(),
    {
        self.owner
    }
}

} // verus!
