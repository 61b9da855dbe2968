//! The token ledger that holds what is staked, as the staking ledger sees it.

use vstd::prelude::*;
use crate::stake::errors::StakeError;
use crate::types::AccountId;
use crate::types::Balance;

verus! {

/// The token ledger behind the stakes. The staking ledger asks it to move,
/// mint or burn tokens and goes by its answer; nothing is known of an answer
/// before it is given.
pub trait StakeTransfer {
    /// Moves `amount` tokens from `account` to the staking ledger.
    fn _transfer_in(&mut self, account: &AccountId, amount: &Balance) -> Result<(), StakeError>;

    /// Moves `amount` tokens from the staking ledger to `account`.
    fn _transfer_out(&mut self, account: &AccountId, amount: &Balance) -> Result<(), StakeError>;

    /// Mints the `amount` that a reward adds to the stakes.
    fn _on_reward(&mut self, amount: &Balance) -> Result<(), StakeError>;

    /// Burns the `amount` that a slash takes from the stakes.
    fn _on_slash(&mut self, amount: &Balance) -> Result<(), StakeError>;
}

} // verus!
