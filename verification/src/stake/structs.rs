//! The data that the staking ledger keeps for each account.

use vstd::prelude::*;
use crate::types::Balance;
use crate::types::Timestamp;

verus! {

/// An unstake of `amount` that an account initialized at `init_time`.
#[derive(Debug, Clone, Copy, PartialEq, Eq, Default)]
pub struct Unstake {
    /// When the unstake was initialized.
    pub init_time: Timestamp,
    /// The amount on its way out.
    pub amount: Balance,
}

} // verus!
