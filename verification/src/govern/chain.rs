//! The chain that the engine runs on, as far as the engine pays and calls
//! through it.

use vstd::prelude::*;
use crate::govern::structs::Transaction;
use crate::types::AccountId;
use crate::types::Balance;

verus! {

/// What the engine asks of the chain. The engine goes by the answers;
/// nothing is known of an answer before it is given.
pub trait Chain {
    /// Pays `value` to `to` and says whether the payment went through.
    fn transfer(&mut self, to: &AccountId, value: &Balance) -> bool;

    /// Makes the call that `transaction` describes and says whether it
    /// went through.
    fn invoke(&mut self, transaction: &Transaction) -> bool;
}

} // verus!
