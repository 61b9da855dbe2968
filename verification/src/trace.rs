//! The others that the ledger and the engine call, each with the record of
//! the calls that were made to it. The record is kept for the proofs only:
//! it says what was asked and what was answered, so that a contract can
//! say both.

use vstd::prelude::*;
use crate::govern::chain::Chain;
use crate::govern::structs::Transaction;
use crate::minter::PSP22Mintable;
use crate::stake::errors::PSP22Error;
use crate::stake::errors::StakeError;
use crate::stake::transfer::StakeTransfer;
use crate::types::AccountId;
use crate::types::Balance;

verus! {

/// A call that was made, with its answer.
pub enum Call {
    /// The token ledger was asked to move `amount` from `account` in.
    TransferIn { account: AccountId, amount: Balance, answer: Result<(), StakeError> },
    /// The token ledger was asked to move `amount` out to `account`.
    TransferOut { account: AccountId, amount: Balance, answer: Result<(), StakeError> },
    /// The token ledger was asked to mint the `amount` of a reward.
    OnReward { amount: Balance, answer: Result<(), StakeError> },
    /// The token ledger was asked to burn the `amount` of a slash.
    OnSlash { amount: Balance, answer: Result<(), StakeError> },
    /// The token ledger was asked to mint `amount` for `account`.
    Mint { account: AccountId, amount: Balance, minted: Result<(), PSP22Error> },
    /// The chain was asked to pay `value` to `to`.
    Pay { to: AccountId, value: Balance, went_through: bool },
    /// The chain was asked to make the call of a proposal.
    Invoke { transaction: Transaction, went_through: bool },
}

/// What a token ledger answered to a call.
pub open spec fn token_answer(call: Call) -> Result<(), StakeError> {
    match call {
        Call::TransferIn { answer, .. } => answer,
        Call::TransferOut { answer, .. } => answer,
        Call::OnReward { answer, .. } => answer,
        Call::OnSlash { answer, .. } => answer,
        _ => Ok(()),
    }
}

/// What a token ledger answered when it was asked to mint for an account.
pub open spec fn mint_answer(call: Call) -> Result<(), PSP22Error> {
    match call {
        Call::Mint { minted, .. } => minted,
        _ => Ok(()),
    }
}

/// Whether a call to the chain went through.
pub open spec fn went_through(call: Call) -> bool {
    match call {
        Call::Pay { went_through, .. } => went_through,
        Call::Invoke { went_through, .. } => went_through,
        _ => true,
    }
}

/// Whether `calls` are the calls of `transactions`, made in their order up
/// to the first one that failed: every call but the last went through, and
/// later calls were made only where all went through.
pub open spec fn invoked_in_order(calls: Seq<Call>, transactions: Seq<Transaction>) -> bool {
    &&& calls.len() <= transactions.len()
    &&& forall|i: int|
        0 <= i < calls.len() ==> #[trigger] calls[i] == (Call::Invoke {
            transaction: transactions[i],
            went_through: went_through(calls[i]),
        })
    &&& forall|i: int| 0 <= i < calls.len() - 1 ==> went_through(#[trigger] calls[i])
    &&& calls.len() < transactions.len() ==> calls.len() > 0 && !went_through(calls.last())
}

/// Whether all of `transactions` were called and went through.
pub open spec fn all_went_through(calls: Seq<Call>, transactions: Seq<Transaction>) -> bool {
    calls.len() == transactions.len() && forall|i: int|
        0 <= i < calls.len() ==> went_through(#[trigger] calls[i])
}

/// Another party, with the record of the calls that were made to it
/// through this handle.
pub struct Traced<T> {
    inner: T,
    trace: Ghost<Seq<Call>>,
}

impl<T> Traced<T> {
    /// The calls that were made, oldest first.
    pub closed spec fn trace(&self) -> Seq<Call> {
        self.trace@
    }

    /// The party behind the handle.
    pub closed spec fn party(&self) -> T {
        self.inner
    }

    /// The call that was made last.
    pub open spec fn last_call(&self) -> Call {
        self.trace().last()
    }

    /// Whether one call was made since `before`, and that was `call`.
    pub open spec fn asked(&self, before: &Self, call: Call) -> bool {
        self.trace() == before.trace().push(call)
    }

    /// Whether no call was made since `before`.
    pub open spec fn not_asked(&self, before: &Self) -> bool {
        self.trace() == before.trace()
    }

    /// The calls that were made since `before`.
    pub open spec fn asked_since(&self, before: &Self) -> Seq<Call> {
        self.trace().skip(before.trace().len() as int)
    }

    /// Whether the calls that were made by the time of `before` were not
    /// forgotten since.
    pub open spec fn extends(&self, before: &Self) -> bool {
        self.trace() == before.trace() + self.asked_since(before)
    }

    /// A handle to `inner`, through which no call was made yet.
    pub fn new(inner: T) -> (traced: Self)
        ensures
            traced.party() == inner,
            traced.trace() == Seq::<Call>::empty(),
    {
        Traced { inner, trace: Ghost(Seq::empty()) }
    }

    /// The party behind the handle, to look at.
    pub fn inner(&self) -> (party: &T)
        ensures
            *party == self.party(),
    {
        &self.inner
    }

    /// The party behind the handle, handed out; the record is dropped.
    pub fn into_inner(self) -> (party: T)
        ensures
            party == self.party(),
    {
        self.inner
    }
}

impl<T: StakeTransfer> Traced<T> {
    /// Asks the token ledger to move `amount` tokens from `account` in.
    pub fn _transfer_in(&mut self, account: &AccountId, amount: &Balance) -> (answer: Result<
        (),
        StakeError,
    >)
        ensures
            final(self).asked(
                old(self),
                Call::TransferIn { account: *account, amount: *amount, answer },
            ),
    {
        let answer = self.inner._transfer_in(account, amount);
        self.trace = Ghost(
            self.trace@.push(Call::TransferIn { account: *account, amount: *amount, answer }),
        );
        answer
    }

    /// Asks the token ledger to move `amount` tokens out to `account`.
    pub fn _transfer_out(&mut self, account: &AccountId, amount: &Balance) -> (answer: Result<
        (),
        StakeError,
    >)
        ensures
            final(self).asked(
                old(self),
                Call::TransferOut { account: *account, amount: *amount, answer },
            ),
    {
        let answer = self.inner._transfer_out(account, amount);
        self.trace = Ghost(
            self.trace@.push(Call::TransferOut { account: *account, amount: *amount, answer }),
        );
        answer
    }

    /// Asks the token ledger to mint the `amount` of a reward.
    pub fn _on_reward(&mut self, amount: &Balance) -> (answer: Result<(), StakeError>)
        ensures
            final(self).asked(old(self), Call::OnReward { amount: *amount, answer }),
    {
        let answer = self.inner._on_reward(amount);
        self.trace = Ghost(self.trace@.push(Call::OnReward { amount: *amount, answer }));
        answer
    }

    /// Asks the token ledger to burn the `amount` of a slash.
    pub fn _on_slash(&mut self, amount: &Balance) -> (answer: Result<(), StakeError>)
        ensures
            final(self).asked(old(self), Call::OnSlash { amount: *amount, answer }),
    {
        let answer = self.inner._on_slash(amount);
        self.trace = Ghost(self.trace@.push(Call::OnSlash { amount: *amount, answer }));
        answer
    }
}

impl<T: PSP22Mintable> Traced<T> {
    /// Asks the token ledger to mint `amount` tokens for `account`.
    pub fn mint(&mut self, account: AccountId, amount: Balance) -> (minted: Result<
        (),
        PSP22Error,
    >)
        ensures
            final(self).asked(old(self), Call::Mint { account, amount, minted }),
    {
        let minted = self.inner.mint(account, amount);
        self.trace = Ghost(self.trace@.push(Call::Mint { account, amount, minted }));
        minted
    }
}

impl<T: Chain> Traced<T> {
    /// Asks the chain to pay `value` to `to`.
    pub fn transfer(&mut self, to: &AccountId, value: &Balance) -> (went_through: bool)
        ensures
            final(self).asked(old(self), Call::Pay { to: *to, value: *value, went_through }),
    {
        let went_through = self.inner.transfer(to, value);
        self.trace = Ghost(self.trace@.push(Call::Pay { to: *to, value: *value, went_through }));
        went_through
    }

    /// Asks the chain to make the call that `transaction` describes.
    pub fn invoke(&mut self, transaction: &Transaction) -> (went_through: bool)
        ensures
            final(self).asked(
                old(self),
                Call::Invoke { transaction: *transaction, went_through },
            ),
    {
        let went_through = self.inner.invoke(transaction);
        self.trace = Ghost(
            self.trace@.push(Call::Invoke { transaction: *transaction, went_through }),
        );
        went_through
    }
}

} // verus!
