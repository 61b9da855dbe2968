//! What can go wrong in the staking ledger.

use vstd::prelude::*;

verus! {

/// An arithmetic operation whose result does not fit.
#[derive(Debug, Clone, Copy, PartialEq, Eq)]
pub enum MathError {
    Sub,
    Add,
    Div,
    Mul,
}

/// What the token ledger answers when it refuses a transfer.
#[derive(Debug, Clone, PartialEq, Eq)]
pub enum PSP22Error {
    Custom(String),
    InsufficientBalance,
    InsufficientAllowance,
    ZeroRecipientAddress,
    ZeroSenderAddress,
    SafeTransferCheckFailed(String),
}

/// A call that the callee could not read.
#[derive(Debug, Clone, Copy, PartialEq, Eq)]
pub enum LangError {
    CouldNotReadInput,
}

/// What the owner's gate answers when it refuses a caller.
#[derive(Debug, Clone, Copy, PartialEq, Eq)]
pub enum OwnableError {
    CallerIsNotOwner,
    NewOwnerIsZero,
}

#[derive(Debug, Clone, PartialEq, Eq)]
pub enum StakeError {
    PSP22Error(PSP22Error),
    LangError(LangError),
    MathError(MathError),
    AmountIsZero,
    AmountGreaterThanStake,
    InsufficientStake,
    UnstakeNotInitialized,
    NoInitializedUnstakes,
    TooEarly,
    Unstaking,
    NothingToUnstake,
    ToManyUnstakes,
    StakeIsZero,
    OwnableError(OwnableError),
}

impl From<LangError> for StakeError {
    fn from(error: LangError) -> (res: Self) {
        StakeError::LangError(error)
    }
}

impl vstd::std_specs::convert::FromSpecImpl<LangError> for StakeError {
    open spec fn obeys_from_spec() -> bool {
        true
    }

    open spec fn from_spec(error: LangError) -> Self {
        StakeError::LangError(error)
    }
}

impl From<PSP22Error> for StakeError {
    fn from(error: PSP22Error) -> (res: Self) {
        StakeError::PSP22Error(error)
    }
}

impl vstd::std_specs::convert::FromSpecImpl<PSP22Error> for StakeError {
    open spec fn obeys_from_spec() -> bool {
        true
    }

    open spec fn from_spec(error: PSP22Error) -> Self {
        StakeError::PSP22Error(error)
    }
}

impl From<MathError> for StakeError {
    fn from(error: MathError) -> (res: Self) {
        StakeError::MathError(error)
    }
}

impl vstd::std_specs::convert::FromSpecImpl<MathError> for StakeError {
    open spec fn obeys_from_spec() -> bool {
        true
    }

    open spec fn from_spec(error: MathError) -> Self {
        StakeError::MathError(error)
    }
}

impl From<OwnableError> for StakeError {
    fn from(error: OwnableError) -> (res: Self) {
        StakeError::OwnableError(error)
    }
}

impl vstd::std_specs::convert::FromSpecImpl<OwnableError> for StakeError {
    open spec fn obeys_from_spec() -> bool {
        true
    }

    open spec fn from_spec(error: OwnableError) -> Self {
        StakeError::OwnableError(error)
    }
}

} // verus!
