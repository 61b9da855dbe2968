//! What can go wrong in the governance engine.

use vstd::prelude::*;
use crate::stake::errors::MathError;
use crate::stake::errors::OwnableError;
use crate::stake::errors::PSP22Error;
use crate::stake::errors::StakeError;

verus! {

#[derive(Debug, Clone, PartialEq, Eq)]
pub enum GovernError {
    MathError(MathError),
    PSP22Error(PSP22Error),
    StakeError(StakeError),
    InnsuficientVotes,
    ProposalAlreadyExists,
    PropositionDeposit,
    NoSuchRule,
    ProposalDoesntExist,
    NotActive,
    FinalizeCondition,
    WrongStatus,
    UnderlyingTransactionReverted,
    TransferError,
    StillActive,
    RewardMultiplier,
    ZeroVotes,
    AlreadyClaimedOrSlashed,
    DidntVote,
    Voted,
    NothingToSlash,
    RuleNotAllowed,
    OwnableError(OwnableError),
    WrongParameters,
}

impl From<MathError> for GovernError {
    fn from(error: MathError) -> (res: Self) {
        GovernError::MathError(error)
    }
}

impl vstd::std_specs::convert::FromSpecImpl<MathError> for GovernError {
    open spec fn obeys_from_spec() -> bool {
        true
    }

    open spec fn from_spec(error: MathError) -> Self {
        GovernError::MathError(error)
    }
}

impl From<PSP22Error> for GovernError {
    fn from(error: PSP22Error) -> (res: Self) {
        GovernError::PSP22Error(error)
    }
}

impl vstd::std_specs::convert::FromSpecImpl<PSP22Error> for GovernError {
    open spec fn obeys_from_spec() -> bool {
        true
    }

    open spec fn from_spec(error: PSP22Error) -> Self {
        GovernError::PSP22Error(error)
    }
}

impl From<StakeError> for GovernError {
    fn from(error: StakeError) -> (res: Self) {
        GovernError::StakeError(error)
    }
}

impl vstd::std_specs::convert::FromSpecImpl<StakeError> for GovernError {
    open spec fn obeys_from_spec() -> bool {
        true
    }

    open spec fn from_spec(error: StakeError) -> Self {
        GovernError::StakeError(error)
    }
}

impl From<OwnableError> for GovernError {
    fn from(error: OwnableError) -> (res: Self) {
        GovernError::OwnableError(error)
    }
}

impl vstd::std_specs::convert::FromSpecImpl<OwnableError> for GovernError {
    open spec fn obeys_from_spec() -> bool {
        true
    }

    open spec fn from_spec(error: OwnableError) -> Self {
        GovernError::OwnableError(error)
    }
}

} // verus!
