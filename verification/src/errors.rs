//! Error kinds shared by every launchpad operation.

use vstd::prelude::*;

verus! {

use vstd::string::StringExecFns;

/// The tagged failure result of an operation.  Every check is made before any
/// mutation, so an operation that returns one of these leaves the storage
/// unchanged (the contracts of the operations state this explicitly).
#[derive(Clone, Debug, PartialEq, Eq)]
pub enum ContractError {
    /// Caller lacks the role the operation demands.
    Unauthorized,
    /// Unknown launch id.
    NotFound,
    /// The item already exists.
    AlreadyExists,
    /// A parameter is malformed or out of range; carries a description.
    InvalidInput(String),
    /// Insufficient balance or funds.
    InsufficientFunds,
    /// The operation is illegal in the current lifecycle state or time
    /// window; carries a description.
    InvalidState(String),
    /// A deadline has passed.
    DeadlinePassed,
    /// A deadline has not passed yet.
    DeadlineNotPassed,
    /// An amount exceeds the maximum allowed.
    AmountExceedsMax,
    /// An amount is below the minimum required.
    AmountBelowMin,
    /// A one-shot settlement latch was already tripped.
    AlreadyProcessed,
    /// An outbound payment or token call did not complete.
    TransferFailed,
    /// Arithmetic overflow (counter or ledger exhaustion).
    Overflow,
    /// A zero amount where a positive one is required.
    ZeroAmount,
    /// A zero or invalid address.
    ZeroAddress,
}

impl ContractError {
    /// Builds an `InvalidInput` error around a description.
    pub fn invalid_input(msg: &str) -> (r: Self)
        ensures
            (r matches ContractError::InvalidInput(s) && s@ == msg@),
    {
        ContractError::InvalidInput(String::from_str(msg))
    }

    /// Builds an `InvalidState` error around a description.
    pub fn invalid_state(msg: &str) -> (r: Self)
        ensures
            (r matches ContractError::InvalidState(s) && s@ == msg@),
    {
        ContractError::InvalidState(String::from_str(msg))
    }
}

/// Result alias used by every operation of the library.
pub type ContractResult<T> = Result<T, ContractError>;

} // verus!
