//! The typed failures of every operation, and their mathematical view.

use vstd::prelude::*;
use vstd::string::StringExecFns;

verus! {

#[verifier::external_type_specification]
#[verifier::external_body]
pub struct ExStdError(cosmwasm_std::StdError);

/// Why an operation was refused. A refused operation never changes the state.
#[derive(Debug, PartialEq)]
pub enum ContractError {
    /// An address could not be derived, or the host reported a failure.
    Std(cosmwasm_std::StdError),
    /// The signer is not the authority the operation needs.
    Unauthorized { val: String },
    /// A rule of the ownable's own resource counter was broken.
    CustomError { val: String },
    /// The lock state, or the binding to the external token, forbids the operation.
    LockError { val: String },
    /// The external event is of a kind that is not recognised.
    MatchEventError { val: String },
    /// The event names no network, or one whose namespace is not supported.
    MatchChainIdError { val: String },
    /// A required attribute of the external event is absent or empty.
    InvalidExternalEventArgs {},
    /// The ownable does not offer the method.
    NotImplemented {},
}

/// What a [`ContractError`] says, with every text as a sequence of characters.
/// The payload of a host failure is not modelled.
pub enum Failure {
    Std,
    Unauthorized(Seq<char>),
    CustomError(Seq<char>),
    LockError(Seq<char>),
    MatchEventError(Seq<char>),
    MatchChainIdError(Seq<char>),
    InvalidExternalEventArgs,
    NotImplemented,
}

impl View for ContractError {
    type V = Failure;

    open spec fn view(&self) -> Failure {
        match self {
            ContractError::Std(_) => Failure::Std,
            ContractError::Unauthorized { val } => Failure::Unauthorized(val@),
            ContractError::CustomError { val } => Failure::CustomError(val@),
            ContractError::LockError { val } => Failure::LockError(val@),
            ContractError::MatchEventError { val } => Failure::MatchEventError(val@),
            ContractError::MatchChainIdError { val } => Failure::MatchChainIdError(val@),
            ContractError::InvalidExternalEventArgs {  } => Failure::InvalidExternalEventArgs,
            ContractError::NotImplemented {  } => Failure::NotImplemented,
        }
    }
}

/// A lock was asked for by someone who is not the owner.
pub open spec fn lock_unauthorized() -> Failure {
    Failure::Unauthorized("Unauthorized"@)
}

/// A lock was asked for while the ownable is locked.
pub open spec fn already_locked() -> Failure {
    Failure::LockError("Already locked"@)
}

/// A release was asked for while the ownable is not locked.
pub open spec fn not_locked() -> Failure {
    Failure::LockError("Not locked"@)
}

/// A transfer was asked for while the ownable is locked.
pub open spec fn transfer_locked() -> Failure {
    Failure::LockError("Unable to transfer a locked ownable"@)
}

/// A transfer was asked for by someone who is not the owner.
pub open spec fn transfer_unauthorized() -> Failure {
    Failure::Unauthorized("Unauthorized transfer attempt"@)
}

/// A consumption was asked for while the ownable is locked.
pub open spec fn eat_locked() -> Failure {
    Failure::LockError("Unable to eat cookie"@)
}

/// A consumption was asked for by someone who is not the owner.
pub open spec fn eat_unauthorized() -> Failure {
    Failure::Unauthorized("Unable to eat cookie"@)
}

/// The ownable has no resource counter.
pub open spec fn no_config() -> Failure {
    Failure::CustomError("No config found"@)
}

/// The amount falls below what is consumed already, or exceeds the capacity.
pub open spec fn invalid_consumption() -> Failure {
    Failure::CustomError("Attempt to eat more than available"@)
}

/// The token of an event is not the token of the binding.
pub open spec fn token_mismatch() -> Failure {
    Failure::LockError("nft_id mismatch"@)
}

/// The contract of an event is not the contract of the binding.
pub open spec fn contract_mismatch() -> Failure {
    Failure::LockError("locking contract mismatch"@)
}

/// The network of an event is not the network of the binding.
pub open spec fn network_mismatch() -> Failure {
    Failure::LockError("network mismatch"@)
}

/// An event names no network.
pub open spec fn no_network() -> Failure {
    Failure::MatchChainIdError("No network"@)
}

/// The namespace of an event's network is not supported.
pub open spec fn unsupported_namespace(network: Seq<char>) -> Failure {
    Failure::MatchChainIdError(network)
}

/// The kind of an event is not known.
pub open spec fn unknown_event_type(kind: Seq<char>) -> Failure {
    Failure::MatchEventError(kind)
}

/// The signer of an event is not the owner that the event names.
pub open spec fn release_unauthorized() -> Failure {
    Failure::Unauthorized("Only the owner can release an ownable"@)
}

impl ContractError {
    /// The signer is not the required authority.
    pub fn unauthorized(reason: &str) -> (e: ContractError)
        ensures
            e@ == Failure::Unauthorized(reason@),
    {
        ContractError::Unauthorized { val: String::from_str(reason) }
    }

    /// A rule of the resource counter was broken.
    pub fn custom(reason: &str) -> (e: ContractError)
        ensures
            e@ == Failure::CustomError(reason@),
    {
        ContractError::CustomError { val: String::from_str(reason) }
    }

    /// The lock state or the binding forbids the operation.
    pub fn lock(reason: &str) -> (e: ContractError)
        ensures
            e@ == Failure::LockError(reason@),
    {
        ContractError::LockError { val: String::from_str(reason) }
    }

    /// The event kind is not recognised.
    pub fn unknown_event(kind: &str) -> (e: ContractError)
        ensures
            e@ == Failure::MatchEventError(kind@),
    {
        ContractError::MatchEventError { val: String::from_str(kind) }
    }

    /// The network is missing or its namespace is not supported.
    pub fn unknown_chain(network: &str) -> (e: ContractError)
        ensures
            e@ == Failure::MatchChainIdError(network@),
    {
        ContractError::MatchChainIdError { val: String::from_str(network) }
    }
}

} // verus!
