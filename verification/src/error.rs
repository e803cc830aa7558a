//! The failures that a caller can see, by the layer that raises them.

use vstd::prelude::*;

verus! {

/// A request that the guard turns away before anything is stored.
#[derive(Clone, Copy, Debug, PartialEq, Eq, Structural)]
pub enum GuardError {
    /// The acting account is the target account.
    SelfBlockNotAllowed,
    /// The target holds elevated permissions and the request is to block it.
    CannotBlockPrivilegedAccount,
}

/// A change that the store refuses because it is already in effect.
#[derive(Clone, Copy, Debug, PartialEq, Eq, Structural)]
pub enum StoreError {
    /// The relationship to create exists already.
    AlreadyBlocked,
    /// The relationship to delete does not exist.
    NotBlocked,
}

/// Every failure of the service. Guard and store failures pass through
/// unchanged; nothing is retried.
#[derive(Clone, Copy, Debug, PartialEq, Eq, Structural)]
pub enum ServiceError {
    SelfBlockNotAllowed,
    CannotBlockPrivilegedAccount,
    AlreadyBlocked,
    NotBlocked,
    /// An account that the request names could not be resolved.
    AccountLookupFailed,
}

impl ServiceError {
    /// The service error that stands for a guard error.
    pub open spec fn of_guard(e: GuardError) -> ServiceError {
        match e {
            GuardError::SelfBlockNotAllowed => ServiceError::SelfBlockNotAllowed,
            GuardError::CannotBlockPrivilegedAccount => ServiceError::CannotBlockPrivilegedAccount,
        }
    }

    /// The service error that stands for a store error.
    pub open spec fn of_store(e: StoreError) -> ServiceError {
        match e {
            StoreError::AlreadyBlocked => ServiceError::AlreadyBlocked,
            StoreError::NotBlocked => ServiceError::NotBlocked,
        }
    }

    /// Passes a guard failure on under the same name.
    pub fn from_guard(e: GuardError) -> (r: ServiceError)
        ensures
            r == Self::of_guard(e),
    {
        match e {
            GuardError::SelfBlockNotAllowed => ServiceError::SelfBlockNotAllowed,
            GuardError::CannotBlockPrivilegedAccount => ServiceError::CannotBlockPrivilegedAccount,
        }
    }

    /// Passes a store failure on under the same name. This is the one place
    /// where store errors become service errors.
    pub fn from_store(e: StoreError) -> (r: ServiceError)
        ensures
            r == Self::of_store(e),
    {
        match e {
            StoreError::AlreadyBlocked => ServiceError::AlreadyBlocked,
            StoreError::NotBlocked => ServiceError::NotBlocked,
        }
    }
}

} // verus!
