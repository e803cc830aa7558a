//! The guard: a pure decision on whether a request may reach the store.

use vstd::prelude::*;
use crate::account::{AccountId, AccountView};
use crate::error::GuardError;

verus! {

/// What the guard decides. An account may never block or unblock itself, and
/// a privileged account may never be blocked; unblocking one is always
/// allowed. Nothing else is checked here.
pub open spec fn verdict(
    acting: AccountId,
    target: AccountId,
    desired_blocked: bool,
    target_account: AccountView,
) -> Result<(), GuardError> {
    if acting == target {
        Err(GuardError::SelfBlockNotAllowed)
    } else if desired_blocked && target_account.is_privileged {
        Err(GuardError::CannotBlockPrivilegedAccount)
    } else {
        Ok(())
    }
}

/// Decides whether the acting account may set the block state of the target
/// to `desired_blocked`, given the target's account view.
pub fn validate(
    acting: AccountId,
    target: AccountId,
    desired_blocked: bool,
    target_account: &AccountView,
) -> (r: Result<(), GuardError>)
    ensures
        r == verdict(acting, target, desired_blocked, *target_account),
        r == Err::<(), GuardError>(GuardError::SelfBlockNotAllowed) <==> acting == target,
        r == Err::<(), GuardError>(GuardError::CannotBlockPrivilegedAccount) <==> acting != target
            && desired_blocked && target_account.is_privileged,
        r is Ok <==> acting != target && !(desired_blocked && target_account.is_privileged),
{
    if acting == target {
        Err(GuardError::SelfBlockNotAllowed)
    } else if desired_blocked && target_account.is_privileged {
        Err(GuardError::CannotBlockPrivilegedAccount)
    } else {
        Ok(())
    }
}

} // verus!
