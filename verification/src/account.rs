//! Accounts, requests and outcomes: the plain data that the rules speak of.

use vstd::prelude::*;

verus! {

/// Opaque unique identifier of an account.
#[derive(Clone, Copy, Debug, PartialEq, Eq, Hash, Structural)]
pub struct AccountId(pub i32);

/// What this crate reads of an account: its identifier and whether it holds
/// elevated permissions. Accounts are owned and changed elsewhere.
#[derive(Clone, Copy, Debug, PartialEq, Eq, Structural)]
pub struct AccountView {
    pub id: AccountId,
    pub is_privileged: bool,
}

/// The record "`blocker_id` blocks `target_id`". A relationship that exists
/// means blocked; one that is absent means not blocked.
#[derive(Clone, Copy, Debug, PartialEq, Eq, Hash, Structural)]
pub struct BlockRelationship {
    pub blocker_id: AccountId,
    pub target_id: AccountId,
}

/// A request by the acting account to block (`desired_blocked == true`) or
/// unblock (`false`) the target account.
#[derive(Clone, Copy, Debug, PartialEq, Eq, Structural)]
pub struct BlockRequest {
    pub acting_account_id: AccountId,
    pub target_account_id: AccountId,
    pub desired_blocked: bool,
}

/// The answer to a request that was applied: the target's current view and
/// the state that now holds.
#[derive(Clone, Copy, Debug, PartialEq, Eq, Structural)]
pub struct BlockOutcome {
    pub target_account_view: AccountView,
    pub blocked: bool,
}

impl BlockRequest {
    /// The ordered pair that the request is about.
    pub open spec fn pair(self) -> BlockRelationship {
        BlockRelationship { blocker_id: self.acting_account_id, target_id: self.target_account_id }
    }

    /// The ordered pair that the request is about.
    pub fn relationship(&self) -> (rel: BlockRelationship)
        ensures
            rel == self.pair(),
    {
        BlockRelationship { blocker_id: self.acting_account_id, target_id: self.target_account_id }
    }
}

} // verus!
