//! The block service: guard, then one change to the store, then the answer.
//!
//! The decisions of a toggle are three functions, one for each point at which
//! the service waits for a collaborator: [`authorize`] takes the target's account
//! view and decides which change to ask of the store, [`settle`] takes the
//! store's answer, and [`conclude`] takes the target's view as it is after
//! the change. [`BlockService`] runs them against a directory and a store
//! that it holds itself.

use vstd::prelude::*;
use crate::account::{AccountId, AccountView, BlockOutcome, BlockRelationship, BlockRequest};
use crate::directory::{resolve, AccountDirectory};
use crate::error::{ServiceError, StoreError};
use crate::guard::{validate, verdict};
use crate::store::{command_blocks, command_result, RelationshipStore, StoreCommand};

verus! {

/// The change that `request` asks for, once the guard has let it pass.
pub open spec fn command_of(request: BlockRequest) -> StoreCommand {
    if request.desired_blocked {
        StoreCommand::Create(request.pair())
    } else {
        StoreCommand::Delete(request.pair())
    }
}

/// The decision taken before anything is stored. A request on oneself is
/// turned away whatever the lookup gave; then a target that could not be
/// resolved; then what the guard refuses. What is left is the change to make.
pub open spec fn authorization(request: BlockRequest, target: Option<AccountView>) -> Result<
    StoreCommand,
    ServiceError,
> {
    if request.acting_account_id == request.target_account_id {
        Err(ServiceError::SelfBlockNotAllowed)
    } else {
        match target {
            None => Err(ServiceError::AccountLookupFailed),
            Some(account) => match verdict(
                request.acting_account_id,
                request.target_account_id,
                request.desired_blocked,
                account,
            ) {
                Err(e) => Err(ServiceError::of_guard(e)),
                Ok(()) => Ok(command_of(request)),
            },
        }
    }
}

/// The store's answer as the service reports it.
pub open spec fn settlement(stored: Result<(), StoreError>) -> Result<(), ServiceError> {
    match stored {
        Ok(()) => Ok(()),
        Err(e) => Err(ServiceError::of_store(e)),
    }
}

/// The answer to a request whose change was made, given the target's view
/// as it was resolved after the change.
pub open spec fn conclusion(request: BlockRequest, target: Option<AccountView>) -> Result<
    BlockOutcome,
    ServiceError,
> {
    match target {
        None => Err(ServiceError::AccountLookupFailed),
        Some(account) => Ok(
            BlockOutcome { target_account_view: account, blocked: request.desired_blocked },
        ),
    }
}

/// Decides, from the target's account view as the lookup gave it (`None` if
/// it could not be resolved), whether `request` may reach the store, and
/// with which change.
pub fn authorize(request: &BlockRequest, target: Option<AccountView>) -> (r: Result<
    StoreCommand,
    ServiceError,
>)
    ensures
        r == authorization(*request, target),
{
    if request.acting_account_id == request.target_account_id {
        return Err(ServiceError::SelfBlockNotAllowed);
    }
    match target {
        None => Err(ServiceError::AccountLookupFailed),
        Some(account) => match validate(
            request.acting_account_id,
            request.target_account_id,
            request.desired_blocked,
            &account,
        ) {
            Err(e) => Err(ServiceError::from_guard(e)),
            Ok(()) => {
                let rel = request.relationship();
                if request.desired_blocked {
                    Ok(StoreCommand::Create(rel))
                } else {
                    Ok(StoreCommand::Delete(rel))
                }
            },
        },
    }
}

/// Reports the store's answer: success stays success, and a store error
/// becomes the service error of the same name.
pub fn settle(stored: Result<(), StoreError>) -> (r: Result<(), ServiceError>)
    ensures
        r == settlement(stored),
{
    match stored {
        Ok(()) => Ok(()),
        Err(e) => Err(ServiceError::from_store(e)),
    }
}

/// Assembles the answer to a request whose change was made, from the
/// target's view as it was resolved after the change (`None` if it could
/// not be resolved).
pub fn conclude(request: &BlockRequest, target: Option<AccountView>) -> (r: Result<
    BlockOutcome,
    ServiceError,
>)
    ensures
        r == conclusion(*request, target),
{
    match target {
        None => Err(ServiceError::AccountLookupFailed),
        Some(account) => Ok(
            BlockOutcome { target_account_view: account, blocked: request.desired_blocked },
        ),
    }
}

/// What a service holds: the accounts it can resolve and the relationships
/// that exist.
pub ghost struct ServiceState {
    pub accounts: Map<AccountId, AccountView>,
    pub blocks: Set<BlockRelationship>,
}

impl ServiceState {
    /// What `toggle` answers in this state.
    pub open spec fn result(self, request: BlockRequest) -> Result<BlockOutcome, ServiceError> {
        let target = resolve(self.accounts, request.target_account_id);
        match authorization(request, target) {
            Err(e) => Err(e),
            Ok(command) => match settlement(command_result(self.blocks, command)) {
                Err(e) => Err(e),
                Ok(()) => conclusion(request, target),
            },
        }
    }

    /// The state after `toggle`. Only a request that passed the guard
    /// reaches the store, and a command that the store refuses changes
    /// nothing.
    pub open spec fn after(self, request: BlockRequest) -> ServiceState {
        match authorization(request, resolve(self.accounts, request.target_account_id)) {
            Err(_) => self,
            Ok(command) => ServiceState {
                accounts: self.accounts,
                blocks: command_blocks(self.blocks, command),
            },
        }
    }

    /// Whether `blocker_id` blocks `target_id` in this state.
    pub open spec fn blocked(self, blocker_id: AccountId, target_id: AccountId) -> bool {
        self.blocks.contains(BlockRelationship { blocker_id, target_id })
    }
}

/// The service, with the account directory and the relationship store that
/// it was given when it was made.
pub struct BlockService {
    accounts: AccountDirectory,
    store: RelationshipStore,
}

impl View for BlockService {
    type V = ServiceState;

    closed spec fn view(&self) -> ServiceState {
        ServiceState { accounts: self.accounts@, blocks: self.store@ }
    }
}

impl BlockService {
    /// A service over `accounts` and `store`.
    pub fn new(accounts: AccountDirectory, store: RelationshipStore) -> (service: Self)
        ensures
            service@ == (ServiceState { accounts: accounts@, blocks: store@ }),
    {
        BlockService { accounts, store }
    }

    /// Blocks or unblocks the target of `request` for its acting account.
    ///
    /// The target is resolved and the guard consulted before anything is
    /// stored, so a request that fails leaves the relationships as they
    /// were; one that succeeds has made exactly one change, and answers with
    /// the requested state and the view of the requested target.
    pub fn toggle(&mut self, request: BlockRequest) -> (r: Result<BlockOutcome, ServiceError>)
        ensures
            r == old(self)@.result(request),
            final(self)@ == old(self)@.after(request),
            r is Err ==> final(self)@ == old(self)@,
            r matches Ok(outcome) ==> outcome.blocked == request.desired_blocked
                && outcome.target_account_view.id == request.target_account_id
                && final(self)@.blocked(request.acting_account_id, request.target_account_id)
                == request.desired_blocked,
    {
        let target = self.accounts.fetch(request.target_account_id);
        let command = match authorize(&request, target) {
            Err(e) => {
                return Err(e);
            },
            Ok(command) => command,
        };
        let stored = self.store.apply(command);
        match settle(stored) {
            Err(e) => {
                assert(self@ =~= old(self)@);
                Err(e)
            },
            Ok(()) => {
                let current = self.accounts.fetch(request.target_account_id);
                conclude(&request, current)
            },
        }
    }

    /// Whether `blocker_id` blocks `target_id`.
    pub fn is_blocked(&self, blocker_id: AccountId, target_id: AccountId) -> (found: bool)
        ensures
            found == self@.blocked(blocker_id, target_id),
    {
        self.store.contains(blocker_id, target_id)
    }

    /// The number of relationships that exist, each ordered pair once.
    pub fn block_count(&self) -> (n: usize)
        ensures
            self@.blocks.finite(),
            n == self@.blocks.len(),
    {
        self.store.len()
    }
}

} // verus!
