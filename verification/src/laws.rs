//! Laws of the service: what holds of every state and every request, and of
//! several toggles in a row. They are proved of [`ServiceState::result`] and
//! [`ServiceState::after`], which are what `BlockService::toggle` answers
//! and leaves behind.

use vstd::prelude::*;
use crate::account::{AccountId, BlockOutcome, BlockRelationship, BlockRequest};
use crate::directory::{consistent, resolve};
use crate::error::ServiceError;
use crate::service::ServiceState;

verus! {

/// The request of `acting` to block `target`.
pub open spec fn block(acting: AccountId, target: AccountId) -> BlockRequest {
    BlockRequest { acting_account_id: acting, target_account_id: target, desired_blocked: true }
}

/// The request of `acting` to unblock `target`.
pub open spec fn unblock(acting: AccountId, target: AccountId) -> BlockRequest {
    BlockRequest { acting_account_id: acting, target_account_id: target, desired_blocked: false }
}

/// `target` resolves in `s`, to an account that is not privileged.
pub open spec fn ordinary_target(s: ServiceState, target: AccountId) -> bool {
    resolve(s.accounts, target) matches Some(account) && !account.is_privileged
}

/// No relationship in `blocks` has an account block itself.
pub open spec fn free_of_self_blocks(blocks: Set<BlockRelationship>) -> bool {
    forall|rel: BlockRelationship| #[trigger] blocks.contains(rel) ==> rel.blocker_id != rel.target_id
}

/// The state after the toggles of `requests`, taken one after another.
pub open spec fn after_all(s: ServiceState, requests: Seq<BlockRequest>) -> ServiceState
    decreases requests.len(),
{
    if requests.len() == 0 {
        s
    } else {
        after_all(s, requests.drop_last()).after(requests.last())
    }
}

/// The answer to the toggle at place `i` of `requests`, the toggles before
/// it having been taken one after another from `s`.
pub open spec fn answer_at(s: ServiceState, requests: Seq<BlockRequest>, i: int) -> Result<
    BlockOutcome,
    ServiceError,
> {
    after_all(s, requests.take(i)).result(requests[i])
}

/// No account can block or unblock itself: such a request fails with
/// `SelfBlockNotAllowed` in every state, whether or not the account
/// resolves, and changes nothing.
pub proof fn lemma_self_request_rejected(s: ServiceState, account: AccountId, desired_blocked: bool)
    ensures
        s.result(
            BlockRequest {
                acting_account_id: account,
                target_account_id: account,
                desired_blocked,
            },
        ) == Err::<BlockOutcome, ServiceError>(ServiceError::SelfBlockNotAllowed),
        s.after(
            BlockRequest {
                acting_account_id: account,
                target_account_id: account,
                desired_blocked,
            },
        ) == s,
{
}

/// A privileged account cannot be blocked by another account: the request
/// fails with `CannotBlockPrivilegedAccount` and changes nothing.
pub proof fn lemma_privileged_target_not_blocked(
    s: ServiceState,
    acting: AccountId,
    target: AccountId,
)
    requires
        acting != target,
        resolve(s.accounts, target) matches Some(account) && account.is_privileged,
    ensures
        s.result(block(acting, target)) == Err::<BlockOutcome, ServiceError>(
            ServiceError::CannotBlockPrivilegedAccount,
        ),
        s.after(block(acting, target)) == s,
{
}

/// The guard never stands in the way of unblocking a privileged account:
/// the request goes to the store, succeeds where the relationship exists
/// and removes it, and fails with `NotBlocked` where it does not.
pub proof fn lemma_privileged_target_unblocked(
    s: ServiceState,
    acting: AccountId,
    target: AccountId,
)
    requires
        acting != target,
        resolve(s.accounts, target) matches Some(account) && account.is_privileged,
    ensures
        s.blocked(acting, target) ==> s.result(unblock(acting, target)) == Ok::<
            BlockOutcome,
            ServiceError,
        >(BlockOutcome { target_account_view: s.accounts[target], blocked: false }),
        !s.blocked(acting, target) ==> s.result(unblock(acting, target)) == Err::<
            BlockOutcome,
            ServiceError,
        >(ServiceError::NotBlocked),
        !s.after(unblock(acting, target)).blocked(acting, target),
{
}

/// Blocking is detectable when repeated: on a pair that is not blocked the
/// first request succeeds, the same request made again fails with
/// `AlreadyBlocked`, and the second changes nothing.
pub proof fn lemma_block_twice(s: ServiceState, acting: AccountId, target: AccountId)
    requires
        acting != target,
        ordinary_target(s, target),
        !s.blocked(acting, target),
    ensures
        s.result(block(acting, target)) == Ok::<BlockOutcome, ServiceError>(
            BlockOutcome { target_account_view: s.accounts[target], blocked: true },
        ),
        s.after(block(acting, target)).result(block(acting, target)) == Err::<
            BlockOutcome,
            ServiceError,
        >(ServiceError::AlreadyBlocked),
        s.after(block(acting, target)).after(block(acting, target)) == s.after(
            block(acting, target),
        ),
{
}

/// Block, then unblock: both requests succeed, the relationship does not
/// exist afterwards, and the state is the one before the two.
pub proof fn lemma_block_then_unblock(s: ServiceState, acting: AccountId, target: AccountId)
    requires
        acting != target,
        ordinary_target(s, target),
        !s.blocked(acting, target),
    ensures
        s.result(block(acting, target)) is Ok,
        s.after(block(acting, target)).result(unblock(acting, target)) is Ok,
        !s.after(block(acting, target)).after(unblock(acting, target)).blocked(acting, target),
        s.after(block(acting, target)).after(unblock(acting, target)) == s,
{
    let end = s.after(block(acting, target)).after(unblock(acting, target));
    assert(end.blocks =~= s.blocks);
}

/// Unblocking a pair that is not blocked fails with `NotBlocked` and
/// changes nothing.
pub proof fn lemma_unblock_not_blocked(s: ServiceState, acting: AccountId, target: AccountId)
    requires
        acting != target,
        resolve(s.accounts, target) is Some,
        !s.blocked(acting, target),
    ensures
        s.result(unblock(acting, target)) == Err::<BlockOutcome, ServiceError>(
            ServiceError::NotBlocked,
        ),
        s.after(unblock(acting, target)) == s,
{
}

/// The same block request made `n` times against a pair that is not
/// blocked, in whatever order the store takes them: the one that comes
/// first succeeds, every other fails with `AlreadyBlocked`, and afterwards
/// the store holds what it held before together with this one relationship.
pub proof fn lemma_racing_blocks(
    s: ServiceState,
    acting: AccountId,
    target: AccountId,
    requests: Seq<BlockRequest>,
)
    requires
        acting != target,
        ordinary_target(s, target),
        !s.blocked(acting, target),
        requests.len() >= 1,
        forall|i: int| 0 <= i < requests.len() ==> requests[i] == block(acting, target),
    ensures
        answer_at(s, requests, 0) is Ok,
        forall|i: int|
            1 <= i < requests.len() ==> #[trigger] answer_at(s, requests, i) == Err::<
                BlockOutcome,
                ServiceError,
            >(ServiceError::AlreadyBlocked),
        after_all(s, requests) == s.after(block(acting, target)),
        after_all(s, requests).blocks == s.blocks.insert(
            BlockRelationship { blocker_id: acting, target_id: target },
        ),
{
    assert(requests.take(0).len() == 0);
    assert forall|i: int| 1 <= i < requests.len() implies #[trigger] answer_at(s, requests, i)
        == Err::<BlockOutcome, ServiceError>(ServiceError::AlreadyBlocked) by {
        lemma_blocked_after_first(s, acting, target, requests.take(i));
    }
    lemma_blocked_after_first(s, acting, target, requests);
}

/// One or more equal block requests leave the state that the first of them
/// leaves.
proof fn lemma_blocked_after_first(
    s: ServiceState,
    acting: AccountId,
    target: AccountId,
    requests: Seq<BlockRequest>,
)
    requires
        acting != target,
        ordinary_target(s, target),
        !s.blocked(acting, target),
        requests.len() >= 1,
        forall|i: int| 0 <= i < requests.len() ==> requests[i] == block(acting, target),
    ensures
        after_all(s, requests) == s.after(block(acting, target)),
    decreases requests.len(),
{
    let first = s.after(block(acting, target));
    assert(requests.last() == block(acting, target));
    if requests.len() == 1 {
        assert(after_all(s, requests.drop_last()) == s);
    } else {
        lemma_blocked_after_first(s, acting, target, requests.drop_last());
        assert(first.after(block(acting, target)) == first);
    }
}

/// Each answer of a toggle, with the states and requests that give it: the
/// failures in the order in which they are looked for, and success where
/// none of them applies.
pub proof fn lemma_answer_cases(s: ServiceState, request: BlockRequest)
    ensures
        s.result(request) == Err::<BlockOutcome, ServiceError>(ServiceError::SelfBlockNotAllowed)
            <==> request.acting_account_id == request.target_account_id,
        s.result(request) == Err::<BlockOutcome, ServiceError>(ServiceError::AccountLookupFailed)
            <==> request.acting_account_id != request.target_account_id && resolve(
            s.accounts,
            request.target_account_id,
        ) is None,
        s.result(request) == Err::<BlockOutcome, ServiceError>(
            ServiceError::CannotBlockPrivilegedAccount,
        ) <==> request.acting_account_id != request.target_account_id && request.desired_blocked
            && (resolve(s.accounts, request.target_account_id) matches Some(account)
            && account.is_privileged),
        s.result(request) == Err::<BlockOutcome, ServiceError>(ServiceError::AlreadyBlocked)
            <==> request.acting_account_id != request.target_account_id && request.desired_blocked
            && ordinary_target(s, request.target_account_id) && s.blocks.contains(request.pair()),
        s.result(request) == Err::<BlockOutcome, ServiceError>(ServiceError::NotBlocked)
            <==> request.acting_account_id != request.target_account_id
            && !request.desired_blocked && resolve(s.accounts, request.target_account_id) is Some
            && !s.blocks.contains(request.pair()),
        s.result(request) is Ok <==> request.acting_account_id != request.target_account_id && (
        resolve(s.accounts, request.target_account_id) matches Some(account) && !(
        request.desired_blocked && account.is_privileged)) && s.blocks.contains(request.pair())
            != request.desired_blocked,
{
}

/// A toggle that succeeds answers with the state that was asked for and
/// with the view of the account that was asked about.
pub proof fn lemma_success_echoes_request(s: ServiceState, request: BlockRequest)
    requires
        consistent(s.accounts),
    ensures
        s.result(request) matches Ok(outcome) ==> outcome.blocked == request.desired_blocked
            && outcome.target_account_view.id == request.target_account_id,
{
}

/// A toggle that fails changes nothing.
pub proof fn lemma_failure_changes_nothing(s: ServiceState, request: BlockRequest)
    ensures
        s.result(request) is Err ==> s.after(request) == s,
{
}

/// A toggle that succeeds makes exactly one change: it adds the
/// relationship of the request, which did not exist, or removes it, which
/// did. The accounts stay as they were.
pub proof fn lemma_success_changes_one(s: ServiceState, request: BlockRequest)
    requires
        s.result(request) is Ok,
    ensures
        s.after(request).accounts == s.accounts,
        request.desired_blocked ==> !s.blocks.contains(request.pair()) && s.after(request).blocks
            == s.blocks.insert(request.pair()),
        !request.desired_blocked ==> s.blocks.contains(request.pair()) && s.after(request).blocks
            == s.blocks.remove(request.pair()),
{
}

/// No toggle makes an account block itself: a store that is free of such
/// relationships stays free of them.
pub proof fn lemma_no_self_block_arises(s: ServiceState, request: BlockRequest)
    requires
        free_of_self_blocks(s.blocks),
    ensures
        free_of_self_blocks(s.after(request).blocks),
{
}

} // verus!
