use account_block::account::{AccountId, AccountView, BlockRelationship, BlockRequest};
use account_block::directory::AccountDirectory;
use account_block::error::{GuardError, ServiceError, StoreError};
use account_block::guard::validate;
use account_block::store::{RelationshipStore, StoreCommand};

fn view(id: i32, is_privileged: bool) -> AccountView {
    AccountView { id: AccountId(id), is_privileged }
}

#[test]
fn guard_passes_ordinary_block() {
    assert_eq!(validate(AccountId(1), AccountId(2), true, &view(2, false)), Ok(()));
}

#[test]
fn guard_passes_ordinary_unblock() {
    assert_eq!(validate(AccountId(1), AccountId(2), false, &view(2, false)), Ok(()));
}

#[test]
fn guard_rejects_self_block() {
    assert_eq!(
        validate(AccountId(4), AccountId(4), true, &view(4, false)),
        Err(GuardError::SelfBlockNotAllowed)
    );
}

#[test]
fn guard_rejects_self_unblock() {
    assert_eq!(
        validate(AccountId(4), AccountId(4), false, &view(4, false)),
        Err(GuardError::SelfBlockNotAllowed)
    );
}

#[test]
fn guard_rejects_block_of_privileged_target() {
    assert_eq!(
        validate(AccountId(1), AccountId(9), true, &view(9, true)),
        Err(GuardError::CannotBlockPrivilegedAccount)
    );
}

#[test]
fn guard_allows_unblock_of_privileged_target() {
    assert_eq!(validate(AccountId(1), AccountId(9), false, &view(9, true)), Ok(()));
}

#[test]
fn guard_reports_self_block_before_privilege() {
    assert_eq!(
        validate(AccountId(9), AccountId(9), true, &view(9, true)),
        Err(GuardError::SelfBlockNotAllowed)
    );
}

#[test]
fn guard_ignores_negative_and_extreme_ids() {
    assert_eq!(validate(AccountId(i32::MIN), AccountId(i32::MAX), true, &view(i32::MAX, false)), Ok(()));
    assert_eq!(
        validate(AccountId(-1), AccountId(-1), true, &view(-1, false)),
        Err(GuardError::SelfBlockNotAllowed)
    );
}

#[test]
fn new_store_is_empty() {
    let store = RelationshipStore::new();
    assert_eq!(store.len(), 0);
    assert!(!store.contains(AccountId(1), AccountId(2)));
}

#[test]
fn create_inserts_the_pair() {
    let mut store = RelationshipStore::new();
    assert_eq!(store.create(AccountId(1), AccountId(2)), Ok(()));
    assert!(store.contains(AccountId(1), AccountId(2)));
    assert_eq!(store.len(), 1);
}

#[test]
fn create_is_directed() {
    let mut store = RelationshipStore::new();
    assert_eq!(store.create(AccountId(1), AccountId(2)), Ok(()));
    assert!(!store.contains(AccountId(2), AccountId(1)));
    assert_eq!(store.create(AccountId(2), AccountId(1)), Ok(()));
    assert_eq!(store.len(), 2);
}

#[test]
fn create_twice_fails_with_already_blocked() {
    let mut store = RelationshipStore::new();
    assert_eq!(store.create(AccountId(1), AccountId(2)), Ok(()));
    assert_eq!(store.create(AccountId(1), AccountId(2)), Err(StoreError::AlreadyBlocked));
    assert_eq!(store.len(), 1);
    assert!(store.contains(AccountId(1), AccountId(2)));
}

#[test]
fn delete_removes_the_pair() {
    let mut store = RelationshipStore::new();
    assert_eq!(store.create(AccountId(1), AccountId(2)), Ok(()));
    assert_eq!(store.create(AccountId(1), AccountId(3)), Ok(()));
    assert_eq!(store.create(AccountId(3), AccountId(1)), Ok(()));
    assert_eq!(store.delete(AccountId(1), AccountId(3)), Ok(()));
    assert!(store.contains(AccountId(1), AccountId(2)));
    assert!(!store.contains(AccountId(1), AccountId(3)));
    assert!(store.contains(AccountId(3), AccountId(1)));
    assert_eq!(store.len(), 2);
}

#[test]
fn delete_of_absent_pair_fails_with_not_blocked() {
    let mut store = RelationshipStore::new();
    assert_eq!(store.delete(AccountId(1), AccountId(2)), Err(StoreError::NotBlocked));
    assert_eq!(store.create(AccountId(2), AccountId(1)), Ok(()));
    assert_eq!(store.delete(AccountId(1), AccountId(2)), Err(StoreError::NotBlocked));
    assert_eq!(store.len(), 1);
}

#[test]
fn delete_twice_fails_the_second_time() {
    let mut store = RelationshipStore::new();
    assert_eq!(store.create(AccountId(1), AccountId(2)), Ok(()));
    assert_eq!(store.delete(AccountId(1), AccountId(2)), Ok(()));
    assert_eq!(store.delete(AccountId(1), AccountId(2)), Err(StoreError::NotBlocked));
    assert_eq!(store.len(), 0);
}

#[test]
fn create_after_delete_succeeds_again() {
    let mut store = RelationshipStore::new();
    assert_eq!(store.create(AccountId(1), AccountId(2)), Ok(()));
    assert_eq!(store.delete(AccountId(1), AccountId(2)), Ok(()));
    assert_eq!(store.create(AccountId(1), AccountId(2)), Ok(()));
    assert_eq!(store.len(), 1);
}

#[test]
fn apply_runs_create_and_delete() {
    let rel = BlockRelationship { blocker_id: AccountId(5), target_id: AccountId(6) };
    let mut store = RelationshipStore::new();
    assert_eq!(store.apply(StoreCommand::Delete(rel)), Err(StoreError::NotBlocked));
    assert_eq!(store.apply(StoreCommand::Create(rel)), Ok(()));
    assert!(store.contains(AccountId(5), AccountId(6)));
    assert_eq!(store.apply(StoreCommand::Create(rel)), Err(StoreError::AlreadyBlocked));
    assert_eq!(store.apply(StoreCommand::Delete(rel)), Ok(()));
    assert!(!store.contains(AccountId(5), AccountId(6)));
    assert_eq!(store.len(), 0);
}

#[test]
fn many_rows_keep_each_pair_once() {
    let mut store = RelationshipStore::new();
    for blocker in 0..10 {
        for target in 0..10 {
            if blocker != target {
                assert_eq!(store.create(AccountId(blocker), AccountId(target)), Ok(()));
            }
        }
    }
    assert_eq!(store.len(), 90);
    for blocker in 0..10 {
        for target in 0..10 {
            if blocker != target {
                assert_eq!(
                    store.create(AccountId(blocker), AccountId(target)),
                    Err(StoreError::AlreadyBlocked)
                );
            }
        }
    }
    assert_eq!(store.len(), 90);
}

#[test]
fn empty_directory_resolves_nothing() {
    let directory = AccountDirectory::new();
    assert_eq!(directory.fetch(AccountId(1)), None);
}

#[test]
fn directory_resolves_what_was_registered() {
    let mut directory = AccountDirectory::new();
    directory.register(view(1, false));
    directory.register(view(2, true));
    assert_eq!(directory.fetch(AccountId(1)), Some(view(1, false)));
    assert_eq!(directory.fetch(AccountId(2)), Some(view(2, true)));
    assert_eq!(directory.fetch(AccountId(3)), None);
}

#[test]
fn directory_keeps_the_latest_view() {
    let mut directory = AccountDirectory::new();
    directory.register(view(1, false));
    directory.register(view(1, true));
    assert_eq!(directory.fetch(AccountId(1)), Some(view(1, true)));
}

#[test]
fn request_names_its_ordered_pair() {
    let request = BlockRequest {
        acting_account_id: AccountId(3),
        target_account_id: AccountId(8),
        desired_blocked: true,
    };
    assert_eq!(
        request.relationship(),
        BlockRelationship { blocker_id: AccountId(3), target_id: AccountId(8) }
    );
}

#[test]
fn guard_errors_keep_their_names() {
    assert_eq!(
        ServiceError::from_guard(GuardError::SelfBlockNotAllowed),
        ServiceError::SelfBlockNotAllowed
    );
    assert_eq!(
        ServiceError::from_guard(GuardError::CannotBlockPrivilegedAccount),
        ServiceError::CannotBlockPrivilegedAccount
    );
}

#[test]
fn store_errors_keep_their_names() {
    assert_eq!(ServiceError::from_store(StoreError::AlreadyBlocked), ServiceError::AlreadyBlocked);
    assert_eq!(ServiceError::from_store(StoreError::NotBlocked), ServiceError::NotBlocked);
}
