//! Account lookup: resolves an account identifier to the account's view.

use vstd::prelude::*;
use std::collections::HashMap;
use crate::account::{AccountId, AccountView};

verus! {

broadcast use vstd::std_specs::hash::group_hash_axioms;

/// The accounts that can be resolved, each under its own identifier. Its
/// view is the map from identifier to account view.
pub struct AccountDirectory {
    entries: HashMap<i32, AccountView>,
}

/// Every account is filed under its own identifier.
pub open spec fn consistent(accounts: Map<AccountId, AccountView>) -> bool {
    forall|id: AccountId| #[trigger] accounts.contains_key(id) ==> accounts[id].id == id
}

/// The view that `accounts` resolves `id` to, if it resolves it.
pub open spec fn resolve(accounts: Map<AccountId, AccountView>, id: AccountId) -> Option<
    AccountView,
> {
    if accounts.contains_key(id) {
        Some(accounts[id])
    } else {
        None
    }
}

impl View for AccountDirectory {
    type V = Map<AccountId, AccountView>;

    closed spec fn view(&self) -> Map<AccountId, AccountView> {
        Map::new(
            |id: AccountId| self.entries@.contains_key(id.0),
            |id: AccountId| self.entries@[id.0],
        )
    }
}

impl AccountDirectory {
    #[verifier::type_invariant]
    spec fn filed_by_id(self) -> bool {
        forall|k: i32| #[trigger] self.entries@.contains_key(k) ==> self.entries@[k].id.0 == k
    }

    /// A directory that resolves no account.
    pub fn new() -> (directory: Self)
        ensures
            directory@ == Map::<AccountId, AccountView>::empty(),
            consistent(directory@),
    {
        let directory = AccountDirectory { entries: HashMap::new() };
        assert(directory@ =~= Map::<AccountId, AccountView>::empty());
        directory
    }

    /// Files `account` under its identifier, in place of any view that was
    /// filed there before.
    pub fn register(&mut self, account: AccountView)
        ensures
            final(self)@ == old(self)@.insert(account.id, account),
            consistent(final(self)@),
    {
        proof {
            use_type_invariant(&*self);
        }
        let ghost before = self.entries@;
        let mut entries: HashMap<i32, AccountView> = HashMap::new();
        core::mem::swap(&mut self.entries, &mut entries);
        entries.insert(account.id.0, account);
        assert(entries@ == before.insert(account.id.0, account));
        core::mem::swap(&mut self.entries, &mut entries);
        proof {
            assert(self@ =~= old(self)@.insert(account.id, account)) by {
                assert forall|id: AccountId|
                    self@.contains_key(id) <==> old(self)@.insert(
                        account.id,
                        account,
                    ).contains_key(id) by {
                    if id.0 == account.id.0 {
                        assert(id == account.id);
                    }
                }
                assert forall|id: AccountId| self@.contains_key(id) implies self@[id] == old(
                    self,
                )@.insert(account.id, account)[id] by {
                    if id.0 == account.id.0 {
                        assert(id == account.id);
                    }
                }
            }
        }
    }

    /// The view of the account `id`, or `None` if the directory does not
    /// resolve it.
    pub fn fetch(&self, id: AccountId) -> (found: Option<AccountView>)
        ensures
            found == resolve(self@, id),
            consistent(self@),
            found matches Some(account) ==> account.id == id,
    {
        proof {
            use_type_invariant(self);
        }
        match self.entries.get(&id.0) {
            Some(account) => Some(*account),
            None => None,
        }
    }
}

} // verus!
