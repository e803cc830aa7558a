//! The relationship store: keyed storage of block relationships, at most one
//! per ordered pair of blocker and target.

use vstd::prelude::*;
use crate::account::{AccountId, BlockRelationship};
use crate::error::StoreError;

verus! {

/// The relationships that exist. Its view is the set of them; the rows are
/// kept so that no relationship is stored twice.
pub struct RelationshipStore {
    rows: Vec<BlockRelationship>,
}

impl View for RelationshipStore {
    type V = Set<BlockRelationship>;

    closed spec fn view(&self) -> Set<BlockRelationship> {
        self.rows@.to_set()
    }
}

/// The one change that a request asks of the store.
#[derive(Clone, Copy, Debug, PartialEq, Eq, Structural)]
pub enum StoreCommand {
    Create(BlockRelationship),
    Delete(BlockRelationship),
}

/// What `create` answers on a store that holds `blocks`.
pub open spec fn create_result(blocks: Set<BlockRelationship>, rel: BlockRelationship) -> Result<
    (),
    StoreError,
> {
    if blocks.contains(rel) {
        Err(StoreError::AlreadyBlocked)
    } else {
        Ok(())
    }
}

/// What a store that holds `blocks` holds after `create`.
pub open spec fn create_blocks(blocks: Set<BlockRelationship>, rel: BlockRelationship) -> Set<
    BlockRelationship,
> {
    blocks.insert(rel)
}

/// What `delete` answers on a store that holds `blocks`.
pub open spec fn delete_result(blocks: Set<BlockRelationship>, rel: BlockRelationship) -> Result<
    (),
    StoreError,
> {
    if blocks.contains(rel) {
        Ok(())
    } else {
        Err(StoreError::NotBlocked)
    }
}

/// What a store that holds `blocks` holds after `delete`.
pub open spec fn delete_blocks(blocks: Set<BlockRelationship>, rel: BlockRelationship) -> Set<
    BlockRelationship,
> {
    blocks.remove(rel)
}

/// What `apply` answers on a store that holds `blocks`.
pub open spec fn command_result(blocks: Set<BlockRelationship>, command: StoreCommand) -> Result<
    (),
    StoreError,
> {
    match command {
        StoreCommand::Create(rel) => create_result(blocks, rel),
        StoreCommand::Delete(rel) => delete_result(blocks, rel),
    }
}

/// What a store that holds `blocks` holds after `apply`: a command that
/// fails changes nothing.
pub open spec fn command_blocks(blocks: Set<BlockRelationship>, command: StoreCommand) -> Set<
    BlockRelationship,
> {
    if command_result(blocks, command) is Err {
        blocks
    } else {
        match command {
            StoreCommand::Create(rel) => create_blocks(blocks, rel),
            StoreCommand::Delete(rel) => delete_blocks(blocks, rel),
        }
    }
}

impl RelationshipStore {
    #[verifier::type_invariant]
    spec fn unique_rows(self) -> bool {
        self.rows@.no_duplicates()
    }

    /// A store without relationships.
    pub fn new() -> (store: Self)
        ensures
            store@ == Set::<BlockRelationship>::empty(),
    {
        let store = RelationshipStore { rows: Vec::new() };
        assert(store.rows@.to_set() =~= Set::<BlockRelationship>::empty());
        store
    }

    /// The row that holds `rel`, if there is one.
    fn position(&self, rel: BlockRelationship) -> (found: Option<usize>)
        ensures
            match found {
                Some(i) => i < self.rows@.len() && self.rows@[i as int] == rel,
                None => !self.rows@.contains(rel),
            },
    {
        let mut i: usize = 0;
        while i < self.rows.len()
            invariant
                i <= self.rows@.len(),
                forall|j: int| 0 <= j < i ==> self.rows@[j] != rel,
            decreases self.rows@.len() - i,
        {
            if self.rows[i] == rel {
                return Some(i);
            }
            i += 1;
        }
        None
    }

    /// Whether `blocker_id` blocks `target_id`.
    pub fn contains(&self, blocker_id: AccountId, target_id: AccountId) -> (found: bool)
        ensures
            found == self@.contains(BlockRelationship { blocker_id, target_id }),
    {
        self.position(BlockRelationship { blocker_id, target_id }).is_some()
    }

    /// The number of relationships. Each ordered pair counts once, since no
    /// relationship is stored twice.
    pub fn len(&self) -> (n: usize)
        ensures
            self@.finite(),
            n == self@.len(),
    {
        proof {
            use_type_invariant(self);
            self.rows@.unique_seq_to_set();
        }
        self.rows.len()
    }

    /// Records that `blocker_id` blocks `target_id`. Fails with
    /// `AlreadyBlocked`, and changes nothing, if the relationship exists.
    pub fn create(&mut self, blocker_id: AccountId, target_id: AccountId) -> (r: Result<
        (),
        StoreError,
    >)
        ensures
            r == create_result(old(self)@, BlockRelationship { blocker_id, target_id }),
            r is Ok ==> final(self)@ == create_blocks(
                old(self)@,
                BlockRelationship { blocker_id, target_id },
            ),
            r is Err ==> final(self)@ == old(self)@,
    {
        let rel = BlockRelationship { blocker_id, target_id };
        proof {
            use_type_invariant(&*self);
        }
        match self.position(rel) {
            Some(_) => Err(StoreError::AlreadyBlocked),
            None => {
                let ghost before = self.rows@;
                let mut rows: Vec<BlockRelationship> = Vec::new();
                core::mem::swap(&mut self.rows, &mut rows);
                rows.push(rel);
                core::mem::swap(&mut self.rows, &mut rows);
                proof {
                    assert(self.rows@.to_set() =~= before.to_set().insert(rel)) by {
                        assert forall|x: BlockRelationship|
                            self.rows@.to_set().contains(x) <==> before.to_set().insert(
                                rel,
                            ).contains(x) by {
                            if before.contains(x) {
                                let j = choose|j: int| 0 <= j < before.len() && before[j] == x;
                                assert(self.rows@[j] == x);
                            }
                            if x == rel {
                                assert(self.rows@[before.len() as int] == x);
                            }
                        }
                    }
                }
                Ok(())
            },
        }
    }

    /// Removes the record that `blocker_id` blocks `target_id`. Fails with
    /// `NotBlocked`, and changes nothing, if there is no such relationship.
    pub fn delete(&mut self, blocker_id: AccountId, target_id: AccountId) -> (r: Result<
        (),
        StoreError,
    >)
        ensures
            r == delete_result(old(self)@, BlockRelationship { blocker_id, target_id }),
            r is Ok ==> final(self)@ == delete_blocks(
                old(self)@,
                BlockRelationship { blocker_id, target_id },
            ),
            r is Err ==> final(self)@ == old(self)@,
    {
        let rel = BlockRelationship { blocker_id, target_id };
        proof {
            use_type_invariant(&*self);
        }
        match self.position(rel) {
            None => Err(StoreError::NotBlocked),
            Some(i) => {
                let ghost before = self.rows@;
                let mut rows: Vec<BlockRelationship> = Vec::new();
                core::mem::swap(&mut self.rows, &mut rows);
                rows.remove(i);
                proof {
                    assert(rows@ =~= before.remove(i as int));
                    assert(rows@.no_duplicates());
                }
                core::mem::swap(&mut self.rows, &mut rows);
                proof {
                    let after = self.rows@;
                    assert forall|x: BlockRelationship|
                        after.to_set().contains(x) <==> before.to_set().remove(rel).contains(
                            x,
                        ) by {
                        if after.contains(x) {
                            let j = choose|j: int| 0 <= j < after.len() && after[j] == x;
                            if j < i {
                                assert(before[j] == x);
                            } else {
                                assert(before[j + 1] == x);
                            }
                        }
                        if before.contains(x) && x != rel {
                            let j = choose|j: int| 0 <= j < before.len() && before[j] == x;
                            if j < i {
                                assert(after[j] == x);
                            } else {
                                assert(after[j - 1] == x);
                            }
                        }
                    }
                    assert(after.to_set() =~= before.to_set().remove(rel));
                }
                Ok(())
            },
        }
    }

    /// Carries out `command`: one `create` or one `delete`.
    pub fn apply(&mut self, command: StoreCommand) -> (r: Result<(), StoreError>)
        ensures
            r == command_result(old(self)@, command),
            final(self)@ == command_blocks(old(self)@, command),
    {
        match command {
            StoreCommand::Create(rel) => self.create(rel.blocker_id, rel.target_id),
            StoreCommand::Delete(rel) => self.delete(rel.blocker_id, rel.target_id),
        }
    }
}

} // verus!
