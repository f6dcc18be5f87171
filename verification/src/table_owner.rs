//! An owner-only table metadata cache: buffered owners of tables over the
//! stored ones, and the owner writes they turn into.

use crate::table_meta::data_cache::{read_view, slot_writes, writes_of};
use crate::table_meta::effects::{cached_owner, decoded_owner, deserialize_owner, Op, WriteCache, WriteCacheValue};
use crate::table_meta::TableHandle;
use crate::vm_status::VMError;
use std::collections::BTreeMap;
use vstd::prelude::*;

verus! {

broadcast use {vstd::std_specs::btree::group_btree_axioms, vstd::laws_cmp::group_laws_cmp};

/// Read access to the stored table owners.
pub trait TableOwnerResolver {
    /// The stored owner metadata of `handle`, or the error reading it gives.
    /// An implementation verified here states it; of one that does not
    /// (such as one backed by the host's storage), nothing is known.
    closed spec fn owner_meta(&self, handle: TableHandle) -> Result<Option<Seq<u8>>, VMError> {
        vstd::pervasive::arbitrary()
    }

    fn get_owner(&self, handle: &TableHandle) -> (r: Result<Option<Vec<u8>>, VMError>)
        ensures
            read_view(r) == self.owner_meta(*handle),
    ;
}

/// Table owner writes to make in storage, keyed by table handle.
#[derive(Debug)]
pub struct TableOwnerChangeSet {
    pub owner: BTreeMap<TableHandle, Op<Vec<u8>>>,
}

/// Buffered owner changes over the stored owners that `remote` reads.
pub struct TableOwnerDataCache<'r, S: TableOwnerResolver> {
    remote: &'r S,
    table_owner: BTreeMap<TableHandle, WriteCache>,
}

impl<'r, S: TableOwnerResolver> TableOwnerDataCache<'r, S> {
    /// Owner slots only ever hold owners.
    pub closed spec fn wf(&self) -> bool {
        forall|h: TableHandle|
            #![trigger self.table_owner@.contains_key(h)]
            self.table_owner@.contains_key(h) ==> !(self.table_owner@[h] matches WriteCache::Updated(
                WriteCacheValue::Size(_),
            ))
    }

    /// The resolver the cache reads stored owners through.
    pub closed spec fn remote(&self) -> &'r S {
        self.remote
    }

    /// The buffered owner slots.
    pub closed spec fn owner_slots(&self) -> Map<TableHandle, WriteCache> {
        self.table_owner@
    }

    pub fn new(remote: &'r S) -> (r: Self)
        ensures
            r.wf(),
            r.remote() == remote,
            r.owner_slots() == Map::<TableHandle, WriteCache>::empty(),
    {
        TableOwnerDataCache { remote, table_owner: BTreeMap::new() }
    }

    /// The owner writes to make: each slot becomes a modification to the
    /// owner's BCS bytes, or a deletion.
    pub fn into_change_set(self) -> (r: Result<TableOwnerChangeSet, VMError>)
        ensures
            r matches Ok(cs) && slot_writes(cs.owner@, self.owner_slots()),
    {
        let owner = writes_of(&self.table_owner)?;
        Ok(TableOwnerChangeSet { owner })
    }

    pub fn set_owner(&mut self, handle: &TableHandle, owner: &u128)
        requires
            old(self).wf(),
        ensures
            final(self).wf(),
            final(self).remote() == old(self).remote(),
            final(self).owner_slots() == old(self).owner_slots().insert(
                *handle,
                WriteCache::Updated(WriteCacheValue::Owner(*owner)),
            ),
    {
        self.table_owner.insert(*handle, WriteCache::Updated(WriteCacheValue::Owner(*owner)));
    }

    pub fn del_owner(&mut self, handle: &TableHandle)
        requires
            old(self).wf(),
        ensures
            final(self).wf(),
            final(self).remote() == old(self).remote(),
            final(self).owner_slots() == old(self).owner_slots().insert(*handle, WriteCache::Deleted),
    {
        self.table_owner.insert(*handle, WriteCache::Deleted);
    }

    /// A table is registered when it has a buffered owner slot or a stored owner.
    pub fn is_registerd_table(&self, handle: &TableHandle) -> (r: Result<bool, VMError>)
        ensures
            self.owner_slots().contains_key(*handle) ==> r == Ok::<bool, VMError>(true),
            !self.owner_slots().contains_key(*handle) ==> r == match self.remote().owner_meta(*handle) {
                Err(e) => Err(e),
                Ok(v) => Ok(v is Some),
            },
    {
        if self.table_owner.contains_key(handle) {
            Ok(true)
        } else {
            let val = self.remote.get_owner(handle)?;
            match val {
                Some(_) => Ok(true),
                None => Ok(false),
            }
        }
    }

    /// The owner of `handle`: the buffered one, else the stored one (none
    /// where the stored bytes are not an address).
    pub fn get_owner(&self, handle: &TableHandle) -> (r: Result<Option<u128>, VMError>)
        requires
            self.wf(),
        ensures
            r == if self.owner_slots().contains_key(*handle) {
                Ok(cached_owner(self.owner_slots()[*handle]))
            } else {
                match self.remote().owner_meta(*handle) {
                    Err(e) => Err(e),
                    Ok(None) => Ok(None),
                    Ok(Some(blob)) => Ok(decoded_owner(blob)),
                }
            },
    {
        match self.table_owner.get(handle) {
            Some(cached) => Ok(cached.get_owner()),
            None => {
                let val = self.remote.get_owner(handle)?;
                match val {
                    Some(blob) => Ok(deserialize_owner(blob.as_slice())),
                    None => Ok(None),
                }
            },
        }
    }
}

} // verus!
