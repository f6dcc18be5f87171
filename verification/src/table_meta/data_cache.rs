//! `TableMetaDataCache` buffers changes to table owners and sizes over the
//! stored metadata, reads through to storage where nothing is buffered, and
//! turns the buffer into a change set.

use super::effects::{
    cached_owner, cached_size, decoded_owner, decoded_size, deserialize_owner, deserialize_size,
    op_view, serialize_op, serialized_op, slot_effect, Op, WriteCache, WriteCacheValue,
};
use crate::key_order::{entries_in_order, entries_of, is_key_order, key_order, lemma_entries_in_order_facts};
use super::{TableHandle, TableMetaType};
use crate::vm_status::VMError;
use std::collections::BTreeMap;
use vstd::prelude::*;

verus! {

broadcast use {vstd::std_specs::btree::group_btree_axioms, vstd::laws_cmp::group_laws_cmp};

/// The plain content of a storage read.
pub open spec fn read_view(r: Result<Option<Vec<u8>>, VMError>) -> Result<Option<Seq<u8>>, VMError> {
    match r {
        Ok(Some(v)) => Ok(Some(v@)),
        Ok(None) => Ok(None),
        Err(e) => Err(e),
    }
}

/// Read access to the stored table metadata.
pub trait TableMetaResolver {
    /// The stored metadata of kind `meta` for `handle`, or the error reading
    /// it gives. An implementation verified here states it; of one that does
    /// not (such as one backed by the host's storage), nothing is known.
    closed spec fn table_meta(&self, handle: TableHandle, meta: TableMetaType) -> Result<
        Option<Seq<u8>>,
        VMError,
    > {
        vstd::pervasive::arbitrary()
    }

    fn get_table_meta(&self, handle: &TableHandle, meta: TableMetaType) -> (r: Result<
        Option<Vec<u8>>,
        VMError,
    >)
        ensures
            read_view(r) == self.table_meta(*handle, meta),
    ;
}

/// Table metadata writes to make in storage, keyed by table handle.
#[derive(Debug)]
pub struct TableMetaChangeSet {
    pub owner: BTreeMap<TableHandle, Op<Vec<u8>>>,
    pub size: BTreeMap<TableHandle, Op<Vec<u8>>>,
}

impl TableMetaChangeSet {
    /// The change set with no writes.
    pub fn default() -> (r: TableMetaChangeSet)
        ensures
            r.owner@ == Map::<TableHandle, Op<Vec<u8>>>::empty(),
            r.size@ == Map::<TableHandle, Op<Vec<u8>>>::empty(),
    {
        TableMetaChangeSet { owner: BTreeMap::new(), size: BTreeMap::new() }
    }
}

/// Buffered metadata changes over the stored metadata that `remote` reads.
pub struct TableMetaDataCache<'r, S: TableMetaResolver> {
    remote: &'r S,
    table_owner: BTreeMap<TableHandle, WriteCache>,
    table_size: BTreeMap<TableHandle, WriteCache>,
}

impl<'r, S: TableMetaResolver> TableMetaDataCache<'r, S> {
    /// Owner slots only ever hold owners, size slots only sizes.
    pub closed spec fn wf(&self) -> bool {
        &&& forall|h: TableHandle|
            #![trigger self.table_owner@.contains_key(h)]
            self.table_owner@.contains_key(h) ==> !(self.table_owner@[h] matches WriteCache::Updated(
                WriteCacheValue::Size(_),
            ))
        &&& forall|h: TableHandle|
            #![trigger self.table_size@.contains_key(h)]
            self.table_size@.contains_key(h) ==> !(self.table_size@[h] matches WriteCache::Updated(
                WriteCacheValue::Owner(_),
            ))
    }

    /// The resolver the cache reads stored metadata through.
    pub closed spec fn remote(&self) -> &'r S {
        self.remote
    }

    /// The buffered owner slots.
    pub closed spec fn owner_slots(&self) -> Map<TableHandle, WriteCache> {
        self.table_owner@
    }

    /// The buffered size slots.
    pub closed spec fn size_slots(&self) -> Map<TableHandle, WriteCache> {
        self.table_size@
    }

    pub fn new(remote: &'r S) -> (r: Self)
        ensures
            r.wf(),
            r.remote() == remote,
            r.owner_slots() == Map::<TableHandle, WriteCache>::empty(),
            r.size_slots() == Map::<TableHandle, WriteCache>::empty(),
    {
        TableMetaDataCache { remote, table_owner: BTreeMap::new(), table_size: BTreeMap::new() }
    }

    /// The buffered slots of kind `meta`.
    pub open spec fn slots_of(&self, meta: TableMetaType) -> Map<TableHandle, WriteCache> {
        match meta {
            TableMetaType::Owner => self.owner_slots(),
            TableMetaType::Size => self.size_slots(),
        }
    }

    /// The buffered owner changes: for each handle with an owner slot, the new
    /// owner, or `None` where the table's owner was deleted.
    pub open spec fn owner_changes(&self) -> Map<TableHandle, Option<u128>> {
        self.owner_slots().map_values(|c: WriteCache| cached_owner(c))
    }

    pub fn get_owner_changes(&self) -> (r: BTreeMap<TableHandle, Option<u128>>)
        requires
            self.wf(),
        ensures
            r@ == self.owner_changes(),
    {
        let entries = entries_of(&self.table_owner);
        let ghost slots = self.table_owner@;
        let mut changes: BTreeMap<TableHandle, Option<u128>> = BTreeMap::new();
        let mut i: usize = 0;
        while i < entries.len()
            invariant
                self.wf(),
                slots == self.table_owner@,
                entries@ == entries_in_order(slots),
                is_key_order(key_order(slots), slots),
                i <= entries.len(),
                forall|h: TableHandle|
                    #![trigger changes@.contains_key(h)]
                    changes@.contains_key(h) ==> slots.contains_key(h) && changes@[h] == cached_owner(
                        slots[h],
                    ),
                forall|j: int| 0 <= j < i ==> changes@.contains_key(#[trigger] entries@[j].0),
            decreases entries.len() - i,
        {
            proof {
                lemma_entries_in_order_facts(slots);
            }
            let (handle, cached) = entries[i];
            assert(slots.contains_key(handle) && slots[handle] == cached);
            changes.insert(handle, cached.get_owner());
            i = i + 1;
        }
        proof {
            lemma_entries_in_order_facts(slots);
            assert forall|h: TableHandle| slots.contains_key(h) implies changes@.contains_key(h) by {
                let j = choose|j: int| 0 <= j < entries@.len() && entries@[j].0 == h;
                assert(changes@.contains_key(entries@[j].0));
            }
            assert(changes@ =~= self.owner_changes());
        }
        changes
    }

    /// Turns the buffered slots into the writes to make: each slot becomes a
    /// modification to its value's BCS bytes, or a deletion.
    pub fn into_change_set(self) -> (r: Result<TableMetaChangeSet, VMError>)
        requires
            self.wf(),
        ensures
            r matches Ok(cs) && slot_writes(cs.owner@, self.owner_slots()) && slot_writes(
                cs.size@,
                self.size_slots(),
            ),
    {
        let owner = writes_of(&self.table_owner)?;
        let size = writes_of(&self.table_size)?;
        Ok(TableMetaChangeSet { owner, size })
    }

    /// The size of `handle`: the buffered one, else the stored one.
    pub open spec fn size_of(&self, handle: TableHandle) -> Result<Option<usize>, VMError> {
        size_in(self.remote(), self.size_slots(), handle)
    }

    /// The direct owner of `handle`: the buffered one, else the stored one.
    pub open spec fn owner_of(&self, handle: TableHandle) -> Result<Option<u128>, VMError> {
        owner_in(self.remote(), self.owner_slots(), handle)
    }

    pub fn get_size(&self, handle: &TableHandle) -> (r: Result<Option<usize>, VMError>)
        requires
            self.wf(),
        ensures
            r == self.size_of(*handle),
    {
        let res = match self.table_size.get(handle) {
            Some(cached) => cached.get_size(),
            None => {
                let val = self.remote.get_table_meta(handle, TableMetaType::Size)?;
                match val {
                    Some(blob) => deserialize_size(blob.as_slice()),
                    None => None,
                }
            },
        };
        Ok(res)
    }

    pub fn set_size(&mut self, handle: &TableHandle, size: usize)
        requires
            old(self).wf(),
        ensures
            final(self).wf(),
            final(self).remote() == old(self).remote(),
            final(self).owner_slots() == old(self).owner_slots(),
            final(self).size_slots() == old(self).size_slots().insert(
                *handle,
                WriteCache::Updated(WriteCacheValue::Size(size)),
            ),
    {
        self.table_size.insert(*handle, WriteCache::Updated(WriteCacheValue::Size(size)));
    }

    pub fn del_size(&mut self, handle: &TableHandle)
        requires
            old(self).wf(),
        ensures
            final(self).wf(),
            final(self).remote() == old(self).remote(),
            final(self).owner_slots() == old(self).owner_slots(),
            final(self).size_slots() == old(self).size_slots().insert(*handle, WriteCache::Deleted),
    {
        self.table_size.insert(*handle, WriteCache::Deleted);
    }

    pub fn set_owner(&mut self, handle: &TableHandle, owner: u128)
        requires
            old(self).wf(),
        ensures
            final(self).wf(),
            final(self).remote() == old(self).remote(),
            final(self).size_slots() == old(self).size_slots(),
            final(self).owner_slots() == old(self).owner_slots().insert(
                *handle,
                WriteCache::Updated(WriteCacheValue::Owner(owner)),
            ),
    {
        self.table_owner.insert(*handle, WriteCache::Updated(WriteCacheValue::Owner(owner)));
    }

    pub fn del_owner(&mut self, handle: &TableHandle)
        requires
            old(self).wf(),
        ensures
            final(self).wf(),
            final(self).remote() == old(self).remote(),
            final(self).size_slots() == old(self).size_slots(),
            final(self).owner_slots() == old(self).owner_slots().insert(
                *handle,
                WriteCache::Deleted,
            ),
    {
        self.table_owner.insert(*handle, WriteCache::Deleted);
    }

    /// A table is registered when it has a buffered owner slot or stored owner metadata.
    pub fn is_registerd_table(&self, handle: &TableHandle) -> (r: Result<bool, VMError>)
        ensures
            self.owner_slots().contains_key(*handle) ==> r == Ok::<bool, VMError>(true),
            !self.owner_slots().contains_key(*handle) ==> r == match self.remote().table_meta(
                *handle,
                TableMetaType::Owner,
            ) {
                Err(e) => Err(e),
                Ok(v) => Ok(v is Some),
            },
    {
        if self.table_owner.contains_key(handle) {
            Ok(true)
        } else {
            let val = self.remote.get_table_meta(handle, TableMetaType::Owner)?;
            match val {
                Some(_) => Ok(true),
                None => Ok(false),
            }
        }
    }

    /// Ownership as the cache sees it.
    pub open spec fn owner_step(&self) -> OwnerStep {
        cache_step(self.remote(), self.owner_slots())
    }

    /// Ownership as stored, before this transaction.
    pub open spec fn stored_owner_step(&self) -> OwnerStep {
        stored_step(self.remote())
    }

    fn root_owner_within(&self, handle: &TableHandle, Ghost(fuel): Ghost<nat>) -> (r: Result<
        Option<u128>,
        VMError,
    >)
        requires
            self.wf(),
            chain_ends(self.owner_step(), *handle, fuel),
        ensures
            r == chain_root(self.owner_step(), *handle, fuel),
        decreases fuel,
    {
        let owner = match self.table_owner.get(handle) {
            Some(cached) => cached.get_owner(),
            None => {
                let val = self.remote.get_table_meta(handle, TableMetaType::Owner)?;
                match val {
                    Some(blob) => deserialize_owner(blob.as_slice()),
                    None => None,
                }
            },
        };
        let child_or_me = match owner {
            Some(o) => {
                let deeper = self.root_owner_within(&o, Ghost((fuel - 1) as nat))?;
                match deeper {
                    Some(r) => Some(r),
                    None => Some(o),
                }
            },
            None => None,
        };
        Ok(child_or_me)
    }

    /// The root owner of `handle`: its owner's root owner, recursively, with
    /// buffered owners taking precedence over stored ones. A table whose owner
    /// is an account gets that account.
    pub fn get_root_owner(&self, handle: &TableHandle) -> (r: Result<Option<u128>, VMError>)
        requires
            self.wf(),
            has_chain_end(self.owner_step(), *handle),
        ensures
            r == chain_root_of(self.owner_step(), *handle),
    {
        let ghost fuel = choose|fuel: nat| chain_ends(self.owner_step(), *handle, fuel);
        self.root_owner_within(handle, Ghost(fuel))
    }

    fn old_root_owner_within(&self, handle: &TableHandle, Ghost(fuel): Ghost<nat>) -> (r: Result<
        Option<u128>,
        VMError,
    >)
        requires
            chain_ends(self.stored_owner_step(), *handle, fuel),
        ensures
            r == chain_root(self.stored_owner_step(), *handle, fuel),
        decreases fuel,
    {
        let val = self.remote.get_table_meta(handle, TableMetaType::Owner)?;
        let owner = match val {
            Some(blob) => deserialize_owner(blob.as_slice()),
            None => None,
        };
        let child_or_me = match owner {
            Some(o) => {
                let deeper = self.old_root_owner_within(&o, Ghost((fuel - 1) as nat))?;
                match deeper {
                    Some(r) => Some(r),
                    None => Some(o),
                }
            },
            None => None,
        };
        Ok(child_or_me)
    }

    /// The root owner of `handle` as stored before this transaction; buffered
    /// owners are ignored.
    pub fn get_old_root_owner(&self, handle: &TableHandle) -> (r: Result<Option<u128>, VMError>)
        requires
            has_chain_end(self.stored_owner_step(), *handle),
        ensures
            r == chain_root_of(self.stored_owner_step(), *handle),
    {
        let ghost fuel = choose|fuel: nat| chain_ends(self.stored_owner_step(), *handle, fuel);
        self.old_root_owner_within(handle, Ghost(fuel))
    }
}

/// A step along ownership: the owner of a handle, or the error reading it gives.
pub type OwnerStep = spec_fn(u128) -> Result<Option<u128>, VMError>;

/// Following `step` from `handle` for at most `fuel` further steps: the last
/// owner on the chain (`None` when `handle` has no owner).
pub open spec fn chain_root(step: OwnerStep, handle: u128, fuel: nat) -> Result<
    Option<u128>,
    VMError,
>
    decreases fuel,
{
    match step(handle) {
        Err(e) => Err(e),
        Ok(None) => Ok(None),
        Ok(Some(o)) => if fuel == 0 {
            Ok(Some(o))
        } else {
            match chain_root(step, o, (fuel - 1) as nat) {
                Err(e) => Err(e),
                Ok(Some(r)) => Ok(Some(r)),
                Ok(None) => Ok(Some(o)),
            }
        },
    }
}

/// The chain from `handle` reaches a handle without owner, or an error,
/// within `fuel` steps.
pub open spec fn chain_ends(step: OwnerStep, handle: u128, fuel: nat) -> bool
    decreases fuel,
{
    match step(handle) {
        Ok(Some(o)) => fuel > 0 && chain_ends(step, o, (fuel - 1) as nat),
        _ => true,
    }
}

/// The ownership chain from `handle` is finite.
pub open spec fn has_chain_end(step: OwnerStep, handle: u128) -> bool {
    exists|fuel: nat| chain_ends(step, handle, fuel)
}

/// The root of the (finite) ownership chain from `handle`.
pub open spec fn chain_root_of(step: OwnerStep, handle: u128) -> Result<Option<u128>, VMError> {
    chain_root(step, handle, choose|fuel: nat| chain_ends(step, handle, fuel))
}

/// Any fuel that lets the chain end gives the same root.
pub proof fn lemma_chain_root_fuel(step: OwnerStep, handle: u128, f1: nat, f2: nat)
    requires
        chain_ends(step, handle, f1),
        chain_ends(step, handle, f2),
    ensures
        chain_root(step, handle, f1) == chain_root(step, handle, f2),
    decreases f1,
{
    match step(handle) {
        Ok(Some(o)) => {
            lemma_chain_root_fuel(step, o, (f1 - 1) as nat, (f2 - 1) as nat);
        },
        _ => {},
    }
}

/// The stored owner of `handle` that `remote` reads.
pub open spec fn stored_owner_of<S: TableMetaResolver>(remote: &S, handle: TableHandle) -> Result<
    Option<u128>,
    VMError,
> {
    match remote.table_meta(handle, TableMetaType::Owner) {
        Err(e) => Err(e),
        Ok(None) => Ok(None),
        Ok(Some(blob)) => Ok(decoded_owner(blob)),
    }
}

/// The size of `handle` with size slots `slots` buffered over what `remote` stores.
pub open spec fn size_in<S: TableMetaResolver>(
    remote: &S,
    slots: Map<TableHandle, WriteCache>,
    handle: TableHandle,
) -> Result<Option<usize>, VMError> {
    if slots.contains_key(handle) {
        Ok(cached_size(slots[handle]))
    } else {
        match remote.table_meta(handle, TableMetaType::Size) {
            Err(e) => Err(e),
            Ok(None) => Ok(None),
            Ok(Some(blob)) => Ok(decoded_size(blob)),
        }
    }
}

/// The direct owner of `handle` with owner slots `slots` buffered over what `remote` stores.
pub open spec fn owner_in<S: TableMetaResolver>(
    remote: &S,
    slots: Map<TableHandle, WriteCache>,
    handle: TableHandle,
) -> Result<Option<u128>, VMError> {
    if slots.contains_key(handle) {
        Ok(cached_owner(slots[handle]))
    } else {
        stored_owner_of(remote, handle)
    }
}

/// Ownership with owner slots `slots` buffered over what `remote` stores.
pub open spec fn cache_step<S: TableMetaResolver>(
    remote: &S,
    slots: Map<TableHandle, WriteCache>,
) -> OwnerStep {
    |h: u128| owner_in(remote, slots, h)
}

/// Ownership as `remote` stores it.
pub open spec fn stored_step<S: TableMetaResolver>(remote: &S) -> OwnerStep {
    |h: u128| stored_owner_of(remote, h)
}

/// `writes` holds, for each slot of `slots`, the write it stands for.
pub open spec fn slot_writes(
    writes: Map<TableHandle, Op<Vec<u8>>>,
    slots: Map<TableHandle, WriteCache>,
) -> bool {
    &&& writes.dom() == slots.dom()
    &&& forall|h: TableHandle|
        #![trigger writes.contains_key(h)]
        writes.contains_key(h) ==> op_view(writes[h]) == serialized_op(slot_effect(slots[h]))
}

pub(crate) fn writes_of(slots: &BTreeMap<TableHandle, WriteCache>) -> (r: Result<
    BTreeMap<TableHandle, Op<Vec<u8>>>,
    VMError,
>)
    ensures
        r matches Ok(writes) && slot_writes(writes@, slots@),
{
    let entries = entries_of(slots);
    let mut writes: BTreeMap<TableHandle, Op<Vec<u8>>> = BTreeMap::new();
    let mut i: usize = 0;
    while i < entries.len()
        invariant
            entries@ == entries_in_order(slots@),
            is_key_order(key_order(slots@), slots@),
            i <= entries.len(),
            forall|h: TableHandle|
                #![trigger writes@.contains_key(h)]
                writes@.contains_key(h) ==> slots@.contains_key(h) && op_view(writes@[h])
                    == serialized_op(slot_effect(slots@[h])),
            forall|j: int| 0 <= j < i ==> writes@.contains_key(#[trigger] entries@[j].0),
        decreases entries.len() - i,
    {
        proof {
            lemma_entries_in_order_facts(slots@);
        }
        let (handle, cached) = entries[i];
        assert(slots@.contains_key(handle) && slots@[handle] == cached);
        let op = match cached.into_effect() {
            Some(op) => op,
            None => {
                i = i + 1;
                continue;
            },
        };
        writes.insert(handle, serialize_op(op)?);
        i = i + 1;
    }
    proof {
        lemma_entries_in_order_facts(slots@);
        assert forall|h: TableHandle| slots@.contains_key(h) implies writes@.contains_key(h) by {
            let j = choose|j: int| 0 <= j < entries@.len() && entries@[j].0 == h;
            assert(writes@.contains_key(entries@[j].0));
        }
        assert(writes@.dom() =~= slots@.dom());
    }
    Ok(writes)
}

/// A root owner has no owner itself, and a handle without owner has no root.
pub proof fn lemma_chain_root_has_no_owner(step: OwnerStep, handle: u128, fuel: nat)
    requires
        chain_ends(step, handle, fuel),
    ensures
        chain_root(step, handle, fuel) matches Ok(Some(root)) ==> step(root) == Ok::<
            Option<u128>,
            VMError,
        >(None),
        (chain_root(step, handle, fuel) == Ok::<Option<u128>, VMError>(None)) == (step(handle)
            == Ok::<Option<u128>, VMError>(None)),
    decreases fuel,
{
    match step(handle) {
        Ok(Some(o)) => {
            lemma_chain_root_has_no_owner(step, o, (fuel - 1) as nat);
        },
        _ => {},
    }
}

/// The cache gives back what was buffered: after a size or owner is set,
/// reading it gives that value; after it is deleted, none; other handles
/// read as before.
pub proof fn lemma_cache_read_your_write<S: TableMetaResolver>(
    remote: &S,
    slots: Map<TableHandle, WriteCache>,
    handle: TableHandle,
    other: TableHandle,
    size: usize,
    owner: u128,
)
    ensures
        size_in(remote, slots.insert(handle, WriteCache::Updated(WriteCacheValue::Size(size))), handle)
            == Ok::<Option<usize>, VMError>(Some(size)),
        size_in(remote, slots.insert(handle, WriteCache::Deleted), handle) == Ok::<
            Option<usize>,
            VMError,
        >(None),
        owner_in(remote, slots.insert(handle, WriteCache::Updated(WriteCacheValue::Owner(owner))), handle)
            == Ok::<Option<u128>, VMError>(Some(owner)),
        owner_in(remote, slots.insert(handle, WriteCache::Deleted), handle) == Ok::<
            Option<u128>,
            VMError,
        >(None),
        other != handle ==> size_in(remote, slots.insert(handle, WriteCache::Deleted), other)
            == size_in(remote, slots, other),
        other != handle ==> owner_in(remote, slots.insert(handle, WriteCache::Deleted), other)
            == owner_in(remote, slots, other),
{
}

/// With nothing buffered, the cache reads what is stored.
pub proof fn lemma_unbuffered_reads_are_stored<S: TableMetaResolver>(remote: &S, handle: TableHandle)
    ensures
        cache_step(remote, Map::empty()) == stored_step(remote),
        size_in(remote, Map::empty(), handle) == match remote.table_meta(handle, TableMetaType::Size) {
            Err(e) => Err(e),
            Ok(None) => Ok(None),
            Ok(Some(blob)) => Ok(decoded_size(blob)),
        },
{
    assert(cache_step(remote, Map::empty()) =~= stored_step(remote));
}

} // verus!
