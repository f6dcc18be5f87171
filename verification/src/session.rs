//! Storage size accounting for a finished session: how many bytes each
//! account's (and each table's) stored entries gained or lost.

use crate::mock_db::{value_view, written_value};
use crate::size_change_set::{final_merged, SizeChangeSet, SizeDelta};
use crate::state_key::AccessPath;
use crate::storage::{entry_size, DataViewResolver, StateView, StoredSizeResolver};
use crate::table_meta::effects::Op;
use std::collections::BTreeMap;
use vstd::prelude::*;

verus! {

broadcast use {vstd::std_specs::btree::group_btree_axioms, vstd::laws_cmp::group_laws_cmp};

/// A write to one stored entry, with what size accounting needs of it: the
/// size of the entry's key (the length of its access path's text) and the
/// entry's stored size before the write.
pub struct KeyedWrite {
    pub key_size: usize,
    pub prev_size: usize,
    pub op: Op<Vec<u8>>,
}

/// The bytes an entry takes once `op` is written: its key and its value, or
/// nothing once deleted.
pub open spec fn stored_size(key_size: usize, op: Op<Vec<u8>>) -> int {
    match op {
        Op::New(data) => key_size + data@.len(),
        Op::Modify(data) => key_size + data@.len(),
        Op::Delete => 0,
    }
}

/// The size change of one write, as `SizeDelta::new(prev, new)` gives it.
pub open spec fn write_delta(w: KeyedWrite) -> SizeDelta {
    let new = stored_size(w.key_size, w.op);
    if new < w.prev_size {
        SizeDelta { amount: (w.prev_size - new) as usize, is_decrease: true }
    } else {
        SizeDelta { amount: (new - w.prev_size) as usize, is_decrease: false }
    }
}

/// The merged size change of the writes, from a zero change, in order.
pub open spec fn writes_delta(writes: Seq<KeyedWrite>) -> SizeDelta
    decreases writes.len(),
{
    if writes.len() == 0 {
        SizeDelta { amount: 0, is_decrease: false }
    } else {
        final_merged(writes_delta(writes.drop_last()), write_delta(writes.last()))
    }
}

/// Whether every write's new size fits a `usize`, and merging the writes'
/// changes in order never overflows.
pub open spec fn writes_accountable(writes: Seq<KeyedWrite>) -> bool
    decreases writes.len(),
{
    if writes.len() == 0 {
        true
    } else {
        &&& writes_accountable(writes.drop_last())
        &&& stored_size(writes.last().key_size, writes.last().op) <= usize::MAX
        &&& writes_delta(writes.drop_last()).can_merge(write_delta(writes.last()))
    }
}

/// The bytes an entry takes once `v` is written: its key and its value, or
/// nothing once deleted.
pub fn get_kv_stored_size(key_size: usize, v: &Op<Vec<u8>>) -> (r: usize)
    requires
        stored_size(key_size, *v) <= usize::MAX,
    ensures
        r == stored_size(key_size, *v),
{
    match v {
        Op::New(data) => key_size + data.len(),
        Op::Modify(data) => key_size + data.len(),
        Op::Delete => 0,
    }
}

/// The merged size change of `writes`, in order.
pub fn size_change_of(writes: &Vec<KeyedWrite>) -> (r: SizeDelta)
    requires
        writes_accountable(writes@),
    ensures
        r == writes_delta(writes@),
{
    let mut delta = SizeDelta::zero();
    let mut i: usize = 0;
    while i < writes.len()
        invariant
            i <= writes.len(),
            writes_accountable(writes@),
            delta == writes_delta(writes@.take(i as int)),
        decreases writes.len() - i,
    {
        proof {
            lemma_writes_accountable_prefix(writes@, i + 1);
            assert(writes@.take(i + 1).drop_last() =~= writes@.take(i as int));
        }
        let w = &writes[i];
        let new = get_kv_stored_size(w.key_size, &w.op);
        let d = SizeDelta::new(w.prev_size, new);
        delta.merge(d);
        i = i + 1;
    }
    proof {
        assert(writes@.take(writes@.len() as int) =~= writes@);
    }
    delta
}

/// Writes that can be accounted for have prefixes that can.
pub proof fn lemma_writes_accountable_prefix(writes: Seq<KeyedWrite>, n: int)
    requires
        0 <= n <= writes.len(),
        writes_accountable(writes),
    ensures
        writes_accountable(writes.take(n)),
    decreases writes.len(),
{
    if n == writes.len() {
        assert(writes.take(n) =~= writes);
    } else {
        assert(writes.drop_last().take(n) =~= writes.take(n));
        lemma_writes_accountable_prefix(writes.drop_last(), n);
    }
}

/// The size changes of the keyed groups of writes: for each key, the merged
/// change of its writes (a later group under the same key replaces an
/// earlier one).
pub open spec fn collected_changes(groups: Seq<(u128, Vec<KeyedWrite>)>) -> Map<u128, SizeDelta>
    decreases groups.len(),
{
    if groups.len() == 0 {
        Map::empty()
    } else {
        collected_changes(groups.drop_last()).insert(
            groups.last().0,
            writes_delta(groups.last().1@),
        )
    }
}

/// The size change of each account (or table) from its writes. Used for
/// the accounts' modules and resources, and for the tables' entries.
pub fn collect_size_changes(groups: &Vec<(u128, Vec<KeyedWrite>)>) -> (r: SizeChangeSet)
    requires
        forall|i: int| 0 <= i < groups@.len() ==> writes_accountable(#[trigger] groups@[i].1@),
    ensures
        r.view() == collected_changes(groups@),
{
    let mut changes: BTreeMap<u128, SizeDelta> = BTreeMap::new();
    let mut i: usize = 0;
    while i < groups.len()
        invariant
            i <= groups.len(),
            forall|j: int| 0 <= j < groups@.len() ==> writes_accountable(#[trigger] groups@[j].1@),
            changes@ == collected_changes(groups@.take(i as int)),
        decreases groups.len() - i,
    {
        let (key, writes) = &groups[i];
        assert(writes_accountable(groups@[i as int].1@));
        let delta = size_change_of(writes);
        changes.insert(*key, delta);
        proof {
            assert(groups@.take(i + 1).drop_last() =~= groups@.take(i as int));
        }
        i = i + 1;
    }
    proof {
        assert(groups@.take(groups@.len() as int) =~= groups@);
    }
    SizeChangeSet::new(changes)
}

/// The net change of the writes: each write's new stored size less its old one, summed.
pub open spec fn writes_total(writes: Seq<KeyedWrite>) -> int
    decreases writes.len(),
{
    if writes.len() == 0 {
        0
    } else {
        writes_total(writes.drop_last()) + stored_size(writes.last().key_size, writes.last().op)
            - writes.last().prev_size
    }
}

/// Size accounting loses no byte: the merged change of the writes is their
/// net change.
pub proof fn lemma_writes_delta_value(writes: Seq<KeyedWrite>)
    requires
        writes_accountable(writes),
    ensures
        writes_delta(writes).value() == writes_total(writes),
    decreases writes.len(),
{
    if writes.len() > 0 {
        lemma_writes_delta_value(writes.drop_last());
        let a = writes_delta(writes.drop_last());
        let b = write_delta(writes.last());
        assert(b.value() == stored_size(writes.last().key_size, writes.last().op)
            - writes.last().prev_size);
        assert(final_merged(a, b).value() == a.value() + b.value());
    }
}

/// The write of `op` at `access_path` (whose key text is `key_size` bytes
/// long), with the entry's stored size before the write taken from what
/// `remote` recorded when it first read the entry, zero when it recorded
/// none.
pub fn keyed_write<S: StateView>(
    remote: &DataViewResolver<'_, S>,
    access_path: &AccessPath,
    key_size: usize,
    op: Op<Vec<u8>>,
) -> (r: KeyedWrite)
    requires
        remote.wf(),
    ensures
        r.key_size == key_size,
        r.op == op,
        r.prev_size == if remote.sizes().contains_key(access_path@) {
            remote.sizes()[access_path@]
        } else {
            0
        },
{
    let prev_size = match remote.get_size(access_path) {
        Some(size) => size,
        None => 0,
    };
    KeyedWrite { key_size, prev_size, op }
}

/// The size the resolver records for an entry on its first read is the
/// size a write leaves there: once `op` is written, the entry reads back as
/// what `op` wrote (`value`), and its recorded size, the key and the value,
/// or nothing once deleted, is `stored_size` of the write (where that fits
/// a `usize`).
pub proof fn lemma_recorded_size_is_stored_size(key_size: usize, op: Op<Vec<u8>>, value: Option<Vec<u8>>)
    requires
        value_view(value) == written_value(op),
        stored_size(key_size, op) <= usize::MAX,
    ensures
        entry_size(key_size, value) == stored_size(key_size, op),
{
}

} // verus!
