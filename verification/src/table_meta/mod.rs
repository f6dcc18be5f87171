//! Table metadata: which account (or table) owns a table, and how many bytes
//! a table holds, and how a transaction's table changes move those bytes
//! between the accounts that own the tables.

use crate::key_order::{entries_in_order, entries_of, is_key_order, key_order, lemma_entries_in_order_facts};
use crate::size_change_set::{accumulated, change_of, final_merged, SizeChangeSet, SizeDelta};
use crate::text::str_eq;
use crate::vm_status::VMError;
use data_cache::{
    cache_step, chain_root_of, has_chain_end, size_in, stored_step, OwnerStep, TableMetaDataCache,
    TableMetaResolver,
};
use data_cache::{slot_writes, TableMetaChangeSet};
use effects::{cached_owner, WriteCache, WriteCacheValue};
use std::collections::BTreeSet;
use vstd::std_specs::iter::IteratorSpec;
use vstd::prelude::*;

pub mod data_cache;
pub mod effects;

verus! {

/// A table handle: the 16-byte address of the table, as a big-endian integer.
pub type TableHandle = u128;

/// The kinds of metadata kept per table.
#[derive(Clone, Copy, Debug, PartialEq, Eq, Structural)]
pub enum TableMetaType {
    Owner,
    Size,
}

/// The lowercase name of a metadata kind.
pub open spec fn table_meta_type_name(t: TableMetaType) -> Seq<char> {
    match t {
        TableMetaType::Owner => "owner"@,
        TableMetaType::Size => "size"@,
    }
}

/// The error for a name that is neither `owner` nor `size`.
#[derive(Debug)]
pub struct TableMetaTypeParseError;

impl TableMetaTypeParseError {
    /// The text the error is reported with.
    pub fn to_string(&self) -> (r: String)
        ensures
            r@ == "unexpected table meta type"@,
    {
        "unexpected table meta type".to_owned()
    }
}

impl TableMetaType {
    /// The lowercase name: `owner` or `size`.
    pub fn name(&self) -> (s: &'static str)
        ensures
            s@ == table_meta_type_name(*self),
    {
        match self {
            TableMetaType::Owner => "owner",
            TableMetaType::Size => "size",
        }
    }

    /// Parses `owner` or `size`.
    pub fn from_str(s: &str) -> (r: Result<TableMetaType, TableMetaTypeParseError>)
        ensures
            r matches Ok(t) ==> table_meta_type_name(t) == s@,
            r is Err <==> (s@ != "owner"@ && s@ != "size"@),
    {
        if str_eq(s, "owner") {
            Ok(TableMetaType::Owner)
        } else if str_eq(s, "size") {
            Ok(TableMetaType::Size)
        } else {
            Err(TableMetaTypeParseError)
        }
    }
}

/// Parsing the name of a metadata kind gives the kind back.
pub proof fn lemma_table_meta_type_name_round_trip(t: TableMetaType, u: TableMetaType)
    requires
        table_meta_type_name(t) == table_meta_type_name(u),
    ensures
        t == u,
{
    reveal_strlit("owner");
    reveal_strlit("size");
    assert("owner"@.len() == 5);
    assert("size"@.len() == 4);
}

/// Runs `step` over the items of `s` in turn, from `init`. The run stops at
/// the first step that fails (`Some(Err(..))`) or does not come back (`None`).
pub open spec fn run_steps<A, T>(
    init: A,
    step: spec_fn(A, T) -> Option<Result<A, VMError>>,
    s: Seq<T>,
) -> Option<Result<A, VMError>>
    decreases s.len(),
{
    if s.len() == 0 {
        Some(Ok(init))
    } else {
        match run_steps(init, step, s.drop_last()) {
            Some(Ok(a)) => step(a, s.last()),
            stopped => stopped,
        }
    }
}

/// A run that has stopped after the first `i` items stays stopped there.
pub proof fn lemma_run_steps_stopped<A, T>(
    init: A,
    step: spec_fn(A, T) -> Option<Result<A, VMError>>,
    s: Seq<T>,
    i: int,
)
    requires
        0 <= i <= s.len(),
    ensures
        !(run_steps(init, step, s.take(i)) matches Some(Ok(_))) ==> run_steps(init, step, s)
            == run_steps(init, step, s.take(i)),
    decreases s.len(),
{
    if i == s.len() {
        assert(s.take(i) =~= s);
    } else {
        assert(s.drop_last().take(i) =~= s.take(i));
        lemma_run_steps_stopped(init, step, s.drop_last(), i);
    }
}

/// The run over the first `i + 1` items is one step after the run over the first `i`.
pub proof fn lemma_run_steps_next<A, T>(
    init: A,
    step: spec_fn(A, T) -> Option<Result<A, VMError>>,
    s: Seq<T>,
    i: int,
)
    requires
        0 <= i < s.len(),
    ensures
        run_steps(init, step, s.take(i + 1)) == match run_steps(init, step, s.take(i)) {
            Some(Ok(a)) => step(a, s[i]),
            stopped => stopped,
        },
{
    assert(s.take(i + 1).drop_last() =~= s.take(i));
}

/// The root owner that a root-owner lookup along `step` from `handle` gives
/// when unwrapped, or the error it reads on the way; `None` where the lookup
/// does not end, or ends without an owner and so cannot be unwrapped.
pub open spec fn root_or_abort(step: OwnerStep, handle: u128) -> Option<Result<u128, VMError>> {
    if !has_chain_end(step, handle) {
        None
    } else {
        match chain_root_of(step, handle) {
            Err(e) => Some(Err(e)),
            Ok(None) => None,
            Ok(Some(root)) => Some(Ok(root)),
        }
    }
}

/// Whether accumulating `value` into the entry of `key` in `m` stays within `usize`.
pub open spec fn can_accumulate(m: Map<u128, SizeDelta>, key: u128, value: SizeDelta) -> bool {
    m.contains_key(key) ==> m[key].can_merge(value)
}

/// How one owner change moves stored bytes between accounts. A table with a
/// stored size whose owner changed moves that size from its old root owner
/// to the new owner's root owner (both entries are overwritten); one whose
/// owner was deleted takes its size off its old root owner. A table without
/// a size, a new one, moves nothing.
pub open spec fn owner_change_step<S: TableMetaResolver>(
    remote: &S,
    owner_slots: Map<u128, WriteCache>,
    size_slots: Map<u128, WriteCache>,
    acc: Map<u128, SizeDelta>,
    handle: u128,
    owner: Option<u128>,
) -> Option<Result<Map<u128, SizeDelta>, VMError>> {
    match size_in(remote, size_slots, handle) {
        Err(e) => Some(Err(e)),
        Ok(None) => Some(Ok(acc)),
        Ok(Some(size)) => match root_or_abort(stored_step(remote), handle) {
            None => None,
            Some(Err(e)) => Some(Err(e)),
            Some(Ok(old_root)) => match owner {
                Some(new_owner) => match root_or_abort(cache_step(remote, owner_slots), new_owner) {
                    None => None,
                    Some(Err(e)) => Some(Err(e)),
                    Some(Ok(new_root)) => Some(
                        Ok(
                            acc.insert(old_root, SizeDelta { amount: size, is_decrease: true }).insert(
                                new_root,
                                SizeDelta { amount: size, is_decrease: false },
                            ),
                        ),
                    ),
                },
                None => {
                    let shrink = SizeDelta { amount: size, is_decrease: true };
                    if can_accumulate(acc, old_root, shrink) {
                        Some(Ok(accumulated(acc, old_root, shrink)))
                    } else {
                        None
                    }
                },
            },
        },
    }
}

/// `owner_change_step` as a step over `(handle, new owner)` items.
pub open spec fn owner_change_steps<S: TableMetaResolver>(
    remote: &S,
    owner_slots: Map<u128, WriteCache>,
    size_slots: Map<u128, WriteCache>,
) -> spec_fn(Map<u128, SizeDelta>, (u128, Option<u128>)) -> Option<
    Result<Map<u128, SizeDelta>, VMError>,
> {
    |acc: Map<u128, SizeDelta>, change: (u128, Option<u128>)|
        owner_change_step(remote, owner_slots, size_slots, acc, change.0, change.1)
}

/// `slots` with a deleted slot for each handle of `removed`.
pub open spec fn deleted_slots(slots: Map<u128, WriteCache>, removed: Set<u128>) -> Map<
    u128,
    WriteCache,
> {
    Map::new(
        |h: u128| slots.contains_key(h) || removed.contains(h),
        |h: u128|
            if removed.contains(h) {
                WriteCache::Deleted
            } else {
                slots[h]
            },
    )
}

/// How one table's size change is accounted for. The change goes to the
/// table's root owner, and the table's new size (its current size, zero if it
/// has none, plus the change) is buffered. Removed tables are skipped. A new
/// size below zero stops the run.
pub open spec fn size_change_step<S: TableMetaResolver>(
    remote: &S,
    owner_slots: Map<u128, WriteCache>,
    removed: Set<u128>,
    acc: Map<u128, SizeDelta>,
    size_slots: Map<u128, WriteCache>,
    handle: u128,
    delta: SizeDelta,
) -> Option<Result<(Map<u128, SizeDelta>, Map<u128, WriteCache>), VMError>> {
    if removed.contains(handle) {
        Some(Ok((acc, size_slots)))
    } else {
        match root_or_abort(cache_step(remote, owner_slots), handle) {
            None => None,
            Some(Err(e)) => Some(Err(e)),
            Some(Ok(owner)) => if !can_accumulate(acc, owner, delta) {
                None
            } else {
                match size_in(remote, size_slots, handle) {
                    Err(e) => Some(Err(e)),
                    Ok(current) => {
                        let base = SizeDelta {
                            amount: match current {
                                Some(n) => n,
                                None => 0,
                            },
                            is_decrease: false,
                        };
                        let merged = final_merged(base, delta);
                        if !base.can_merge(delta) || merged.is_decrease {
                            None
                        } else {
                            Some(
                                Ok(
                                    (
                                        accumulated(acc, owner, delta),
                                        size_slots.insert(
                                            handle,
                                            WriteCache::Updated(WriteCacheValue::Size(merged.amount)),
                                        ),
                                    ),
                                ),
                            )
                        }
                    },
                }
            },
        }
    }
}

/// `size_change_step` as a step over `(handle, change)` items.
pub open spec fn size_change_steps<S: TableMetaResolver>(
    remote: &S,
    owner_slots: Map<u128, WriteCache>,
    removed: Set<u128>,
) -> spec_fn((Map<u128, SizeDelta>, Map<u128, WriteCache>), (u128, SizeDelta)) -> Option<
    Result<(Map<u128, SizeDelta>, Map<u128, WriteCache>), VMError>,
> {
    |state: (Map<u128, SizeDelta>, Map<u128, WriteCache>), change: (u128, SizeDelta)|
        size_change_step(remote, owner_slots, removed, state.0, state.1, change.0, change.1)
}

/// Table size resolution over a cache with `owner_slots` and `size_slots`:
/// first each owner change in handle order, then the removed tables' sizes
/// are deleted, then each size change in handle order. It comes to the
/// per-account size changes and the buffered size slots, or an error read
/// from storage; `None` where it does not come back.
pub open spec fn table_size_run<S: TableMetaResolver>(
    remote: &S,
    owner_slots: Map<u128, WriteCache>,
    size_slots: Map<u128, WriteCache>,
    removed: Set<u128>,
    size_changes: Map<u128, SizeDelta>,
) -> Option<Result<(Map<u128, SizeDelta>, Map<u128, WriteCache>), VMError>> {
    match run_steps(
        Map::empty(),
        owner_change_steps(remote, owner_slots, size_slots),
        entries_in_order(owner_slots.map_values(|c: WriteCache| cached_owner(c))),
    ) {
        None => None,
        Some(Err(e)) => Some(Err(e)),
        Some(Ok(acc)) => run_steps(
            (acc, deleted_slots(size_slots, removed)),
            size_change_steps(remote, owner_slots, removed),
            entries_in_order(size_changes),
        ),
    }
}

/// The size a table comes to after `delta`: its current size (zero when it
/// has none) plus the change.
pub open spec fn size_after(current: Option<usize>, delta: SizeDelta) -> int {
    let base: int = match current {
        Some(n) => n as int,
        None => 0,
    };
    base + delta.value()
}

/// Whether `h` is the key of one of the first `n` entries of `e`.
pub open spec fn key_in_prefix(e: Seq<(u128, SizeDelta)>, n: int, h: u128) -> bool {
    exists|j: int| 0 <= j < n && #[trigger] e[j].0 == h
}

/// What the size slots are after the size changes of the first `n` entries
/// of `e`, starting from `start`: each table changed and not removed holds
/// its current size plus its change, and every other slot is as it was.
pub open spec fn sizes_after_changes<S: TableMetaResolver>(
    remote: &S,
    start: Map<u128, WriteCache>,
    removed: Set<u128>,
    e: Seq<(u128, SizeDelta)>,
    n: int,
    slots: Map<u128, WriteCache>,
) -> bool {
    &&& forall|j: int|
        #![trigger e[j]]
        0 <= j < n && !removed.contains(e[j].0) ==> slots.contains_key(e[j].0) && (size_in(
            remote,
            start,
            e[j].0,
        ) matches Ok(cur) && slots[e[j].0] matches WriteCache::Updated(
            WriteCacheValue::Size(m),
        ) && m == size_after(cur, e[j].1))
    &&& forall|h: u128|
        #![trigger slots.contains_key(h)]
        (!key_in_prefix(e, n, h) || removed.contains(h)) ==> slots.contains_key(h)
            == start.contains_key(h) && (start.contains_key(h) ==> slots[h] == start[h])
}

/// The size phase of a table size run, over the first `n` size changes.
proof fn lemma_size_phase<S: TableMetaResolver>(
    remote: &S,
    owner_slots: Map<u128, WriteCache>,
    removed: Set<u128>,
    init: (Map<u128, SizeDelta>, Map<u128, WriteCache>),
    e: Seq<(u128, SizeDelta)>,
    n: int,
)
    requires
        0 <= n <= e.len(),
        forall|i: int, j: int| 0 <= i < j < e.len() ==> #[trigger] e[i].0 < #[trigger] e[j].0,
        run_steps(init, size_change_steps(remote, owner_slots, removed), e.take(n)) is Some,
        run_steps(init, size_change_steps(remote, owner_slots, removed), e.take(n)) matches Some(r)
            && r is Ok,
    ensures
        run_steps(init, size_change_steps(remote, owner_slots, removed), e.take(n)) matches Some(
            Ok(res),
        ) && sizes_after_changes(remote, init.1, removed, e, n, res.1),
    decreases n,
{
    let step = size_change_steps(remote, owner_slots, removed);
    if n == 0 {
        assert(e.take(0) =~= Seq::<(u128, SizeDelta)>::empty());
    } else {
        lemma_run_steps_next(init, step, e, n - 1);
        let prev = run_steps(init, step, e.take(n - 1));
        assert(prev is Some && prev->Some_0 is Ok) by {
            if !(prev is Some && prev->Some_0 is Ok) {
                assert(run_steps(init, step, e.take(n)) == prev);
            }
        }
        lemma_size_phase(remote, owner_slots, removed, init, e, n - 1);
        let a = prev->Some_0->Ok_0;
        let h = e[n - 1].0;
        let d = e[n - 1].1;
        let res = run_steps(init, step, e.take(n))->Some_0->Ok_0;
        assert(!key_in_prefix(e, n - 1, h)) by {
            if key_in_prefix(e, n - 1, h) {
                let j = choose|j: int| 0 <= j < n - 1 && #[trigger] e[j].0 == h;
                assert(e[j].0 < e[n - 1].0);
            }
        }
        assert(a.1.contains_key(h) == init.1.contains_key(h));
        assert(size_in(remote, a.1, h) == size_in(remote, init.1, h));
        if removed.contains(h) {
            assert(res == a);
            assert forall|j: int|
                #![trigger e[j]]
                0 <= j < n && !removed.contains(e[j].0) implies res.1.contains_key(e[j].0) && (size_in(
                remote,
                init.1,
                e[j].0,
            ) matches Ok(cur) && res.1[e[j].0] matches WriteCache::Updated(
                WriteCacheValue::Size(m),
            ) && m == size_after(cur, e[j].1)) by {
                assert(j < n - 1);
            }
            assert forall|k: u128|
                #![trigger res.1.contains_key(k)]
                (!key_in_prefix(e, n, k) || removed.contains(k)) implies res.1.contains_key(k)
                == init.1.contains_key(k) && (init.1.contains_key(k) ==> res.1[k] == init.1[k]) by {
                if !key_in_prefix(e, n, k) {
                    assert(!key_in_prefix(e, n - 1, k)) by {
                        if key_in_prefix(e, n - 1, k) {
                            let j = choose|j: int| 0 <= j < n - 1 && #[trigger] e[j].0 == k;
                            assert(e[j].0 == k);
                        }
                    }
                }
                assert(a.1.contains_key(k) == init.1.contains_key(k));
            }
        } else {
            assert(run_steps(init, step, e.take(n)) == step(a, e[n - 1]));
            assert(step(a, e[n - 1]) == size_change_step(remote, owner_slots, removed, a.0, a.1, h, d));
            let cur = size_in(remote, a.1, h)->Ok_0;
            let base = SizeDelta {
                amount: match cur {
                    Some(x) => x,
                    None => 0,
                },
                is_decrease: false,
            };
            let merged = final_merged(base, d);
            assert(size_in(remote, a.1, h) is Ok);
            assert(!merged.is_decrease && base.can_merge(d));
            assert(res.1 == a.1.insert(h, WriteCache::Updated(WriteCacheValue::Size(merged.amount))));
            assert(merged.amount == size_after(cur, d));
            assert forall|j: int|
                #![trigger e[j]]
                0 <= j < n && !removed.contains(e[j].0) implies res.1.contains_key(e[j].0) && (size_in(
                remote,
                init.1,
                e[j].0,
            ) matches Ok(cur) && res.1[e[j].0] matches WriteCache::Updated(
                WriteCacheValue::Size(m),
            ) && m == size_after(cur, e[j].1)) by {
                if j < n - 1 {
                    assert(e[j].0 < h);
                }
            }
            assert forall|k: u128|
                #![trigger res.1.contains_key(k)]
                (!key_in_prefix(e, n, k) || removed.contains(k)) implies res.1.contains_key(k)
                == init.1.contains_key(k) && (init.1.contains_key(k) ==> res.1[k] == init.1[k]) by {
                if removed.contains(k) {
                    assert(k != h);
                }
                if !key_in_prefix(e, n, k) {
                    assert(k != h) by {
                        if k == h {
                            assert(e[n - 1].0 == k);
                        }
                    }
                    assert(!key_in_prefix(e, n - 1, k)) by {
                        if key_in_prefix(e, n - 1, k) {
                            let j = choose|j: int| 0 <= j < n - 1 && #[trigger] e[j].0 == k;
                            assert(e[j].0 == k);
                        }
                    }
                }
                assert(a.1.contains_key(k) == init.1.contains_key(k));
                assert(res.1.contains_key(k) == a.1.contains_key(k));
                if a.1.contains_key(k) {
                    assert(res.1[k] == a.1[k]);
                }
            }
        }
    }
}

/// What a table size run leaves in the size slots, when it succeeds: a
/// removed table's size is deleted; a table with a size change that is not
/// removed holds its current size (zero when it has none) plus the change;
/// every other slot is as it was.
pub proof fn lemma_table_size_run_sizes<S: TableMetaResolver>(
    remote: &S,
    owner_slots: Map<u128, WriteCache>,
    size_slots: Map<u128, WriteCache>,
    removed: Set<u128>,
    size_changes: Map<u128, SizeDelta>,
)
    requires
        is_key_order(key_order(size_changes), size_changes),
        table_size_run(remote, owner_slots, size_slots, removed, size_changes) matches Some(r)
            && r is Ok,
    ensures
        table_size_run(remote, owner_slots, size_slots, removed, size_changes) matches Some(
            Ok(res),
        ) && {
            &&& forall|h: u128|
                #[trigger] removed.contains(h) ==> res.1.contains_key(h) && res.1[h]
                    == WriteCache::Deleted
            &&& forall|h: u128|
                !removed.contains(h) && #[trigger] size_changes.contains_key(h) ==> res.1.contains_key(
                    h,
                ) && (size_in(remote, size_slots, h) matches Ok(cur) && res.1[h] matches WriteCache::Updated(
                    WriteCacheValue::Size(m),
                ) && m == size_after(cur, size_changes[h]))
            &&& forall|h: u128|
                !removed.contains(h) && !size_changes.contains_key(h) ==> #[trigger] res.1.contains_key(
                    h,
                ) == size_slots.contains_key(h) && (size_slots.contains_key(h) ==> res.1[h]
                    == size_slots[h])
        },
{
    let e = entries_in_order(size_changes);
    lemma_entries_in_order_facts(size_changes);
    let first = run_steps(
        Map::empty(),
        owner_change_steps(remote, owner_slots, size_slots),
        entries_in_order(owner_slots.map_values(|c: WriteCache| cached_owner(c))),
    );
    let acc = first->Some_0->Ok_0;
    let start = deleted_slots(size_slots, removed);
    let init = (acc, start);
    assert(e.take(e.len() as int) =~= e);
    lemma_size_phase(remote, owner_slots, removed, init, e, e.len() as int);
    let res = table_size_run(remote, owner_slots, size_slots, removed, size_changes)->Some_0->Ok_0;
    assert forall|h: u128| #[trigger] removed.contains(h) implies res.1.contains_key(h) && res.1[h]
        == WriteCache::Deleted by {
        assert(start.contains_key(h));
    }
    assert forall|h: u128|
        !removed.contains(h) && #[trigger] size_changes.contains_key(h) implies res.1.contains_key(h)
        && (size_in(remote, size_slots, h) matches Ok(cur) && res.1[h] matches WriteCache::Updated(
        WriteCacheValue::Size(m),
    ) && m == size_after(cur, size_changes[h])) by {
        let j = choose|j: int| 0 <= j < e.len() && e[j].0 == h;
        assert(e[j].1 == size_changes[h]);
        assert(size_in(remote, start, h) == size_in(remote, size_slots, h));
    }
    assert forall|h: u128|
        !removed.contains(h) && !size_changes.contains_key(h) implies #[trigger] res.1.contains_key(h)
        == size_slots.contains_key(h) && (size_slots.contains_key(h) ==> res.1[h] == size_slots[h]) by {
        assert(!key_in_prefix(e, e.len() as int, h)) by {
            if key_in_prefix(e, e.len() as int, h) {
                let j = choose|j: int| 0 <= j < e.len() && #[trigger] e[j].0 == h;
                assert(size_changes.contains_key(e[j].0));
            }
        }
    }
}

/// Whether `h` is among the first `n` handles of `s`.
pub open spec fn handle_in_prefix(s: Seq<&u128>, n: int, h: u128) -> bool {
    exists|j: int| 0 <= j < n && *s[j] == h
}

/// Works out how the transaction's table changes move stored bytes between
/// accounts. A table whose owner changed moves its stored size from its old
/// root owner to the new owner's root owner, and one whose owner was deleted
/// takes its size off its old root owner. The removed tables' sizes are
/// deleted. Every other size change goes to the table's root owner, and the
/// table's new size is buffered.
pub fn resolve_table_size_change_by_account<S: TableMetaResolver>(
    removed_tables: &BTreeSet<TableHandle>,
    table_size_change: &SizeChangeSet,
    data_cache: &mut TableMetaDataCache<'_, S>,
) -> (r: Result<SizeChangeSet, VMError>)
    requires
        old(data_cache).wf(),
        table_size_run(
            old(data_cache).remote(),
            old(data_cache).owner_slots(),
            old(data_cache).size_slots(),
            removed_tables@,
            table_size_change.view(),
        ) is Some,
    ensures
        final(data_cache).wf(),
        final(data_cache).remote() == old(data_cache).remote(),
        final(data_cache).owner_slots() == old(data_cache).owner_slots(),
        match table_size_run(
            old(data_cache).remote(),
            old(data_cache).owner_slots(),
            old(data_cache).size_slots(),
            removed_tables@,
            table_size_change.view(),
        ) {
            Some(Ok((acc, slots))) => {
                &&& r matches Ok(d) && d.view() == acc
                &&& final(data_cache).size_slots() == slots
            },
            Some(Err(e)) => r == Err::<SizeChangeSet, VMError>(e),
            None => false,
        },
{
    let ghost remote = data_cache.remote();
    let ghost owner_slots = data_cache.owner_slots();
    let ghost size_slots0 = data_cache.size_slots();
    let ghost removed = removed_tables@;
    let ghost sizes = table_size_change.view();
    let ghost whole = table_size_run(remote, owner_slots, size_slots0, removed, sizes);
    let ghost step1 = owner_change_steps(remote, owner_slots, size_slots0);
    let mut accounts_delta = SizeChangeSet::default();

    // sizes stored before this transaction follow their tables' owner changes
    let owner_changes = data_cache.get_owner_changes();
    let changes = entries_of(&owner_changes);
    let ghost changes_seq = changes@;
    let mut i: usize = 0;
    while i < changes.len()
        invariant
            data_cache.wf(),
            data_cache.remote() == remote,
            data_cache.owner_slots() == owner_slots,
            data_cache.size_slots() == size_slots0,
            changes@ == changes_seq,
            changes_seq == entries_in_order(owner_slots.map_values(|c: WriteCache| cached_owner(c))),
            whole == table_size_run(remote, owner_slots, size_slots0, removed, sizes),
            whole is Some,
            step1 == owner_change_steps(remote, owner_slots, size_slots0),
            i <= changes.len(),
            run_steps(Map::empty(), step1, changes_seq.take(i as int)) == Some(
                Ok::<Map<u128, SizeDelta>, VMError>(accounts_delta.view()),
            ),
        decreases changes.len() - i,
    {
        let ghost acc = accounts_delta.view();
        let (handle, owner) = changes[i];
        let ghost next = owner_change_step(remote, owner_slots, size_slots0, acc, handle, owner);
        proof {
            lemma_run_steps_next(Map::empty(), step1, changes_seq, i as int);
            assert(run_steps(Map::empty(), step1, changes_seq.take(i + 1)) == next);
            lemma_run_steps_stopped(Map::empty(), step1, changes_seq, i + 1);
            assert(next is Some);
            assert(next matches Some(Err(e)) ==> whole == Some(
                Err::<(Map<u128, SizeDelta>, Map<u128, WriteCache>), VMError>(e),
            ));
        }
        let size = match data_cache.get_size(&handle)? {
            Some(s) => s,
            None => {
                i = i + 1;
                continue;
            },
        };
        let old_owner = data_cache.get_old_root_owner(&handle)?.unwrap();
        match owner {
            Some(new_owner) => {
                let new_root_owner = data_cache.get_root_owner(&new_owner)?.unwrap();
                accounts_delta.move_size(old_owner, new_root_owner, size);
            },
            None => {
                let delta = SizeDelta::decreasing(size);
                accounts_delta.insert_size(old_owner, delta);
            },
        }
        i = i + 1;
    }
    proof {
        assert(changes_seq.take(changes_seq.len() as int) =~= changes_seq);
    }
    let ghost acc1 = accounts_delta.view();

    // the removed tables' sizes are deleted
    delete_slots(removed_tables, TableMetaType::Size, data_cache);
    let ghost slots2 = data_cache.size_slots();

    // every other size change goes to the table's root owner
    let ghost step3 = size_change_steps(remote, owner_slots, removed);
    let entries = entries_of(table_size_change.changes());
    let ghost entries_seq = entries@;
    let mut i: usize = 0;
    while i < entries.len()
        invariant
            data_cache.wf(),
            data_cache.remote() == remote,
            data_cache.owner_slots() == owner_slots,
            remote == old(data_cache).remote(),
            owner_slots == old(data_cache).owner_slots(),
            size_slots0 == old(data_cache).size_slots(),
            sizes == table_size_change.view(),
            removed == removed_tables@,
            entries@ == entries_seq,
            entries_seq == entries_in_order(sizes),
            whole == table_size_run(remote, owner_slots, size_slots0, removed, sizes),
            whole == run_steps((acc1, slots2), step3, entries_seq),
            whole is Some,
            step3 == size_change_steps(remote, owner_slots, removed),
            i <= entries.len(),
            run_steps((acc1, slots2), step3, entries_seq.take(i as int)) == Some(
                Ok::<(Map<u128, SizeDelta>, Map<u128, WriteCache>), VMError>(
                    (accounts_delta.view(), data_cache.size_slots()),
                ),
            ),
        decreases entries.len() - i,
    {
        let ghost acc = accounts_delta.view();
        let ghost slots = data_cache.size_slots();
        let (handle, size_delta) = entries[i];
        let ghost next = size_change_step(remote, owner_slots, removed, acc, slots, handle, size_delta);
        proof {
            lemma_run_steps_next((acc1, slots2), step3, entries_seq, i as int);
            assert(run_steps((acc1, slots2), step3, entries_seq.take(i + 1)) == next);
            lemma_run_steps_stopped((acc1, slots2), step3, entries_seq, i + 1);
            assert(next is Some);
            assert(next matches Some(Err(e)) ==> whole == Some(
                Err::<(Map<u128, SizeDelta>, Map<u128, WriteCache>), VMError>(e),
            ));
        }
        if removed_tables.contains(&handle) {
            i = i + 1;
            continue;
        }
        let owner = data_cache.get_root_owner(&handle)?.unwrap();
        accounts_delta.insert_size(owner, size_delta);
        let current_size = match data_cache.get_size(&handle)? {
            Some(n) => n,
            None => 0,
        };
        let mut delta = SizeDelta::increasing(current_size);
        delta.merge(size_delta);
        assert(!delta.is_decrease);
        data_cache.set_size(&handle, delta.amount);
        i = i + 1;
    }
    proof {
        assert(entries_seq.take(entries_seq.len() as int) =~= entries_seq);
    }
    Ok(accounts_delta)
}

/// Deletes the slot of kind `meta` of each table of `removed`.
fn delete_slots<S: TableMetaResolver>(
    removed: &BTreeSet<TableHandle>,
    meta: TableMetaType,
    data_cache: &mut TableMetaDataCache<'_, S>,
)
    requires
        old(data_cache).wf(),
    ensures
        final(data_cache).wf(),
        final(data_cache).remote() == old(data_cache).remote(),
        meta is Owner ==> final(data_cache).owner_slots() == deleted_slots(
            old(data_cache).owner_slots(),
            removed@,
        ) && final(data_cache).size_slots() == old(data_cache).size_slots(),
        meta is Size ==> final(data_cache).size_slots() == deleted_slots(
            old(data_cache).size_slots(),
            removed@,
        ) && final(data_cache).owner_slots() == old(data_cache).owner_slots(),
{
    let ghost remote = data_cache.remote();
    let ghost owner_slots0 = data_cache.owner_slots();
    let ghost size_slots0 = data_cache.size_slots();
    let ghost deleted = removed@;
    let ghost start = if meta is Owner {
        owner_slots0
    } else {
        size_slots0
    };
    let iter = removed.iter();
    proof {
        assert forall|h: u128| deleted.contains(h) implies handle_in_prefix(
            iter.remaining(),
            iter.remaining().len() as int,
            h,
        ) by {
            assert(iter.remaining().unref().to_set().contains(h));
            assert(iter.remaining().unref().contains(h));
            let j = choose|j: int| 0 <= j < iter.remaining().len() && iter.remaining().unref()[j] == h;
            assert(*iter.remaining()[j] == h);
        }
        assert forall|j: int| 0 <= j < iter.remaining().len() implies deleted.contains(
            *#[trigger] iter.remaining()[j],
        ) by {
            assert(iter.remaining().unref()[j] == *iter.remaining()[j]);
            assert(iter.remaining().unref().contains(*iter.remaining()[j]));
            assert(iter.remaining().unref().to_set().contains(*iter.remaining()[j]));
        }
    }
    for h in it: iter
        invariant
            data_cache.wf(),
            data_cache.remote() == remote,
            meta is Owner ==> data_cache.size_slots() == size_slots0,
            meta is Size ==> data_cache.owner_slots() == owner_slots0,
            start == if meta is Owner {
                owner_slots0
            } else {
                size_slots0
            },
            forall|k: u128| deleted.contains(k) ==> handle_in_prefix(it.seq(), it.seq().len() as int, k),
            forall|j: int| 0 <= j < it.seq().len() ==> deleted.contains(*#[trigger] it.seq()[j]),
            forall|k: u128|
                #![trigger data_cache.slots_of(meta).contains_key(k)]
                data_cache.slots_of(meta).contains_key(k) == (start.contains_key(k) || handle_in_prefix(
                    it.seq(),
                    it.index() as int,
                    k,
                )),
            forall|k: u128|
                #![trigger data_cache.slots_of(meta).contains_key(k)]
                data_cache.slots_of(meta).contains_key(k) ==> data_cache.slots_of(meta)[k] == (
                if handle_in_prefix(it.seq(), it.index() as int, k) {
                    WriteCache::Deleted
                } else {
                    start[k]
                }),
        ensures
            data_cache.wf(),
            data_cache.remote() == remote,
            meta is Owner ==> data_cache.size_slots() == size_slots0,
            meta is Size ==> data_cache.owner_slots() == owner_slots0,
            data_cache.slots_of(meta) == deleted_slots(start, deleted),
    {
        let ghost idx = it.index() as int;
        proof {
            assert(*it.seq()[idx] == *h);
            assert forall|k: u128|
                handle_in_prefix(it.seq(), idx + 1, k) == (handle_in_prefix(it.seq(), idx, k) || k
                    == *h) by {
                if handle_in_prefix(it.seq(), idx + 1, k) && k != *h {
                    let j = choose|j: int| 0 <= j < idx + 1 && *it.seq()[j] == k;
                    assert(j < idx);
                }
            }
        }
        match meta {
            TableMetaType::Owner => data_cache.del_owner(h),
            TableMetaType::Size => data_cache.del_size(h),
        }
    }
}

/// A step of table-handle filtering: `address` is kept when it is the handle
/// of a new table, or of a table that is registered (has a buffered owner
/// slot, or stored owner metadata) with owner slots `owner_slots`.
pub open spec fn handle_filter<S: TableMetaResolver>(
    remote: &S,
    new_tables: Set<u128>,
    owner_slots: Map<u128, WriteCache>,
) -> spec_fn(Seq<u128>, u128) -> Option<Result<Seq<u128>, VMError>> {
    |kept: Seq<u128>, address: u128|
        if new_tables.contains(address) || owner_slots.contains_key(address) {
            Some(Ok(kept.push(address)))
        } else {
            match remote.table_meta(address, TableMetaType::Owner) {
                Err(e) => Some(Err(e)),
                Ok(None) => Some(Ok(kept)),
                Ok(Some(_)) => Some(Ok(kept.push(address))),
            }
        }
}

/// The plain content of a list of handles, or the error.
pub open spec fn handles_view(r: Result<Vec<TableHandle>, VMError>) -> Result<Seq<u128>, VMError> {
    match r {
        Ok(v) => Ok(v@),
        Err(e) => Err(e),
    }
}

/// The addresses of `address_list` that are table handles: those of the new
/// tables, and those of tables that are registered, in list order.
fn filter_table_handle<S: TableMetaResolver>(
    new_tables: &BTreeSet<TableHandle>,
    data_cache: &TableMetaDataCache<'_, S>,
    address_list: &Vec<u128>,
) -> (r: Result<Vec<TableHandle>, VMError>)
    ensures
        run_steps(
            Seq::empty(),
            handle_filter(data_cache.remote(), new_tables@, data_cache.owner_slots()),
            address_list@,
        ) == Some(handles_view(r)),
{
    let ghost step = handle_filter(data_cache.remote(), new_tables@, data_cache.owner_slots());
    let mut res: Vec<TableHandle> = Vec::new();
    let mut i: usize = 0;
    while i < address_list.len()
        invariant
            step == handle_filter(data_cache.remote(), new_tables@, data_cache.owner_slots()),
            i <= address_list.len(),
            run_steps(Seq::empty(), step, address_list@.take(i as int)) == Some(
                Ok::<Seq<u128>, VMError>(res@),
            ),
        decreases address_list.len() - i,
    {
        let handle = address_list[i];
        proof {
            lemma_run_steps_next(Seq::empty(), step, address_list@, i as int);
            lemma_run_steps_stopped(Seq::empty(), step, address_list@, i + 1);
        }
        // the address is a new table's handle or an already stored table's handle
        if new_tables.contains(&handle) || data_cache.is_registerd_table(&handle)? {
            res.push(handle);
        }
        i = i + 1;
    }
    proof {
        assert(address_list@.take(address_list@.len() as int) =~= address_list@);
    }
    Ok(res)
}

/// `slots` with an owner slot holding `owner` for each handle of `handles`.
pub open spec fn owned_by(slots: Map<u128, WriteCache>, handles: Seq<u128>, owner: u128) -> Map<
    u128,
    WriteCache,
> {
    Map::new(
        |h: u128| slots.contains_key(h) || handles.contains(h),
        |h: u128|
            if handles.contains(h) {
                WriteCache::Updated(WriteCacheValue::Owner(owner))
            } else {
                slots[h]
            },
    )
}

/// A step of ownership resolution over a claim `(owner, addresses)`: the
/// addresses that are table handles get `owner` as owner.
pub open spec fn claim_step<S: TableMetaResolver>(remote: &S, new_tables: Set<u128>) -> spec_fn(
    Map<u128, WriteCache>,
    (u128, Vec<u128>),
) -> Option<Result<Map<u128, WriteCache>, VMError>> {
    |slots: Map<u128, WriteCache>, claim: (u128, Vec<u128>)|
        match run_steps(Seq::empty(), handle_filter(remote, new_tables, slots), claim.1@) {
            Some(Ok(handles)) => Some(Ok(owned_by(slots, handles, claim.0))),
            Some(Err(e)) => Some(Err(e)),
            None => None,
        }
}

/// Ownership resolution from owner slots `owner_slots`: the removed tables'
/// owners are deleted; then each table handle found in a written resource is
/// owned by the account that holds the resource, and each one found in a
/// written table entry by the table that holds the entry. It comes to the
/// buffered owner slots, or an error read from storage.
pub open spec fn ownership_run<S: TableMetaResolver>(
    remote: &S,
    new_tables: Set<u128>,
    removed: Set<u128>,
    owner_slots: Map<u128, WriteCache>,
    resource_addresses: Seq<(u128, Vec<u128>)>,
    table_entry_addresses: Seq<(u128, Vec<u128>)>,
) -> Option<Result<Map<u128, WriteCache>, VMError>> {
    match run_steps(
        deleted_slots(owner_slots, removed),
        claim_step(remote, new_tables),
        resource_addresses,
    ) {
        Some(Ok(slots)) => run_steps(slots, claim_step(remote, new_tables), table_entry_addresses),
        stopped => stopped,
    }
}

/// Gives each handle of `handles` the owner `owner`.
fn set_owners<S: TableMetaResolver>(
    handles: &Vec<TableHandle>,
    owner: u128,
    data_cache: &mut TableMetaDataCache<'_, S>,
)
    requires
        old(data_cache).wf(),
    ensures
        final(data_cache).wf(),
        final(data_cache).remote() == old(data_cache).remote(),
        final(data_cache).size_slots() == old(data_cache).size_slots(),
        final(data_cache).owner_slots() == owned_by(old(data_cache).owner_slots(), handles@, owner),
{
    let ghost start = data_cache.owner_slots();
    let mut j: usize = 0;
    while j < handles.len()
        invariant
            data_cache.wf(),
            data_cache.remote() == old(data_cache).remote(),
            data_cache.size_slots() == old(data_cache).size_slots(),
            start == old(data_cache).owner_slots(),
            j <= handles.len(),
            data_cache.owner_slots() == owned_by(start, handles@.take(j as int), owner),
        decreases handles.len() - j,
    {
        let ghost before = data_cache.owner_slots();
        data_cache.set_owner(&handles[j], owner);
        proof {
            let t = handles@.take(j as int);
            let t1 = handles@.take(j + 1);
            assert forall|h: u128| t1.contains(h) == (t.contains(h) || h == handles@[j as int]) by {
                if t1.contains(h) && h != handles@[j as int] {
                    let k = choose|k: int| 0 <= k < t1.len() && t1[k] == h;
                    assert(t[k] == h);
                }
                if h == handles@[j as int] {
                    assert(t1[j as int] == h);
                }
                if t.contains(h) {
                    let k = choose|k: int| 0 <= k < t.len() && t[k] == h;
                    assert(t1[k] == h);
                }
            }
            assert(data_cache.owner_slots() =~= owned_by(start, t1, owner));
        }
        j = j + 1;
    }
    proof {
        assert(handles@.take(handles@.len() as int) =~= handles@);
    }
}

/// Runs each claim of `claims` over the cache's owner slots.
fn apply_claims<S: TableMetaResolver>(
    new_tables: &BTreeSet<TableHandle>,
    claims: &Vec<(u128, Vec<u128>)>,
    data_cache: &mut TableMetaDataCache<'_, S>,
) -> (r: Result<(), VMError>)
    requires
        old(data_cache).wf(),
    ensures
        final(data_cache).wf(),
        final(data_cache).remote() == old(data_cache).remote(),
        final(data_cache).size_slots() == old(data_cache).size_slots(),
        match run_steps(
            old(data_cache).owner_slots(),
            claim_step(old(data_cache).remote(), new_tables@),
            claims@,
        ) {
            Some(Ok(slots)) => r is Ok && final(data_cache).owner_slots() == slots,
            Some(Err(e)) => r == Err::<(), VMError>(e),
            None => false,
        },
{
    let ghost remote = data_cache.remote();
    let ghost start = data_cache.owner_slots();
    let ghost step = claim_step(remote, new_tables@);
    let mut i: usize = 0;
    while i < claims.len()
        invariant
            data_cache.wf(),
            data_cache.remote() == remote,
            remote == old(data_cache).remote(),
            start == old(data_cache).owner_slots(),
            data_cache.size_slots() == old(data_cache).size_slots(),
            step == claim_step(remote, new_tables@),
            i <= claims.len(),
            run_steps(start, step, claims@.take(i as int)) == Some(
                Ok::<Map<u128, WriteCache>, VMError>(data_cache.owner_slots()),
            ),
        decreases claims.len() - i,
    {
        proof {
            lemma_run_steps_next(start, step, claims@, i as int);
            lemma_run_steps_stopped(start, step, claims@, i + 1);
        }
        let (owner, addresses) = &claims[i];
        let handles = filter_table_handle(new_tables, data_cache, addresses)?;
        set_owners(&handles, *owner, data_cache);
        i = i + 1;
    }
    proof {
        assert(claims@.take(claims@.len() as int) =~= claims@);
    }
    Ok(())
}

/// Works out the tables' owners from what the transaction wrote. The removed
/// tables' owners are deleted. `resource_addresses` holds, for each resource
/// written, the account that holds it and the addresses found in its new
/// value; `table_entry_addresses` holds, for each table entry written, the
/// table that holds it and the addresses found in its new value. Each address
/// that is a table handle (of a new table, or of a registered one) gets the
/// holder as owner.
pub fn resolve_table_ownership<S: TableMetaResolver>(
    new_tables: &BTreeSet<TableHandle>,
    removed_tables: &BTreeSet<TableHandle>,
    resource_addresses: &Vec<(u128, Vec<u128>)>,
    table_entry_addresses: &Vec<(u128, Vec<u128>)>,
    data_cache: &mut TableMetaDataCache<'_, S>,
) -> (r: Result<(), VMError>)
    requires
        old(data_cache).wf(),
    ensures
        final(data_cache).wf(),
        final(data_cache).remote() == old(data_cache).remote(),
        final(data_cache).size_slots() == old(data_cache).size_slots(),
        match ownership_run(
            old(data_cache).remote(),
            new_tables@,
            removed_tables@,
            old(data_cache).owner_slots(),
            resource_addresses@,
            table_entry_addresses@,
        ) {
            Some(Ok(slots)) => r is Ok && final(data_cache).owner_slots() == slots,
            Some(Err(e)) => r == Err::<(), VMError>(e),
            None => false,
        },
{
    delete_slots(removed_tables, TableMetaType::Owner, data_cache);
    apply_claims(new_tables, resource_addresses, data_cache)?;
    apply_claims(new_tables, table_entry_addresses, data_cache)?;
    Ok(())
}

/// Table metadata resolution over the stored metadata that `remote` reads:
/// ownership, then sizes. It comes to the per-account size changes and the
/// buffered owner and size slots, or an error read from storage; `None`
/// where it does not come back.
pub open spec fn table_meta_run<S: TableMetaResolver>(
    remote: &S,
    new_tables: Set<u128>,
    removed: Set<u128>,
    resource_addresses: Seq<(u128, Vec<u128>)>,
    table_entry_addresses: Seq<(u128, Vec<u128>)>,
    size_changes: Map<u128, SizeDelta>,
) -> Option<Result<(Map<u128, SizeDelta>, Map<u128, WriteCache>, Map<u128, WriteCache>), VMError>> {
    match ownership_run(
        remote,
        new_tables,
        removed,
        Map::empty(),
        resource_addresses,
        table_entry_addresses,
    ) {
        None => None,
        Some(Err(e)) => Some(Err(e)),
        Some(Ok(owner_slots)) => match table_size_run(
            remote,
            owner_slots,
            Map::empty(),
            removed,
            size_changes,
        ) {
            None => None,
            Some(Err(e)) => Some(Err(e)),
            Some(Ok((acc, size_slots))) => Some(Ok((acc, owner_slots, size_slots))),
        },
    }
}

/// Resolves the transaction's table changes against the stored table
/// metadata: who owns each table afterwards, what each table's size is, and
/// how many stored bytes each account gains or loses. Gives the per-account
/// size changes and the table metadata writes to make.
pub fn resolve_table_size_change<S: TableMetaResolver>(
    new_tables: &BTreeSet<TableHandle>,
    removed_tables: &BTreeSet<TableHandle>,
    resource_addresses: &Vec<(u128, Vec<u128>)>,
    table_entry_addresses: &Vec<(u128, Vec<u128>)>,
    table_size_change: &SizeChangeSet,
    remote: &S,
) -> (r: Result<(SizeChangeSet, TableMetaChangeSet), VMError>)
    requires
        table_meta_run(
            remote,
            new_tables@,
            removed_tables@,
            resource_addresses@,
            table_entry_addresses@,
            table_size_change.view(),
        ) is Some,
    ensures
        match table_meta_run(
            remote,
            new_tables@,
            removed_tables@,
            resource_addresses@,
            table_entry_addresses@,
            table_size_change.view(),
        ) {
            Some(Ok((acc, owner_slots, size_slots))) => {
                &&& r matches Ok((accounts, meta)) && accounts.view() == acc
                &&& r matches Ok((accounts, meta)) && slot_writes(meta.owner@, owner_slots)
                    && slot_writes(meta.size@, size_slots)
            },
            Some(Err(e)) => r == Err::<(SizeChangeSet, TableMetaChangeSet), VMError>(e),
            None => false,
        },
{
    let mut data_cache = TableMetaDataCache::new(remote);
    resolve_table_ownership(
        new_tables,
        removed_tables,
        resource_addresses,
        table_entry_addresses,
        &mut data_cache,
    )?;
    let accounts_table_size_changes = resolve_table_size_change_by_account(
        removed_tables,
        table_size_change,
        &mut data_cache,
    )?;
    let meta_change_set = data_cache.into_change_set()?;
    Ok((accounts_table_size_changes, meta_change_set))
}

/// The table part of finishing a script or entry function run: the table
/// changes are resolved against the stored metadata, and the accounts' size
/// changes that the tables cause are added to `account_size_changes`. Gives
/// the table metadata writes to make. On an error the account changes are
/// left as they were.
pub fn add_table_size_changes<S: TableMetaResolver>(
    account_size_changes: &mut SizeChangeSet,
    new_tables: &BTreeSet<TableHandle>,
    removed_tables: &BTreeSet<TableHandle>,
    resource_addresses: &Vec<(u128, Vec<u128>)>,
    table_entry_addresses: &Vec<(u128, Vec<u128>)>,
    table_size_change: &SizeChangeSet,
    remote: &S,
) -> (r: Result<TableMetaChangeSet, VMError>)
    requires
        table_meta_run(
            remote,
            new_tables@,
            removed_tables@,
            resource_addresses@,
            table_entry_addresses@,
            table_size_change.view(),
        ) is Some,
        table_meta_run(
            remote,
            new_tables@,
            removed_tables@,
            resource_addresses@,
            table_entry_addresses@,
            table_size_change.view(),
        ) matches Some(Ok((acc, _, _))) ==> forall|k: u128|
            #![trigger acc.contains_key(k)]
            acc.contains_key(k) && old(account_size_changes).view().contains_key(k) ==> old(
                account_size_changes,
            ).view()[k].can_merge(acc[k]),
    ensures
        match table_meta_run(
            remote,
            new_tables@,
            removed_tables@,
            resource_addresses@,
            table_entry_addresses@,
            table_size_change.view(),
        ) {
            Some(Ok((acc, owner_slots, size_slots))) => {
                &&& r matches Ok(meta) && slot_writes(meta.owner@, owner_slots) && slot_writes(
                    meta.size@,
                    size_slots,
                )
                &&& forall|k: u128| #[trigger]
                    final(account_size_changes).change(k) == old(account_size_changes).change(k)
                        + change_of(acc, k)
            },
            Some(Err(e)) => {
                &&& r == Err::<TableMetaChangeSet, VMError>(e)
                &&& final(account_size_changes).view() == old(account_size_changes).view()
            },
            None => false,
        },
{
    let (accounts, meta) = resolve_table_size_change(
        new_tables,
        removed_tables,
        resource_addresses,
        table_entry_addresses,
        table_size_change,
        remote,
    )?;
    account_size_changes.merge(accounts);
    Ok(meta)
}

} // verus!
