//! An in-memory chain store, for running the VM without a host: each access
//! path holds a value, or a tombstone once deleted.

use crate::state_key::AccessPath;
use crate::storage::{find_path, unique_paths, StateView};
use crate::table_meta::effects::Op;
use vstd::prelude::*;

verus! {

/// The value a write leaves: the written bytes, or none once deleted.
pub open spec fn written_value(op: Op<Vec<u8>>) -> Option<Seq<u8>> {
    match op {
        Op::New(blob) => Some(blob@),
        Op::Modify(blob) => Some(blob@),
        Op::Delete => None,
    }
}

/// What a read of `key` gives from `contents`: the value held, none where
/// there is none (or a tombstone).
pub open spec fn read_value(contents: Map<(u128, Seq<u8>), Option<Seq<u8>>>, key: (u128, Seq<u8>)) -> Option<Seq<u8>> {
    if contents.contains_key(key) {
        contents[key]
    } else {
        None
    }
}

/// The plain content of a stored value.
pub open spec fn value_view(v: Option<Vec<u8>>) -> Option<Seq<u8>> {
    match v {
        Some(b) => Some(b@),
        None => None,
    }
}

/// An in-memory chain store.
#[allow(clippy::upper_case_acronyms)]
pub struct DB {
    map: Vec<(AccessPath, Option<Vec<u8>>)>,
}

impl DB {
    /// Every access path is held at most once.
    pub closed spec fn wf(&self) -> bool {
        unique_paths(self.map@)
    }

    /// What the store holds, by access path (a `None` is a tombstone).
    pub closed spec fn contents(&self) -> Map<(u128, Seq<u8>), Option<Seq<u8>>> {
        Map::new(
            |k: (u128, Seq<u8>)| exists|i: int| 0 <= i < self.map@.len() && #[trigger] self.map@[i].0@ == k,
            |k: (u128, Seq<u8>)| {
                let i = choose|i: int| 0 <= i < self.map@.len() && #[trigger] self.map@[i].0@ == k;
                value_view(self.map@[i].1)
            },
        )
    }

    pub fn new() -> (r: DB)
        ensures
            r.wf(),
            r.contents() == Map::<(u128, Seq<u8>), Option<Seq<u8>>>::empty(),
    {
        let r = DB { map: Vec::new() };
        assert(r.contents() =~= Map::<(u128, Seq<u8>), Option<Seq<u8>>>::empty());
        r
    }

    /// Applies one write: the path holds the written bytes, or a tombstone
    /// once deleted.
    pub fn write_op(&mut self, ap: AccessPath, blob_opt: Op<Vec<u8>>)
        requires
            old(self).wf(),
        ensures
            final(self).wf(),
            final(self).contents() == old(self).contents().insert(ap@, written_value(blob_opt)),
    {
        let value = match blob_opt {
            Op::New(blob) => Some(blob),
            Op::Modify(blob) => Some(blob),
            Op::Delete => None,
        };
        let ghost before = self.contents();
        let ghost old_map = self.map@;
        let ghost key = ap@;
        let ghost v = value_view(value);
        match find_path(&self.map, &ap) {
            Some(i) => {
                self.map.set(i, (ap, value));
                proof {
                    assert forall|a: int, b: int| 0 <= a < b < self.map@.len() implies (#[trigger] self.map@[a]).0@
                        != (#[trigger] self.map@[b]).0@ by {
                        assert(old_map[a].0@ != old_map[b].0@);
                    }
                    assert forall|k: (u128, Seq<u8>)| #[trigger] self.contents().contains_key(k)
                        == before.insert(key, v).contains_key(k) by {
                        if self.contents().contains_key(k) && k != key {
                            let j = choose|j: int| 0 <= j < self.map@.len() && #[trigger] self.map@[j].0@ == k;
                            assert(old_map[j].0@ == k);
                        }
                        if before.contains_key(k) {
                            let j = choose|j: int| 0 <= j < old_map.len() && #[trigger] old_map[j].0@ == k;
                            assert(self.map@[j].0@ == k);
                        }
                        if k == key {
                            assert(self.map@[i as int].0@ == k);
                        }
                    }
                    assert forall|k: (u128, Seq<u8>)| #[trigger] self.contents().contains_key(k)
                        implies self.contents()[k] == before.insert(key, v)[k] by {
                        let j = choose|j: int| 0 <= j < self.map@.len() && #[trigger] self.map@[j].0@ == k;
                        if k == key {
                            assert(self.map@[i as int].0@ == k);
                            assert(j == i);
                        } else {
                            assert(old_map[j].0@ == k);
                            let j0 = choose|j: int| 0 <= j < old_map.len() && #[trigger] old_map[j].0@ == k;
                            assert(j0 == j);
                        }
                    }
                    assert(self.contents() =~= before.insert(key, v));
                }
            },
            None => {
                self.map.push((ap, value));
                proof {
                    let n = old_map.len() as int;
                    assert(self.map@[n].0@ == key);
                    assert forall|k: (u128, Seq<u8>)| #[trigger] self.contents().contains_key(k)
                        == before.insert(key, v).contains_key(k) by {
                        if k != key && self.contents().contains_key(k) {
                            let j = choose|j: int| 0 <= j < self.map@.len() && #[trigger] self.map@[j].0@ == k;
                            assert(old_map[j].0@ == k);
                        }
                        if before.contains_key(k) {
                            let j = choose|j: int| 0 <= j < old_map.len() && #[trigger] old_map[j].0@ == k;
                            assert(self.map@[j].0@ == k);
                        }
                    }
                    assert forall|k: (u128, Seq<u8>)| #[trigger] self.contents().contains_key(k)
                        implies self.contents()[k] == before.insert(key, v)[k] by {
                        let j = choose|j: int| 0 <= j < self.map@.len() && #[trigger] self.map@[j].0@ == k;
                        if k == key {
                            assert(j == n);
                        } else {
                            assert(old_map[j].0@ == k);
                            let j0 = choose|j: int| 0 <= j < old_map.len() && #[trigger] old_map[j].0@ == k;
                            assert(j0 == j);
                        }
                    }
                    assert(self.contents() =~= before.insert(key, v));
                }
            },
        }
    }

    /// Applies the writes in order.
    pub fn push_write_set(&mut self, writes: Vec<(AccessPath, Op<Vec<u8>>)>)
        requires
            old(self).wf(),
        ensures
            final(self).wf(),
            final(self).contents() == written_all(
                old(self).contents(),
                writes@.map_values(|w: (AccessPath, Op<Vec<u8>>)| (w.0@, written_value(w.1))),
            ),
    {
        let ghost start = self.contents();
        let ghost ws = writes@.map_values(|w: (AccessPath, Op<Vec<u8>>)| (w.0@, written_value(w.1)));
        for w in it: writes.into_iter()
            invariant
                self.wf(),
                it.seq() == writes@,
                ws == writes@.map_values(|w: (AccessPath, Op<Vec<u8>>)| (w.0@, written_value(w.1))),
                self.contents() == written_all(start, ws.take(it.index() as int)),
        {
            let ghost idx = it.index() as int;
            let (ap, op) = w;
            self.write_op(ap, op);
            proof {
                assert(ws.take(idx + 1).drop_last() =~= ws.take(idx));
            }
        }
        proof {
            assert(ws.take(ws.len() as int) =~= ws);
        }
    }
}

/// `contents` after the writes `ws` (path, value left), in order.
pub open spec fn written_all(
    contents: Map<(u128, Seq<u8>), Option<Seq<u8>>>,
    ws: Seq<((u128, Seq<u8>), Option<Seq<u8>>)>,
) -> Map<(u128, Seq<u8>), Option<Seq<u8>>>
    decreases ws.len(),
{
    if ws.len() == 0 {
        contents
    } else {
        written_all(contents, ws.drop_last()).insert(ws.last().0, ws.last().1)
    }
}

/// The first entry of `map` under `key`.
pub open spec fn first_index(map: Seq<(AccessPath, Option<Vec<u8>>)>, key: (u128, Seq<u8>)) -> int {
    choose|i: int|
        0 <= i < map.len() && #[trigger] map[i].0@ == key && forall|j: int|
            0 <= j < i ==> (#[trigger] map[j]).0@ != key
}

/// What the first entry of `map` under `key` holds; none where there is
/// no such entry.
pub open spec fn first_value(map: Seq<(AccessPath, Option<Vec<u8>>)>, key: (u128, Seq<u8>)) -> Option<
    Seq<u8>,
> {
    if exists|i: int| 0 <= i < map.len() && #[trigger] map[i].0@ == key {
        value_view(map[first_index(map, key)].1)
    } else {
        None
    }
}

impl StateView for DB {
    /// A read never fails and gives what the store holds under the path.
    closed spec fn stored(&self, key: (u128, Seq<u8>)) -> Result<Option<Seq<u8>>, anyhow::Error> {
        Ok(first_value(self.map@, key))
    }

    /// The value held at `access_path`; none where there is none.
    fn get(&self, access_path: &AccessPath) -> (r: Result<Option<Vec<u8>>, anyhow::Error>)
        ensures
            self.wf() ==> (r matches Ok(v) && value_view(v) == read_value(self.contents(), access_path@)),
    {
        match find_path(&self.map, access_path) {
            Some(i) => {
                proof {
                    let k = first_index(self.map@, access_path@);
                    assert(self.map@[i as int].0@ == access_path@);
                    assert(k == i) by {
                        if k < i {
                            assert(self.map@[k].0@ != access_path@);
                        } else if k > i {
                            assert(self.map@[i as int].0@ != access_path@);
                        }
                    }
                    if self.wf() {
                        let j = choose|j: int| 0 <= j < self.map@.len() && #[trigger] self.map@[j].0@ == access_path@;
                        assert(self.map@[i as int].0@ == access_path@);
                        assert(i == j);
                    }
                }
                Ok(self.map[i].1.clone())
            },
            None => {
                proof {
                    if self.contents().contains_key(access_path@) {
                        let j = choose|j: int| 0 <= j < self.map@.len() && #[trigger] self.map@[j].0@ == access_path@;
                        assert(self.map@[j].0@ != access_path@);
                    }
                }
                Ok(None)
            },
        }
    }
}

/// A read gives back what the last write to the same path left (the bytes,
/// or nothing once deleted), and a write leaves every other path's read as
/// it was.
pub proof fn lemma_read_after_write(
    contents: Map<(u128, Seq<u8>), Option<Seq<u8>>>,
    key: (u128, Seq<u8>),
    op: Op<Vec<u8>>,
    other: (u128, Seq<u8>),
)
    ensures
        read_value(contents.insert(key, written_value(op)), key) == written_value(op),
        other != key ==> read_value(contents.insert(key, written_value(op)), other) == read_value(
            contents,
            other,
        ),
{
}

} // verus!
