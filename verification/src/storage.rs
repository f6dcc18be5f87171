//! Reading the chain's state: the view the host provides, and the resolver
//! the VM reads through, which records the stored size of every entry it
//! reads.

use crate::state_key::AccessPath;
use crate::vm_status::{VMError, STORAGE_ERROR};
use vstd::prelude::*;

verus! {

#[verifier::external_type_specification]
#[verifier::external_body]
pub struct ExAnyhowError(anyhow::Error);

/// The plain content of a read of the chain's state.
pub open spec fn state_read_view(r: Result<Option<Vec<u8>>, anyhow::Error>) -> Result<
    Option<Seq<u8>>,
    anyhow::Error,
> {
    match r {
        Ok(Some(v)) => Ok(Some(v@)),
        Ok(None) => Ok(None),
        Err(e) => Err(e),
    }
}

/// What the VM makes of a read of the chain's state when it resolves a
/// module, a resource or table metadata: the value (or none) is handed on,
/// and any failure becomes `STORAGE_ERROR`, with no message.
pub fn storage_read_result(read: Result<Option<Vec<u8>>, anyhow::Error>) -> (r: Result<
    Option<Vec<u8>>,
    VMError,
>)
    ensures
        read matches Ok(v) ==> r == Ok::<Option<Vec<u8>>, VMError>(v),
        read is Err ==> (r matches Err(e) && e.major_status == STORAGE_ERROR && e.message is None),
{
    match read {
        Ok(v) => Ok(v),
        Err(_) => Err(VMError::new(STORAGE_ERROR)),
    }
}

/// Read access to the chain's state.
pub trait StateView {
    /// What reading the entry at `key` gives: its value, none where there is
    /// none, or the error the read fails with. An implementation verified
    /// here states it; of one that is not (such as the host's storage),
    /// nothing is known.
    closed spec fn stored(&self, key: (u128, Seq<u8>)) -> Result<Option<Seq<u8>>, anyhow::Error> {
        vstd::pervasive::arbitrary()
    }

    /// The value stored at `access_path`, `None` where there is none.
    fn get(&self, access_path: &AccessPath) -> (r: Result<Option<Vec<u8>>, anyhow::Error>)
        ensures
            state_read_view(r) == self.stored(access_path@),
    ;
}

/// The stored sizes of the entries read so far.
pub trait StoredSizeResolver {
    fn get_size(&self, access_path: &AccessPath) -> Option<usize>;
}

/// No two entries of `entries` are under the same access path.
pub open spec fn unique_paths<T>(entries: Seq<(AccessPath, T)>) -> bool {
    forall|i: int, j: int|
        0 <= i < j < entries.len() ==> (#[trigger] entries[i]).0@ != (#[trigger] entries[j]).0@
}

/// The index of the entry under `access_path`, if there is one.
pub fn find_path<T>(entries: &Vec<(AccessPath, T)>, access_path: &AccessPath) -> (r: Option<usize>)
    ensures
        r matches Some(i) ==> i < entries@.len() && entries@[i as int].0@ == access_path@,
        r matches Some(i) ==> forall|j: int|
            0 <= j < i ==> (#[trigger] entries@[j]).0@ != access_path@,
        r is None ==> forall|j: int|
            0 <= j < entries@.len() ==> (#[trigger] entries@[j]).0@ != access_path@,
{
    let mut i: usize = 0;
    while i < entries.len()
        invariant
            i <= entries@.len(),
            forall|j: int| 0 <= j < i ==> (#[trigger] entries@[j]).0@ != access_path@,
        decreases entries.len() - i,
    {
        if entries[i].0.same(access_path) {
            return Some(i);
        }
        i = i + 1;
    }
    None
}

/// The size an entry is recorded with: its key and its value, or nothing
/// when there is no value. (Both are held in memory, so their total fits a
/// `usize`; it is counted saturating.)
pub open spec fn entry_size(key_size: usize, value: Option<Vec<u8>>) -> usize {
    match value {
        Some(v) => if key_size + v@.len() <= usize::MAX {
            (key_size + v@.len()) as usize
        } else {
            usize::MAX
        },
        None => 0,
    }
}

/// Reads the chain's state through `data_view`, recording the stored size
/// of every entry as it is first read.
pub struct DataViewResolver<'a, S: StateView> {
    data_view: &'a S,
    size_cache: Vec<(AccessPath, usize)>,
}

impl<'a, S: StateView> DataViewResolver<'a, S> {
    /// Every access path is recorded at most once.
    pub closed spec fn wf(&self) -> bool {
        unique_paths(self.size_cache@)
    }

    /// The recorded sizes, by access path.
    pub closed spec fn sizes(&self) -> Map<(u128, Seq<u8>), usize> {
        Map::new(
            |k: (u128, Seq<u8>)| exists|i: int| 0 <= i < self.size_cache@.len() && #[trigger] self.size_cache@[i].0@ == k,
            |k: (u128, Seq<u8>)| {
                let i = choose|i: int| 0 <= i < self.size_cache@.len() && #[trigger] self.size_cache@[i].0@ == k;
                self.size_cache@[i].1
            },
        )
    }

    /// The view the resolver reads through.
    pub closed spec fn data_view(&self) -> &'a S {
        self.data_view
    }

    pub fn new(data_view: &'a S) -> (r: Self)
        ensures
            r.wf(),
            r.data_view() == data_view,
            r.sizes() == Map::<(u128, Seq<u8>), usize>::empty(),
    {
        let r = DataViewResolver { data_view, size_cache: Vec::new() };
        assert(r.sizes() =~= Map::<(u128, Seq<u8>), usize>::empty());
        r
    }

    /// Reads the value at `access_path` (whose key text is `key_size` bytes
    /// long) from the view, and gives what the view gives. An entry read for
    /// the first time has its stored size recorded: its key and value, or
    /// nothing when there is no value.
    pub fn get(&mut self, access_path: &AccessPath, key_size: usize) -> (r: Result<
        Option<Vec<u8>>,
        anyhow::Error,
    >)
        requires
            old(self).wf(),
        ensures
            state_read_view(r) == old(self).data_view().stored(access_path@),
            final(self).wf(),
            final(self).data_view() == old(self).data_view(),
            r is Err ==> final(self).sizes() == old(self).sizes(),
            r matches Ok(value) ==> final(self).sizes() == if old(self).sizes().contains_key(
                access_path@,
            ) {
                old(self).sizes()
            } else {
                old(self).sizes().insert(access_path@, entry_size(key_size, value))
            },
    {
        let read = self.data_view.get(access_path);
        self.record_read(access_path, key_size, read)
    }

    /// Hands back what the view answered for `access_path` (whose key text
    /// is `key_size` bytes long), unchanged; a value read for the first time
    /// has its stored size recorded: its key and value, or nothing when there
    /// is no value. A failed read records nothing.
    pub fn record_read(
        &mut self,
        access_path: &AccessPath,
        key_size: usize,
        read: Result<Option<Vec<u8>>, anyhow::Error>,
    ) -> (r: Result<Option<Vec<u8>>, anyhow::Error>)
        requires
            old(self).wf(),
        ensures
            r == read,
            final(self).wf(),
            final(self).data_view() == old(self).data_view(),
            r is Err ==> final(self).sizes() == old(self).sizes(),
            r matches Ok(value) ==> final(self).sizes() == if old(self).sizes().contains_key(
                access_path@,
            ) {
                old(self).sizes()
            } else {
                old(self).sizes().insert(access_path@, entry_size(key_size, value))
            },
    {
        match read {
            Ok(remote_data) => {
                match find_path(&self.size_cache, access_path) {
                    Some(i) => {
                        proof {
                            assert(self.sizes().contains_key(access_path@)) by {
                                assert(self.size_cache@[i as int].0@ == access_path@);
                            }
                        }
                    },
                    None => {
                        let size = match &remote_data {
                            Some(val) => key_size.saturating_add(val.len()),
                            None => 0,
                        };
                        let ghost before = self.sizes();
                        let ghost old_cache = self.size_cache@;
                        proof {
                            assert(!before.contains_key(access_path@));
                        }
                        self.size_cache.push((access_path.clone(), size));
                        proof {
                            let n = old_cache.len() as int;
                            assert(self.size_cache@[n].0@ == access_path@);
                            assert forall|k: (u128, Seq<u8>)| #[trigger] self.sizes().contains_key(k)
                                == before.insert(access_path@, size).contains_key(k) by {
                                if k != access_path@ && self.sizes().contains_key(k) {
                                    let i = choose|i: int| 0 <= i < self.size_cache@.len() && #[trigger] self.size_cache@[i].0@ == k;
                                    assert(old_cache[i].0@ == k);
                                }
                                if before.contains_key(k) {
                                    let i = choose|i: int| 0 <= i < old_cache.len() && #[trigger] old_cache[i].0@ == k;
                                    assert(self.size_cache@[i].0@ == k);
                                }
                            }
                            assert forall|k: (u128, Seq<u8>)| #[trigger] self.sizes().contains_key(k)
                                implies self.sizes()[k] == before.insert(access_path@, size)[k] by {
                                let i = choose|i: int| 0 <= i < self.size_cache@.len() && #[trigger] self.size_cache@[i].0@ == k;
                                if k == access_path@ {
                                    assert(i == n);
                                } else {
                                    assert(old_cache[i].0@ == k);
                                    let i0 = choose|i: int| 0 <= i < old_cache.len() && #[trigger] old_cache[i].0@ == k;
                                    assert(i0 == i);
                                }
                            }
                            assert(self.sizes() =~= before.insert(access_path@, size));
                        }
                    },
                }
                Ok(remote_data)
            },
            Err(e) => Err(e),
        }
    }
}

impl<'a, S: StateView> StoredSizeResolver for DataViewResolver<'a, S> {
    /// The size recorded for `access_path`, if it has been read.
    fn get_size(&self, access_path: &AccessPath) -> (r: Option<usize>)
        ensures
            self.wf() ==> r == if self.sizes().contains_key(access_path@) {
                Some(self.sizes()[access_path@])
            } else {
                None
            },
    {
        match find_path(&self.size_cache, access_path) {
            Some(i) => {
                proof {
                    if self.wf() {
                        assert(self.size_cache@[i as int].0@ == access_path@);
                        let j = choose|j: int| 0 <= j < self.size_cache@.len() && #[trigger] self.size_cache@[j].0@ == access_path@;
                        assert(i == j);
                    }
                }
                Some(self.size_cache[i].1)
            },
            None => {
                proof {
                    if self.sizes().contains_key(access_path@) {
                        let j = choose|j: int| 0 <= j < self.size_cache@.len() && #[trigger] self.size_cache@[j].0@ == access_path@;
                        assert(self.size_cache@[j].0@ != access_path@);
                    }
                }
                None
            },
        }
    }
}

} // verus!
