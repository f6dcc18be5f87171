use std::collections::BTreeMap;
use vstd::prelude::*;

verus! {

broadcast use {vstd::std_specs::btree::group_btree_axioms, vstd::laws_cmp::group_laws_cmp};

/// A signed change of a stored size: `amount` bytes, removed when
/// `is_decrease` holds and added otherwise.
#[derive(Debug, Clone, Copy)]
pub struct SizeDelta {
    pub amount: usize,
    pub is_decrease: bool,
}

/// The signed integer that a size delta stands for.
pub open spec fn delta_value(amount: int, is_decrease: bool) -> int {
    if is_decrease {
        -amount
    } else {
        amount
    }
}

impl SizeDelta {
    /// The signed integer this delta stands for.
    pub open spec fn value(self) -> int {
        delta_value(self.amount as int, self.is_decrease)
    }

    /// Whether merging `other` into `self` stays within `usize`.
    pub open spec fn can_merge(self, other: SizeDelta) -> bool {
        self.is_decrease == other.is_decrease ==> self.amount + other.amount <= usize::MAX
    }

    /// The delta that changes nothing.
    pub fn zero() -> (r: SizeDelta)
        ensures
            r.amount == 0,
            !r.is_decrease,
            r.value() == 0,
    {
        SizeDelta { amount: 0, is_decrease: false }
    }

    /// The delta that turns a size of `old` into a size of `new`.
    pub fn new(old: usize, new: usize) -> (r: SizeDelta)
        ensures
            r.is_decrease == (new < old),
            r.amount == (if new < old { old - new } else { new - old }),
            r.value() == new - old,
    {
        let amount = if new < old {
            old - new
        } else {
            new - old
        };
        SizeDelta { amount, is_decrease: new < old }
    }

    /// A growth by `amount` bytes.
    pub fn increasing(amount: usize) -> (r: SizeDelta)
        ensures
            r.amount == amount,
            !r.is_decrease,
            r.value() == amount,
    {
        SizeDelta { amount, is_decrease: false }
    }

    /// A shrinkage by `amount` bytes.
    pub fn decreasing(amount: usize) -> (r: SizeDelta)
        ensures
            r.amount == amount,
            r.is_decrease,
            r.value() == -amount,
    {
        SizeDelta { amount, is_decrease: true }
    }

    /// Adds `delta` to `self`. The sign flips exactly when the opposite-signed
    /// `delta` is strictly larger in magnitude.
    pub fn merge(&mut self, delta: SizeDelta)
        requires
            old(self).can_merge(delta),
        ensures
            final(self).value() == old(self).value() + delta.value(),
            old(self).is_decrease == delta.is_decrease ==> {
                &&& final(self).amount == old(self).amount + delta.amount
                &&& final(self).is_decrease == old(self).is_decrease
            },
            old(self).is_decrease != delta.is_decrease ==> {
                &&& final(self).is_decrease == (old(self).is_decrease != (old(self).amount
                    < delta.amount))
                &&& final(self).amount == (if old(self).amount < delta.amount {
                    delta.amount - old(self).amount
                } else {
                    old(self).amount - delta.amount
                })
            },
    {
        if self.is_decrease == delta.is_decrease {
            self.amount = self.amount + delta.amount;
        } else {
            if self.amount < delta.amount {
                self.is_decrease = !self.is_decrease;
                self.amount = delta.amount - self.amount;
            } else {
                self.amount = self.amount - delta.amount;
            }
        }
    }

    /// The textual form: a sign followed by the amount, e.g. `-10` or `+3`.
    pub fn sign(&self) -> (s: &'static str)
        ensures
            s@ == (if self.is_decrease { "-"@ } else { "+"@ }),
    {
        proof {
            reveal_strlit("-");
            reveal_strlit("+");
        }
        if self.is_decrease {
            "-"
        } else {
            "+"
        }
    }
}

/// The signed size change recorded for `key` in `m`, zero where none is.
pub open spec fn change_of(m: Map<u128, SizeDelta>, key: u128) -> int {
    if m.contains_key(key) {
        m[key].value()
    } else {
        0
    }
}

/// Per-key size changes, keyed by an account address or a table handle
/// (both are 16-byte addresses, held as their big-endian `u128`).
#[derive(Debug)]
pub struct SizeChangeSet(pub BTreeMap<u128, SizeDelta>);

impl SizeChangeSet {
    pub open spec fn view(&self) -> Map<u128, SizeDelta> {
        self.0@
    }

    /// The signed change recorded for `key`.
    pub open spec fn change(&self, key: u128) -> int {
        change_of(self.0@, key)
    }

    /// Whether inserting `value` at `key` stays within `usize`.
    pub open spec fn can_insert(&self, key: u128, value: SizeDelta) -> bool {
        self.0@.contains_key(key) ==> self.0@[key].can_merge(value)
    }

    /// The empty change set.
    pub fn default() -> (r: SizeChangeSet)
        ensures
            r.view() == Map::<u128, SizeDelta>::empty(),
    {
        SizeChangeSet(BTreeMap::new())
    }

    pub fn new(map: BTreeMap<u128, SizeDelta>) -> (r: SizeChangeSet)
        ensures
            r.view() == map@,
    {
        SizeChangeSet(map)
    }

    pub fn changes(&self) -> (r: &BTreeMap<u128, SizeDelta>)
        ensures
            r@ == self.view(),
    {
        &self.0
    }

    pub fn into_inner(self) -> (r: BTreeMap<u128, SizeDelta>)
        ensures
            r@ == self.view(),
    {
        self.0
    }

    /// Accumulates `value` into the entry of `key`. A new entry is only made
    /// for a non-zero amount, and an entry whose amount drops to zero is removed.
    pub fn insert_size(&mut self, key: u128, value: SizeDelta)
        requires
            old(self).can_insert(key, value),
        ensures
            final(self).view() == accumulated(old(self).view(), key, value),
            final(self).change(key) == old(self).change(key) + value.value(),
            forall|k: u128| k != key ==> final(self).change(k) == old(self).change(k),
    {
        match self.0.get(&key) {
            None => {
                if value.amount != 0 {
                    self.0.insert(key, value);
                }
            },
            Some(current) => {
                let mut merged = *current;
                merged.merge(value);
                if merged.amount == 0 {
                    self.0.remove(&key);
                } else {
                    self.0.insert(key, merged);
                }
            },
        }
    }

    /// Whether every entry of `another` can be accumulated into `self`.
    pub open spec fn can_merge_all(&self, another: &SizeChangeSet) -> bool {
        forall|k: u128|
            #![trigger another.0@.contains_key(k)]
            another.0@.contains_key(k) ==> self.can_insert(k, another.0@[k])
    }

    /// Accumulates every entry of `another` into `self`.
    pub fn merge(&mut self, another: SizeChangeSet)
        requires
            old(self).can_merge_all(&another),
        ensures
            forall|k: u128| #[trigger]
                final(self).change(k) == old(self).change(k) + another.change(k),
            forall|k: u128|
                #![trigger final(self).view().contains_key(k)]
                if another.view().contains_key(k) {
                    same_entry(
                        final(self).view(),
                        accumulated(old(self).view(), k, another.view()[k]),
                        k,
                    )
                } else {
                    same_entry(final(self).view(), old(self).view(), k)
                },
    {
        let ghost start = self.0@;
        let ghost other = another.0@;
        for entry in it: another.0.iter()
            invariant
                other == another.0@,
                it.seq().no_duplicates(),
                forall|i: int|
                    #![trigger it.seq()[i]]
                    0 <= i < it.seq().len() ==> other.contains_key(*it.seq()[i].0) && other[*it.seq()[i].0]
                        == *it.seq()[i].1,
                forall|k: u128|
                    #![trigger other.contains_key(k)]
                    other.contains_key(k) ==> key_in_prefix(it.seq(), it.seq().len() as int, k),
                forall|k: u128|
                    #![trigger change_of(self.0@, k)]
                    change_of(self.0@, k) == change_of(start, k) + (if key_in_prefix(
                        it.seq(),
                        it.index() as int,
                        k,
                    ) {
                        change_of(other, k)
                    } else {
                        0
                    }),
                forall|k: u128|
                    #![trigger self.0@.contains_key(k)]
                    !key_in_prefix(it.seq(), it.index() as int, k) ==> self.0@.contains_key(k)
                        == start.contains_key(k) && (self.0@.contains_key(k) ==> self.0@[k]
                        == start[k]),
                forall|k: u128|
                    #![trigger other.contains_key(k)]
                    other.contains_key(k) ==> (start.contains_key(k) ==> start[k].can_merge(
                        other[k],
                    )),
                forall|k: u128|
                    #![trigger self.0@.contains_key(k)]
                    key_in_prefix(it.seq(), it.index() as int, k) ==> same_entry(
                        self.0@,
                        accumulated(start, k, other[k]),
                        k,
                    ),
            ensures
                forall|k: u128| #[trigger]
                    change_of(self.0@, k) == change_of(start, k) + change_of(other, k),
                forall|k: u128|
                    #![trigger self.0@.contains_key(k)]
                    if other.contains_key(k) {
                        same_entry(self.0@, accumulated(start, k, other[k]), k)
                    } else {
                        same_entry(self.0@, start, k)
                    },
        {
            let (key, value) = entry;
            let ghost idx = it.index() as int;
            proof {
                assert(*it.seq()[idx].0 == *key);
                assert(other.contains_key(*key));
                if key_in_prefix(it.seq(), idx, *key) {
                    let j = choose|j: int| 0 <= j < idx && *it.seq()[j].0 == *key;
                    assert(it.seq()[j] == it.seq()[idx]);
                }
                assert(self.0@.contains_key(*key) == start.contains_key(*key));
            }
            let ghost before = self.0@;
            proof {
                assert(change_of(before, *key) == change_of(start, *key));
            }
            self.insert_size(*key, *value);
            proof {
                assert forall|k: u128| key_in_prefix(it.seq(), idx + 1, k) == (key_in_prefix(it.seq(), idx, k) || k == *key) by {
                    if key_in_prefix(it.seq(), idx + 1, k) && k != *key {
                        let j = choose|j: int| 0 <= j < idx + 1 && *it.seq()[j].0 == k;
                        assert(j < idx);
                    }
                    if k == *key {
                        assert(*it.seq()[idx].0 == k);
                    }
                }
                assert forall|k: u128|
                    #![trigger change_of(self.0@, k)]
                    change_of(self.0@, k) == change_of(start, k) + (if key_in_prefix(
                        it.seq(),
                        idx + 1,
                        k,
                    ) {
                        change_of(other, k)
                    } else {
                        0
                    }) by {
                    assert(self.change(k) == change_of(self.0@, k));
                    if k == *key {
                        assert(key_in_prefix(it.seq(), idx + 1, k));
                        assert(!key_in_prefix(it.seq(), idx, k));
                        assert(other[k] == *value);
                    } else {
                        assert(change_of(before, k) == change_of(self.0@, k));
                        assert(key_in_prefix(it.seq(), idx + 1, k) == key_in_prefix(it.seq(), idx, k));
                    }
                }
            }
        }
    }

    /// Records that `size` bytes move from `from` to `to`: both entries are
    /// overwritten, `from` with a decrease and then `to` with an increase.
    pub fn move_size(&mut self, from: u128, to: u128, size: usize)
        ensures
            final(self).view() == old(self).view().insert(from, SizeDelta {
                amount: size,
                is_decrease: true,
            }).insert(to, SizeDelta { amount: size, is_decrease: false }),
    {
        self.0.insert(from, SizeDelta::decreasing(size));
        self.0.insert(to, SizeDelta::increasing(size));
    }
}

/// The map after accumulating `value` into the entry of `key` in `m`.
pub open spec fn accumulated(m: Map<u128, SizeDelta>, key: u128, value: SizeDelta) -> Map<
    u128,
    SizeDelta,
> {
    if !m.contains_key(key) {
        if value.amount != 0 {
            m.insert(key, value)
        } else {
            m
        }
    } else {
        let merged = final_merged(m[key], value);
        if merged.amount == 0 {
            m.remove(key)
        } else {
            m.insert(key, merged)
        }
    }
}

/// `a` and `b` agree on the entry of `k`.
pub open spec fn same_entry(a: Map<u128, SizeDelta>, b: Map<u128, SizeDelta>, k: u128) -> bool {
    &&& a.contains_key(k) == b.contains_key(k)
    &&& a.contains_key(k) ==> a[k] == b[k]
}

/// Whether `k` is the key of one of the first `n` entries of `s`.
pub open spec fn key_in_prefix(s: Seq<(&u128, &SizeDelta)>, n: int, k: u128) -> bool {
    exists|j: int| 0 <= j < n && *s[j].0 == k
}

/// The result of merging `delta` into `base`, as `SizeDelta::merge` computes it.
pub open spec fn final_merged(base: SizeDelta, delta: SizeDelta) -> SizeDelta {
    if base.is_decrease == delta.is_decrease {
        SizeDelta { amount: (base.amount + delta.amount) as usize, is_decrease: base.is_decrease }
    } else if base.amount < delta.amount {
        SizeDelta { amount: (delta.amount - base.amount) as usize, is_decrease: !base.is_decrease }
    } else {
        SizeDelta { amount: (base.amount - delta.amount) as usize, is_decrease: base.is_decrease }
    }
}

} // verus!
