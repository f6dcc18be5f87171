//! The entries of a map keyed by addresses, in increasing key order: the
//! order in which a `BTreeMap` hands them out.

use std::collections::BTreeMap;
use vstd::prelude::*;
use vstd::std_specs::btree::increasing_seq;
use vstd::std_specs::iter::IteratorSpec;
use vstd::laws_cmp::obeys_cmp;
use vstd::std_specs::cmp::OrdSpec;

verus! {

/// Every key of `s` is smaller than the ones after it.
pub open spec fn strictly_increasing(s: Seq<u128>) -> bool {
    forall|i: int, j: int| 0 <= i < j < s.len() ==> #[trigger] s[i] < #[trigger] s[j]
}

/// `s` lists the keys of `m`, each once, in increasing order.
pub open spec fn is_key_order<V>(s: Seq<u128>, m: Map<u128, V>) -> bool {
    &&& strictly_increasing(s)
    &&& forall|i: int| 0 <= i < s.len() ==> #[trigger] m.contains_key(s[i])
    &&& forall|k: u128| #[trigger] m.contains_key(k) ==> s.contains(k)
}

/// The keys of `m` in increasing order.
pub open spec fn key_order<V>(m: Map<u128, V>) -> Seq<u128> {
    choose|s: Seq<u128>| is_key_order(s, m)
}

/// The entries of `m` in increasing key order.
pub open spec fn entries_in_order<V>(m: Map<u128, V>) -> Seq<(u128, V)> {
    key_order(m).map_values(|k: u128| (k, m[k]))
}

/// There is only one increasing listing of the keys of a map.
pub proof fn lemma_key_order_unique<V>(s1: Seq<u128>, s2: Seq<u128>, m: Map<u128, V>)
    requires
        is_key_order(s1, m),
        is_key_order(s2, m),
    ensures
        s1 == s2,
    decreases s1.len(),
{
    if s1.len() == 0 {
        if s2.len() > 0 {
            assert(m.contains_key(s2[0]));
            assert(s1.contains(s2[0]));
        }
        assert(s1 =~= s2);
    } else {
        assert(m.contains_key(s1[0]));
        assert(s2.contains(s1[0]));
        let j = choose|j: int| 0 <= j < s2.len() && s2[j] == s1[0];
        assert(m.contains_key(s2[0]));
        assert(s1.contains(s2[0]));
        let i = choose|i: int| 0 <= i < s1.len() && s1[i] == s2[0];
        if i > 0 {
            assert(s1[0] < s1[i]);
        }
        if j > 0 {
            assert(s2[0] < s2[j]);
        }
        assert(s1[0] == s2[0]);
        let k = s1[0];
        let m2 = m.remove(k);
        let t1 = s1.subrange(1, s1.len() as int);
        let t2 = s2.subrange(1, s2.len() as int);
        assert forall|x: int| 0 <= x < t1.len() implies #[trigger] m2.contains_key(t1[x]) by {
            assert(t1[x] == s1[x + 1]);
            assert(s1[0] < s1[x + 1]);
            assert(m.contains_key(s1[x + 1]));
        }
        assert forall|x: int| 0 <= x < t2.len() implies #[trigger] m2.contains_key(t2[x]) by {
            assert(t2[x] == s2[x + 1]);
            assert(s2[0] < s2[x + 1]);
            assert(m.contains_key(s2[x + 1]));
        }
        assert forall|y: u128| #[trigger] m2.contains_key(y) implies t1.contains(y) by {
            assert(s1.contains(y));
            let a = choose|a: int| 0 <= a < s1.len() && s1[a] == y;
            assert(a != 0);
            assert(t1[a - 1] == y);
        }
        assert forall|y: u128| #[trigger] m2.contains_key(y) implies t2.contains(y) by {
            assert(s2.contains(y));
            let a = choose|a: int| 0 <= a < s2.len() && s2[a] == y;
            assert(a != 0);
            assert(t2[a - 1] == y);
        }
        assert forall|a: int, b: int| 0 <= a < b < t1.len() implies #[trigger] t1[a] < #[trigger] t1[b] by {
            assert(t1[a] == s1[a + 1]);
            assert(t1[b] == s1[b + 1]);
        }
        assert forall|a: int, b: int| 0 <= a < b < t2.len() implies #[trigger] t2[a] < #[trigger] t2[b] by {
            assert(t2[a] == s2[a + 1]);
            assert(t2[b] == s2[b + 1]);
        }
        lemma_key_order_unique(t1, t2, m2);
        assert(s1 =~= seq![k] + t1);
        assert(s2 =~= seq![k] + t2);
    }
}

/// A listing of `m`'s entries, each once and in increasing key order, is
/// `entries_in_order(m)`.
pub proof fn lemma_entries_in_order<V>(s: Seq<(u128, V)>, m: Map<u128, V>)
    requires
        forall|i: int, j: int| 0 <= i < j < s.len() ==> #[trigger] s[i].0 < #[trigger] s[j].0,
        forall|i: int|
            #![trigger s[i]]
            0 <= i < s.len() ==> m.contains_key(s[i].0) && m[s[i].0] == s[i].1,
        forall|k: u128| #[trigger] m.contains_key(k) ==> exists|i: int| 0 <= i < s.len() && s[i].0 == k,
    ensures
        s == entries_in_order(m),
        is_key_order(key_order(m), m),
{
    let keys = s.map_values(|e: (u128, V)| e.0);
    assert forall|i: int, j: int| 0 <= i < j < keys.len() implies #[trigger] keys[i] < #[trigger] keys[j] by {
        assert(s[i].0 < s[j].0);
    }
    assert forall|i: int| 0 <= i < keys.len() implies #[trigger] m.contains_key(keys[i]) by {
        assert(m.contains_key(s[i].0));
    }
    assert forall|k: u128| #[trigger] m.contains_key(k) implies keys.contains(k) by {
        let i = choose|i: int| 0 <= i < s.len() && s[i].0 == k;
        assert(keys[i] == k);
    }
    assert(is_key_order(keys, m));
    lemma_key_order_unique(keys, key_order(m), m);
    assert(s =~= entries_in_order(m));
}

/// The entries of `m` in increasing key order, as a vector.
pub fn entries_of<V: Copy>(m: &BTreeMap<u128, V>) -> (v: Vec<(u128, V)>)
    ensures
        v@ == entries_in_order(m@),
        is_key_order(key_order(m@), m@),
{
    broadcast use {vstd::std_specs::btree::group_btree_axioms, vstd::laws_cmp::group_laws_cmp};

    let mut out: Vec<(u128, V)> = Vec::new();
    let iter = m.iter();
    proof {
        let keys = iter.remaining().map_values(|kv: (&u128, &V)| *kv.0);
        assert(obeys_cmp::<u128>());
        assert(increasing_seq(keys));
        assert forall|i: int, j: int|
            0 <= i < j < iter.remaining().len() implies *#[trigger] iter.remaining()[i].0
            < *#[trigger] iter.remaining()[j].0 by {
            assert(keys[i] == *iter.remaining()[i].0);
            assert(keys[j] == *iter.remaining()[j].0);
            assert(keys[i].cmp_spec(&keys[j]) is Less);
        }
    }
    for entry in it: iter
        invariant
            forall|i: int|
                #![trigger it.seq()[i]]
                0 <= i < it.seq().len() ==> m@.contains_key(*it.seq()[i].0) && m@[*it.seq()[i].0]
                    == *it.seq()[i].1,
            forall|k: u128|
                #![trigger m@.contains_key(k)]
                m@.contains_key(k) ==> exists|i: int|
                    0 <= i < it.seq().len() && *it.seq()[i].0 == k,
            forall|i: int, j: int|
                0 <= i < j < it.seq().len() ==> *#[trigger] it.seq()[i].0 < *#[trigger] it.seq()[j].0,
            out@.len() == it.index(),
            forall|i: int|
                #![trigger out@[i]]
                #![trigger it.seq()[i]]
                0 <= i < it.index() ==> out@[i] == (*it.seq()[i].0, *it.seq()[i].1),
        ensures
            forall|i: int, j: int|
                0 <= i < j < out@.len() ==> #[trigger] out@[i].0 < #[trigger] out@[j].0,
            forall|i: int|
                #![trigger out@[i]]
                0 <= i < out@.len() ==> m@.contains_key(out@[i].0) && m@[out@[i].0] == out@[i].1,
            forall|k: u128|
                #![trigger m@.contains_key(k)]
                m@.contains_key(k) ==> exists|i: int| 0 <= i < out@.len() && out@[i].0 == k,
    {
        let (k, val) = entry;
        out.push((*k, *val));
    }
    proof {
        lemma_entries_in_order(out@, m@);
    }
    out
}

} // verus!

verus! {

/// What `entries_in_order` lists, entry by entry.
pub proof fn lemma_entries_in_order_facts<V>(m: Map<u128, V>)
    requires
        is_key_order(key_order(m), m),
    ensures
        entries_in_order(m).len() == key_order(m).len(),
        forall|i: int|
            #![trigger entries_in_order(m)[i]]
            0 <= i < entries_in_order(m).len() ==> m.contains_key(entries_in_order(m)[i].0)
                && entries_in_order(m)[i].1 == m[entries_in_order(m)[i].0] && entries_in_order(m)[i].0
                == key_order(m)[i],
        forall|i: int, j: int|
            0 <= i < j < entries_in_order(m).len() ==> #[trigger] entries_in_order(m)[i].0
                < #[trigger] entries_in_order(m)[j].0,
        forall|k: u128|
            #[trigger] m.contains_key(k) ==> exists|i: int|
                0 <= i < entries_in_order(m).len() && entries_in_order(m)[i].0 == k,
{
    let e = entries_in_order(m);
    let ko = key_order(m);
    assert forall|i: int| 0 <= i < e.len() implies #[trigger] e[i] == (ko[i], m[ko[i]]) by {}
    assert forall|i: int, j: int| 0 <= i < j < e.len() implies #[trigger] e[i].0 < #[trigger] e[j].0 by {
        assert(e[i] == (ko[i], m[ko[i]]));
        assert(e[j] == (ko[j], m[ko[j]]));
        assert(ko[i] < ko[j]);
    }
    assert forall|k: u128| #[trigger] m.contains_key(k) implies exists|i: int| 0 <= i < e.len() && e[i].0 == k by {
        assert(ko.contains(k));
        let i = choose|i: int| 0 <= i < ko.len() && ko[i] == k;
        assert(e[i] == (ko[i], m[ko[i]]));
    }
}

} // verus!
