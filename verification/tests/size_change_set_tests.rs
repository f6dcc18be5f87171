use novavm::size_change_set::{SizeChangeSet, SizeDelta};
use std::collections::BTreeMap;

#[test]
fn test_size_delta() {
    let mut z = SizeDelta::zero();
    z.merge(SizeDelta::new(10, 0));
    assert_eq!(z.amount, 10);
    assert_eq!(z.is_decrease, true);

    //a is 1
    let mut a = SizeDelta::new(2, 3);
    assert_eq!(a.amount, 1);
    assert_eq!(a.is_decrease, false);

    // b is -5
    let b = SizeDelta::new(10, 5);
    assert_eq!(b.amount, 5);
    assert_eq!(b.is_decrease, true);

    // now a is 3
    a.merge(SizeDelta {
        amount: 2,
        is_decrease: false,
    });
    assert_eq!(a.amount, 3);
    assert_eq!(a.is_decrease, false);

    // now a is -2
    a.merge(b);
    assert_eq!(a.amount, 2);
    assert_eq!(a.is_decrease, true);

    // now a is -7
    a.merge(SizeDelta {
        amount: 5,
        is_decrease: true,
    });
    assert_eq!(a.amount, 7);
    assert_eq!(a.is_decrease, true);
}

#[test]
fn insert_size_accumulates_and_drops_zero_entries() {
    let mut set = SizeChangeSet::default();
    set.insert_size(7, SizeDelta::increasing(10));
    set.insert_size(7, SizeDelta::decreasing(4));
    assert_eq!(set.changes().get(&7).unwrap().amount, 6);
    assert!(!set.changes().get(&7).unwrap().is_decrease);
    set.insert_size(7, SizeDelta::decreasing(6));
    assert!(set.changes().get(&7).is_none());
    // a zero change makes no entry
    set.insert_size(8, SizeDelta::zero());
    assert!(set.changes().is_empty());
}

#[test]
fn merge_adds_changes_per_key() {
    let mut a = SizeChangeSet::default();
    a.insert_size(1, SizeDelta::increasing(5));
    a.insert_size(2, SizeDelta::decreasing(3));
    let mut m = BTreeMap::new();
    m.insert(1u128, SizeDelta::decreasing(5));
    m.insert(3u128, SizeDelta::increasing(9));
    a.merge(SizeChangeSet::new(m));
    assert!(a.changes().get(&1).is_none());
    assert_eq!(a.changes().get(&2).unwrap().amount, 3);
    assert!(a.changes().get(&2).unwrap().is_decrease);
    assert_eq!(a.changes().get(&3).unwrap().amount, 9);
}

#[test]
fn move_size_overwrites_both_entries() {
    let mut a = SizeChangeSet::default();
    a.insert_size(1, SizeDelta::increasing(100));
    a.move_size(1, 2, 30);
    let from = a.changes().get(&1).unwrap();
    assert_eq!((from.amount, from.is_decrease), (30, true));
    let to = a.changes().get(&2).unwrap();
    assert_eq!((to.amount, to.is_decrease), (30, false));
}

#[test]
fn size_delta_sign() {
    assert_eq!(SizeDelta::decreasing(1).sign(), "-");
    assert_eq!(SizeDelta::increasing(1).sign(), "+");
}
