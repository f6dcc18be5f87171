use novavm::mock_db::DB;
use novavm::session::{collect_size_changes, get_kv_stored_size, keyed_write, size_change_of, KeyedWrite};
use novavm::state_key::AccessPath;
use novavm::storage::{DataViewResolver, StoredSizeResolver};
use novavm::table_meta::effects::Op;

#[test]
fn stored_sizes() {
    assert_eq!(get_kv_stored_size(10, &Op::New(vec![0; 5])), 15);
    assert_eq!(get_kv_stored_size(10, &Op::Modify(vec![])), 10);
    assert_eq!(get_kv_stored_size(10, &Op::Delete), 0);
}

#[test]
fn writes_add_up() {
    let writes = vec![
        // a new entry: 4 + 6 bytes
        KeyedWrite { key_size: 4, prev_size: 0, op: Op::New(vec![0; 6]) },
        // an entry of 20 bytes shrinks to 4 + 2
        KeyedWrite { key_size: 4, prev_size: 20, op: Op::Modify(vec![0; 2]) },
        // an entry of 3 bytes is deleted
        KeyedWrite { key_size: 1, prev_size: 3, op: Op::Delete },
    ];
    let d = size_change_of(&writes);
    assert_eq!((d.amount, d.is_decrease), (7, true));
}

#[test]
fn groups_collect_per_key() {
    let groups = vec![
        (1u128, vec![KeyedWrite { key_size: 2, prev_size: 0, op: Op::New(vec![1]) }]),
        (2u128, vec![KeyedWrite { key_size: 2, prev_size: 9, op: Op::Delete }]),
        (3u128, vec![]),
    ];
    let set = collect_size_changes(&groups);
    let c = set.changes();
    assert_eq!((c[&1].amount, c[&1].is_decrease), (3, false));
    assert_eq!((c[&2].amount, c[&2].is_decrease), (9, true));
    // an account without writes keeps a zero entry
    assert_eq!((c[&3].amount, c[&3].is_decrease), (0, false));
}

#[test]
fn first_read_records_the_written_size() {
    let mut db = DB::new();
    let ap = AccessPath::new(3, b"res".to_vec());
    let gone = AccessPath::new(4, b"old".to_vec());
    let op = Op::New(vec![7; 6]);
    db.write_op(ap.clone(), Op::New(vec![7; 6]));
    db.write_op(gone.clone(), Op::Delete);
    let mut resolver = DataViewResolver::new(&db);
    resolver.get(&ap, 12).unwrap();
    resolver.get(&gone, 12).unwrap();
    assert_eq!(resolver.get_size(&ap), Some(get_kv_stored_size(12, &op)));
    assert_eq!(resolver.get_size(&ap), Some(18));
    assert_eq!(resolver.get_size(&gone), Some(get_kv_stored_size(12, &Op::Delete)));

    let w = keyed_write(&resolver, &ap, 12, Op::Modify(vec![1]));
    assert_eq!((w.key_size, w.prev_size), (12, 18));
    let unread = AccessPath::new(5, b"new".to_vec());
    let w = keyed_write(&resolver, &unread, 12, Op::New(vec![1]));
    assert_eq!(w.prev_size, 0);
}
