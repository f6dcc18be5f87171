use novavm::mock_db::DB;
use novavm::state_key::AccessPath;
use novavm::storage::{storage_read_result, DataViewResolver, StateView, StoredSizeResolver};
use novavm::table_meta::effects::Op;

#[test]
fn db_reads_back_writes() {
    let mut db = DB::new();
    let a = AccessPath::new(1, b"x".to_vec());
    let b = AccessPath::new(2, b"y".to_vec());
    assert_eq!(db.get(&a).unwrap(), None);
    db.write_op(a.clone(), Op::New(vec![1, 2]));
    assert_eq!(db.get(&a).unwrap(), Some(vec![1, 2]));
    db.write_op(a.clone(), Op::Modify(vec![3]));
    assert_eq!(db.get(&a).unwrap(), Some(vec![3]));
    assert_eq!(db.get(&b).unwrap(), None);
    db.write_op(a.clone(), Op::Delete);
    assert_eq!(db.get(&a).unwrap(), None);
    db.push_write_set(vec![
        (b.clone(), Op::New(vec![9])),
        (a.clone(), Op::New(vec![8])),
        (b.clone(), Op::Modify(vec![7])),
    ]);
    assert_eq!(db.get(&a).unwrap(), Some(vec![8]));
    assert_eq!(db.get(&b).unwrap(), Some(vec![7]));
}

#[test]
fn resolver_records_sizes_on_first_read() {
    let mut db = DB::new();
    let a = AccessPath::new(1, b"x".to_vec());
    let b = AccessPath::new(2, b"y".to_vec());
    db.write_op(a.clone(), Op::New(vec![0; 5]));
    let mut resolver = DataViewResolver::new(&db);
    assert_eq!(resolver.get_size(&a), None);
    assert_eq!(resolver.get(&a, 10).unwrap(), Some(vec![0; 5]));
    assert_eq!(resolver.get_size(&a), Some(15));
    // a second read keeps the first size
    resolver.get(&a, 99).unwrap();
    assert_eq!(resolver.get_size(&a), Some(15));
    // an entry without value takes nothing
    assert_eq!(resolver.get(&b, 4).unwrap(), None);
    assert_eq!(resolver.get_size(&b), Some(0));
}

#[test]
fn recorded_reads_are_handed_back() {
    let db = DB::new();
    let a = AccessPath::new(1, b"x".to_vec());
    let mut resolver = DataViewResolver::new(&db);
    assert_eq!(resolver.record_read(&a, 4, Ok(Some(vec![1, 2, 3]))).unwrap(), Some(vec![1, 2, 3]));
    assert_eq!(resolver.get_size(&a), Some(7));
    let b = AccessPath::new(2, b"y".to_vec());
    assert!(resolver.record_read(&b, 4, Err(anyhow::Error::msg("broken"))).is_err());
    assert_eq!(resolver.get_size(&b), None);
    assert_eq!(resolver.record_read(&b, 4, Ok(None)).unwrap(), None);
    assert_eq!(resolver.get_size(&b), Some(0));
}

#[test]
fn failed_reads_become_storage_errors() {
    assert_eq!(storage_read_result(Ok(Some(vec![5]))).unwrap(), Some(vec![5]));
    assert_eq!(storage_read_result(Ok(None)).unwrap(), None);
    let e = storage_read_result(Err(anyhow::Error::msg("gone"))).unwrap_err();
    assert_eq!(e.major_status, 2008);
    assert!(e.message.is_none());
}
