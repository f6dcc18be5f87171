use novavm::session::{collect_size_changes, KeyedWrite};
use novavm::size_change_set::{SizeChangeSet, SizeDelta};
use novavm::table_meta::data_cache::{TableMetaDataCache, TableMetaResolver};
use novavm::table_meta::effects::{
    deserialize_owner, deserialize_size, serialize_op, Op, WriteCache, WriteCacheValue,
};
use novavm::table_meta::{add_table_size_changes, resolve_table_size_change, TableMetaType};
use novavm::vm_status::{VMError, STORAGE_ERROR};
use std::collections::{BTreeMap, BTreeSet};

/// Stored table metadata: owners and sizes by handle, and handles whose
/// reads fail.
#[derive(Default)]
struct Store {
    owners: BTreeMap<u128, u128>,
    sizes: BTreeMap<u128, usize>,
    broken: BTreeSet<u128>,
}

impl TableMetaResolver for Store {
    fn get_table_meta(
        &self,
        handle: &u128,
        meta: TableMetaType,
    ) -> Result<Option<Vec<u8>>, VMError> {
        if self.broken.contains(handle) {
            return Err(VMError::new(STORAGE_ERROR));
        }
        Ok(match meta {
            TableMetaType::Owner => self.owners.get(handle).map(|o| o.to_be_bytes().to_vec()),
            TableMetaType::Size => self.sizes.get(handle).map(|s| (*s as u64).to_le_bytes().to_vec()),
        })
    }
}

fn modify_bytes(op: &Op<Vec<u8>>) -> Option<&Vec<u8>> {
    match op {
        Op::Modify(b) => Some(b),
        _ => None,
    }
}

#[test]
fn table_meta_type_names() {
    assert_eq!(TableMetaType::Owner.name(), "owner");
    assert_eq!(TableMetaType::Size.name(), "size");
    assert_eq!(TableMetaType::from_str("owner").unwrap(), TableMetaType::Owner);
    assert_eq!(TableMetaType::from_str("size").unwrap(), TableMetaType::Size);
    assert!(TableMetaType::from_str("Owner").is_err());
    match TableMetaType::from_str("weight") {
        Err(e) => assert_eq!(e.to_string(), "unexpected table meta type"),
        Ok(t) => panic!("unexpected kind {:?}", t),
    }
}

#[test]
fn metadata_values_are_bcs() {
    let owner = WriteCacheValue::Owner(0x0a0b).serialize().unwrap();
    let mut expected = vec![0u8; 14];
    expected.extend_from_slice(&[0x0a, 0x0b]);
    assert_eq!(owner, expected);
    assert_eq!(deserialize_owner(&owner), Some(0x0a0b));
    assert_eq!(deserialize_owner(&[1, 2, 3]), None);

    let size = WriteCacheValue::Size(300).serialize().unwrap();
    assert_eq!(size, vec![44, 1, 0, 0, 0, 0, 0, 0]);
    assert_eq!(deserialize_size(&size), Some(300));
    assert_eq!(deserialize_size(&[1]), None);

    match serialize_op(Op::Modify(WriteCacheValue::Size(1))).unwrap() {
        Op::Modify(b) => assert_eq!(b, vec![1, 0, 0, 0, 0, 0, 0, 0]),
        _ => panic!("expected a modification"),
    }
    assert!(matches!(serialize_op(Op::Delete).unwrap(), Op::Delete));
}

#[test]
fn write_cache_slots() {
    assert_eq!(WriteCache::Updated(WriteCacheValue::Size(4)).get_size(), Some(4));
    assert_eq!(WriteCache::Deleted.get_size(), None);
    assert_eq!(WriteCache::Updated(WriteCacheValue::Owner(9)).get_owner(), Some(9));
    assert!(matches!(WriteCache::Deleted.into_effect(), Some(Op::Delete)));
}

#[test]
fn cache_reads_through_and_buffers() {
    let mut store = Store::default();
    store.owners.insert(0x10, 0x1);
    store.sizes.insert(0x10, 100);
    let mut cache = TableMetaDataCache::new(&store);
    assert_eq!(cache.get_size(&0x10).unwrap(), Some(100));
    assert_eq!(cache.get_size(&0x11).unwrap(), None);
    assert!(cache.is_registerd_table(&0x10).unwrap());
    assert!(!cache.is_registerd_table(&0x11).unwrap());
    cache.set_size(&0x10, 7);
    assert_eq!(cache.get_size(&0x10).unwrap(), Some(7));
    cache.del_size(&0x10);
    assert_eq!(cache.get_size(&0x10).unwrap(), None);
    cache.set_owner(&0x11, 0x2);
    assert!(cache.is_registerd_table(&0x11).unwrap());
    let changes = cache.get_owner_changes();
    assert_eq!(changes.get(&0x11), Some(&Some(0x2)));
    cache.del_owner(&0x11);
    assert_eq!(cache.get_owner_changes().get(&0x11), Some(&None));
}

#[test]
fn root_owners_follow_the_chain() {
    let mut store = Store::default();
    // table 0x10 is owned by table 0x30, which is owned by account 0x2
    store.owners.insert(0x10, 0x30);
    store.owners.insert(0x30, 0x2);
    let mut cache = TableMetaDataCache::new(&store);
    assert_eq!(cache.get_root_owner(&0x10).unwrap(), Some(0x2));
    assert_eq!(cache.get_root_owner(&0x30).unwrap(), Some(0x2));
    // an account has no owner
    assert_eq!(cache.get_root_owner(&0x2).unwrap(), None);
    // a buffered owner takes precedence; the stored chain stays as it was
    cache.set_owner(&0x10, 0x5);
    assert_eq!(cache.get_root_owner(&0x10).unwrap(), Some(0x5));
    assert_eq!(cache.get_old_root_owner(&0x10).unwrap(), Some(0x2));
}

#[test]
fn resolve_moves_sizes_with_owners() {
    let mut store = Store::default();
    store.owners.insert(0x10, 0x1);
    store.sizes.insert(0x10, 100);
    store.owners.insert(0x30, 0x2);
    let new_tables: BTreeSet<u128> = [0x20u128].into_iter().collect();
    let removed: BTreeSet<u128> = BTreeSet::new();
    // account 0x1 now holds a resource naming the new table 0x20 (and an
    // address that is no table); table 0x30 now holds an entry naming 0x10
    let resource_addresses = vec![(0x1u128, vec![0x20u128, 0x99])];
    let table_entry_addresses = vec![(0x30u128, vec![0x10u128])];
    let mut sizes = BTreeMap::new();
    sizes.insert(0x10u128, SizeDelta::increasing(10));
    sizes.insert(0x20u128, SizeDelta::increasing(50));
    let (accounts, meta) = resolve_table_size_change(
        &new_tables,
        &removed,
        &resource_addresses,
        &table_entry_addresses,
        &SizeChangeSet::new(sizes),
        &store,
    )
    .unwrap();

    let a = accounts.changes().get(&0x1).unwrap();
    assert_eq!((a.amount, a.is_decrease), (50, true));
    let b = accounts.changes().get(&0x2).unwrap();
    assert_eq!((b.amount, b.is_decrease), (110, false));
    assert_eq!(accounts.changes().len(), 2);

    assert_eq!(meta.owner.len(), 2);
    assert_eq!(modify_bytes(&meta.owner[&0x10]).unwrap(), &0x30u128.to_be_bytes().to_vec());
    assert_eq!(modify_bytes(&meta.owner[&0x20]).unwrap(), &0x1u128.to_be_bytes().to_vec());
    assert_eq!(meta.size.len(), 2);
    assert_eq!(modify_bytes(&meta.size[&0x10]).unwrap(), &110u64.to_le_bytes().to_vec());
    assert_eq!(modify_bytes(&meta.size[&0x20]).unwrap(), &50u64.to_le_bytes().to_vec());
}

#[test]
fn resolve_removed_table_gives_its_size_back() {
    let mut store = Store::default();
    store.owners.insert(0x40, 0x1);
    store.sizes.insert(0x40, 30);
    let new_tables: BTreeSet<u128> = BTreeSet::new();
    let removed: BTreeSet<u128> = [0x40u128].into_iter().collect();
    let mut sizes = BTreeMap::new();
    sizes.insert(0x40u128, SizeDelta::decreasing(30));
    let (accounts, meta) = resolve_table_size_change(
        &new_tables,
        &removed,
        &vec![],
        &vec![],
        &SizeChangeSet::new(sizes),
        &store,
    )
    .unwrap();
    let a = accounts.changes().get(&0x1).unwrap();
    assert_eq!((a.amount, a.is_decrease), (30, true));
    assert!(matches!(meta.owner[&0x40], Op::Delete));
    assert!(matches!(meta.size[&0x40], Op::Delete));
}

#[test]
fn resolve_reports_storage_errors() {
    let mut store = Store::default();
    store.broken.insert(0x99);
    let new_tables: BTreeSet<u128> = BTreeSet::new();
    let removed: BTreeSet<u128> = BTreeSet::new();
    let resource_addresses = vec![(0x1u128, vec![0x99u128])];
    let r = resolve_table_size_change(
        &new_tables,
        &removed,
        &resource_addresses,
        &vec![],
        &SizeChangeSet::default(),
        &store,
    );
    match r {
        Err(e) => assert_eq!(e.major_status, STORAGE_ERROR),
        Ok(_) => panic!("expected the storage error"),
    }
}

#[test]
fn table_sizes_add_to_account_changes() {
    let mut store = Store::default();
    store.owners.insert(0x40, 0x1);
    store.sizes.insert(0x40, 30);
    let removed: BTreeSet<u128> = [0x40u128].into_iter().collect();
    let mut accounts = SizeChangeSet::default();
    accounts.insert_size(0x1, SizeDelta::increasing(100));
    accounts.insert_size(0x2, SizeDelta::increasing(5));
    let meta = add_table_size_changes(
        &mut accounts,
        &BTreeSet::new(),
        &removed,
        &vec![],
        &vec![],
        &SizeChangeSet::default(),
        &store,
    )
    .unwrap();
    let a = accounts.changes().get(&0x1).unwrap();
    assert_eq!((a.amount, a.is_decrease), (70, false));
    assert_eq!(accounts.changes().get(&0x2).unwrap().amount, 5);
    assert!(matches!(meta.owner[&0x40], Op::Delete));

    // an error leaves the account changes as they were
    store.broken.insert(0x40);
    let mut accounts = SizeChangeSet::default();
    accounts.insert_size(0x1, SizeDelta::increasing(100));
    assert!(add_table_size_changes(
        &mut accounts,
        &BTreeSet::new(),
        &removed,
        &vec![],
        &vec![],
        &SizeChangeSet::default(),
        &store,
    )
    .is_err());
    assert_eq!(accounts.changes().get(&0x1).unwrap().amount, 100);
}

#[test]
fn new_table_size_counts_toward_its_owner() {
    // account 0x2 writes a resource (a 74-byte key, 28 bytes of value) that
    // holds a new table, and the table gets 3 entries (59-byte keys, 8-byte
    // values): 102 bytes for the resource and 3 * 67 = 201 for the table
    let table = 0x90abu128;
    let accounts = vec![(
        0x2u128,
        vec![KeyedWrite { key_size: 74, prev_size: 0, op: Op::New(vec![0; 28]) }],
    )];
    let tables = vec![(
        table,
        (0..3)
            .map(|_| KeyedWrite { key_size: 59, prev_size: 0, op: Op::New(vec![0; 8]) })
            .collect::<Vec<_>>(),
    )];
    let mut account_changes = collect_size_changes(&accounts);
    let table_changes = collect_size_changes(&tables);
    assert_eq!(table_changes.changes()[&table].amount, 201);

    let store = Store::default();
    let new_tables: BTreeSet<u128> = [table].into_iter().collect();
    add_table_size_changes(
        &mut account_changes,
        &new_tables,
        &BTreeSet::new(),
        &vec![(0x2u128, vec![0x2u128, table])],
        &vec![],
        &table_changes,
        &store,
    )
    .unwrap();
    let d = account_changes.changes()[&0x2];
    assert_eq!((d.amount, d.is_decrease), (102 + 201, false));
}
