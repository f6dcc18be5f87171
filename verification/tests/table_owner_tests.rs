use novavm::table_meta::effects::Op;
use novavm::table_owner::{TableOwnerDataCache, TableOwnerResolver};
use novavm::vm_status::VMError;

struct Owners;

impl TableOwnerResolver for Owners {
    fn get_owner(&self, handle: &u128) -> Result<Option<Vec<u8>>, VMError> {
        if *handle == 0x10 {
            Ok(Some(0x1u128.to_be_bytes().to_vec()))
        } else {
            Ok(None)
        }
    }
}

#[test]
fn owner_cache() {
    let mut cache = TableOwnerDataCache::new(&Owners);
    assert_eq!(cache.get_owner(&0x10).unwrap(), Some(0x1));
    assert!(cache.is_registerd_table(&0x10).unwrap());
    assert!(!cache.is_registerd_table(&0x11).unwrap());
    cache.set_owner(&0x11, &0x2);
    assert_eq!(cache.get_owner(&0x11).unwrap(), Some(0x2));
    cache.del_owner(&0x10);
    assert_eq!(cache.get_owner(&0x10).unwrap(), None);
    let cs = cache.into_change_set().unwrap();
    assert!(matches!(cs.owner[&0x10], Op::Delete));
    match &cs.owner[&0x11] {
        Op::Modify(b) => assert_eq!(b, &0x2u128.to_be_bytes().to_vec()),
        _ => panic!("expected a modification"),
    }
}
