use novavm::state_key::{AccessPath, StateKey, StateKeyDecodeErr, StateKeyTag};

#[test]
fn access_path_key_round_trips() {
    let key = StateKey::AccessPath(AccessPath::new(0x0102, vec![7, 8, 9]));
    let bytes = key.encode().unwrap();
    let mut expected = vec![0u8];
    let mut address = vec![0u8; 14];
    address.extend_from_slice(&[1, 2]);
    expected.extend_from_slice(&address);
    expected.extend_from_slice(&[3, 7, 8, 9]);
    assert_eq!(bytes, expected);
    match StateKey::decode(&bytes).unwrap() {
        StateKey::AccessPath(ap) => {
            assert_eq!(ap.address, 0x0102);
            assert_eq!(ap.path, vec![7, 8, 9]);
        }
        StateKey::Raw(_) => panic!("expected an access path"),
    }
}

#[test]
fn raw_key_round_trips() {
    let key = StateKey::Raw(vec![1, 2, 3]);
    let bytes = key.encode().unwrap();
    assert_eq!(bytes, vec![255, 1, 2, 3]);
    match StateKey::decode(&bytes).unwrap() {
        StateKey::Raw(b) => assert_eq!(b, vec![1, 2, 3]),
        StateKey::AccessPath(_) => panic!("expected a raw key"),
    }
}

#[test]
fn decode_errors() {
    assert!(matches!(StateKey::decode(&[]), Err(StateKeyDecodeErr::EmptyInput)));
    assert!(matches!(
        StateKey::decode(&[7, 1]),
        Err(StateKeyDecodeErr::UnknownTag { unknown_tag: 7 })
    ));
    // an access path whose body is not a valid encoding
    assert!(matches!(StateKey::decode(&[0, 1, 2]), Err(StateKeyDecodeErr::BcsError(_))));
}

#[test]
fn tags() {
    assert_eq!(StateKeyTag::AccessPath.to_u8(), 0);
    assert_eq!(StateKeyTag::Raw.to_u8(), 255);
    assert!(matches!(StateKeyTag::from_u8(0), Some(StateKeyTag::AccessPath)));
    assert!(matches!(StateKeyTag::from_u8(255), Some(StateKeyTag::Raw)));
    assert!(StateKeyTag::from_u8(1).is_none());
}

#[test]
fn access_paths_compare_by_content() {
    let a = AccessPath::new(5, vec![1, 2]);
    assert!(a.same(&a.clone()));
    assert!(!a.same(&AccessPath::new(5, vec![1, 3])));
    assert!(!a.same(&AccessPath::new(6, vec![1, 2])));
}
