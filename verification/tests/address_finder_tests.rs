use novavm::address_finder::{addresses_in_write, find_all_address_occur, ValueShape};
use novavm::table_meta::effects::Op;

#[test]
fn addresses_in_depth_first_order() {
    let value = ValueShape::Struct(vec![
        ValueShape::Primitive,
        ValueShape::Address(3),
        ValueShape::Vector(vec![
            ValueShape::Struct(vec![ValueShape::Address(1)]),
            ValueShape::AddressVector(vec![4, 5]),
        ]),
        ValueShape::Reference,
        ValueShape::Address(2),
    ]);
    assert_eq!(find_all_address_occur(Some(&value)), vec![3, 1, 4, 5, 2]);
    assert!(find_all_address_occur(None).is_empty());
    assert!(find_all_address_occur(Some(&ValueShape::Reference)).is_empty());
}

#[test]
fn addresses_left_by_a_write() {
    let value = ValueShape::Struct(vec![ValueShape::Address(7), ValueShape::AddressVector(vec![8])]);
    assert_eq!(addresses_in_write(&Op::New(vec![1]), Some(&value)).unwrap(), vec![7, 8]);
    assert_eq!(addresses_in_write(&Op::Modify(vec![1]), Some(&value)).unwrap(), vec![7, 8]);
    assert!(addresses_in_write(&Op::Delete, None).unwrap().is_empty());
    let e = addresses_in_write(&Op::New(vec![0xff]), None).unwrap_err();
    assert_eq!(e.major_status, 2019);
    assert!(e.message.is_none());
}
