use novavm::message::MessagePayloadType;
use novavm::rust_error::RustError;
use novavm::vm_error::NovaVMError;
use novavm::vm_flow::{check_sender, gas_used, genesis_publisher, route_message, MessageRoute};

#[test]
fn routes() {
    match route_message(MessagePayloadType::Script, Some(5)).unwrap() {
        MessageRoute::ExecuteCode { senders } => assert_eq!(senders, vec![5]),
        r => panic!("unexpected route {:?}", r),
    }
    match route_message(MessagePayloadType::EntryFunction, None).unwrap() {
        MessageRoute::ExecuteCode { senders } => assert!(senders.is_empty()),
        r => panic!("unexpected route {:?}", r),
    }
    match route_message(MessagePayloadType::ModuleBundle, Some(9)).unwrap() {
        MessageRoute::PublishBundle { sender } => assert_eq!(sender, 9),
        r => panic!("unexpected route {:?}", r),
    }
    match route_message(MessagePayloadType::ModuleBundle, None) {
        Err(NovaVMError::GenericErr { msg }) => assert_eq!(msg, "sender unset"),
        r => panic!("unexpected result {:?}", r),
    }
}

#[test]
fn transactions_need_a_sender() {
    assert!(check_sender(true, None).is_ok());
    assert!(check_sender(false, Some(1)).is_ok());
    match check_sender(false, None) {
        Err(RustError::UnsetArg { name }) => assert_eq!(name, "sender"),
        r => panic!("unexpected result {:?}", r),
    }
}

#[test]
fn genesis_and_gas() {
    assert_eq!(genesis_publisher(&vec![1, 1, 1]), 1);
    assert_eq!(gas_used(100, 30), 70);
}
