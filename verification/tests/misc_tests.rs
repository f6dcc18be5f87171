use novavm::gas::{KernelStdlibGasParameters, NativeGasParameters};
use novavm::message::{discard_error_output, KeptVMStatus, MessagePayloadType, MessageStatus};

#[test]
fn zero_gas_tables() {
    let n = NativeGasParameters::zeros();
    assert_eq!(n.signature.bls12381.per_proof_of_possession_verify, 0);
    assert_eq!(n.signature.ed25519.per_msg_byte_hashing, 0);
    assert_eq!(n.code.request_publish.unit, 0);
    let k = KernelStdlibGasParameters::zeros();
    assert_eq!(k.bank.transfer.base, 0);
}

#[test]
fn payload_types() {
    assert_eq!(MessagePayloadType::try_from_u8(0).unwrap(), MessagePayloadType::Script);
    assert_eq!(MessagePayloadType::try_from_u8(1).unwrap(), MessagePayloadType::ModuleBundle);
    assert!(MessagePayloadType::try_from_u8(2).is_err());
    match MessagePayloadType::try_from_u8(7) {
        Err(e) => assert_eq!(e.to_string(), "invalid PayloadType"),
        Ok(t) => panic!("unexpected payload type {:?}", t),
    }
    assert_eq!(MessagePayloadType::EntryFunction.to_u8(), 2);
    for t in [MessagePayloadType::Script, MessagePayloadType::ModuleBundle] {
        assert_eq!(MessagePayloadType::try_from_u8(t.to_u8()).unwrap(), t);
    }
}

#[test]
fn message_statuses() {
    let kept = MessageStatus::Keep(KeptVMStatus::OutOfGas);
    assert!(!kept.is_discarded());
    assert_eq!(kept.status(), Ok(KeptVMStatus::OutOfGas));
    let discarded = MessageStatus::Discard(1011);
    assert!(discarded.is_discarded());
    assert_eq!(discarded.status(), Err(1011));
    let out = discard_error_output(1011, 5);
    assert!(out.events.is_empty());
    assert!(out.size_change_set.changes().is_empty());
    assert_eq!(out.gas_used, 5);
    assert_eq!(out.status, MessageStatus::Discard(1011));
}

#[test]
fn standard_named_addresses() {
    let named = novavm::asset::named_addresses();
    assert_eq!(named, vec![("nova_std".to_string(), 1u128), ("std".to_string(), 1u128)]);
}

#[test]
fn genesis_publishes_at_core_address() {
    assert_eq!(novavm::message::genesis_address(), novavm::message::CORE_CODE_ADDRESS);
    assert_eq!(novavm::message::genesis_address(), 1);
}

#[test]
fn message_output_parts() {
    let out = novavm::message::MessageOutput::new(
        vec![],
        novavm::size_change_set::SizeChangeSet::default(),
        novavm::table_meta::data_cache::TableMetaChangeSet::default(),
        21,
        MessageStatus::Keep(KeptVMStatus::Executed),
    );
    assert_eq!(out.gas_used(), 21);
    assert_eq!(out.status(), &MessageStatus::Keep(KeptVMStatus::Executed));
    assert!(out.events().is_empty());
    let (events, gas, status) = out.into_inner();
    assert!(events.is_empty());
    assert_eq!(gas, 21);
    assert_eq!(status, MessageStatus::Keep(KeptVMStatus::Executed));
}
