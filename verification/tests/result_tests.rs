use move_core_types::language_storage::TypeTag;
use novavm::message::{MessageOutput, MessageStatus, KeptVMStatus};
use novavm::result::{generate_result, SerializedReturnValues};
use novavm::rust_error::RustError;
use novavm::size_change_set::{SizeChangeSet, SizeDelta};
use novavm::vm_error::{AbortLocation, VMStatus};
use novavm::table_meta::data_cache::TableMetaChangeSet;

fn output() -> MessageOutput {
    let mut sizes = SizeChangeSet::default();
    sizes.insert_size(2, SizeDelta::decreasing(4));
    sizes.insert_size(1, SizeDelta::increasing(9));
    MessageOutput::new(
        vec![(vec![1, 2], 3, TypeTag::Bool, vec![9])],
        sizes,
        TableMetaChangeSet::default(),
        77,
        MessageStatus::Keep(KeptVMStatus::Executed),
    )
}

#[test]
fn execution_gives_the_status_text() {
    let res = generate_result(VMStatus::Executed, output(), None, false).unwrap();
    assert_eq!(res.result, b"status EXECUTED of type Execution".to_vec());
    assert_eq!(res.gas_used, 77);
    assert_eq!(res.events.len(), 1);
    assert_eq!(res.events[0].key, vec![1, 2]);
    assert_eq!(res.events[0].sequence_number, 3);
    assert_eq!(res.events[0].type_tag, TypeTag::Bool);
    assert_eq!(res.events[0].event_data, vec![9]);
    // size changes in address order
    assert_eq!(res.size_deltas.len(), 2);
    assert_eq!((res.size_deltas[0].address, res.size_deltas[0].amount, res.size_deltas[0].is_decreasing), (1, 9, false));
    assert_eq!((res.size_deltas[1].address, res.size_deltas[1].amount, res.size_deltas[1].is_decreasing), (2, 4, true));
}

#[test]
fn a_query_gives_its_single_value() {
    let retval = SerializedReturnValues {
        mutable_reference_outputs: vec![],
        return_values: vec![vec![42, 0]],
    };
    let res = generate_result(VMStatus::Executed, output(), Some(retval), true).unwrap();
    assert_eq!(res.result, vec![42, 0]);

    // a transaction ignores the values
    let retval = SerializedReturnValues {
        mutable_reference_outputs: vec![],
        return_values: vec![vec![42, 0]],
    };
    let res = generate_result(VMStatus::Executed, output(), Some(retval), false).unwrap();
    assert_eq!(res.result, b"status EXECUTED of type Execution".to_vec());
}

#[test]
fn a_query_may_return_one_value_only() {
    let retval = SerializedReturnValues {
        mutable_reference_outputs: vec![],
        return_values: vec![vec![1], vec![2]],
    };
    match generate_result(VMStatus::Executed, output(), Some(retval), true) {
        Err(RustError::VmErr { msg }) => {
            assert_eq!(msg, "only one value is allowed to be returned.")
        }
        _ => panic!("expected an error"),
    }
    let retval = SerializedReturnValues {
        mutable_reference_outputs: vec![(0, vec![1])],
        return_values: vec![vec![2]],
    };
    assert!(generate_result(VMStatus::Executed, output(), Some(retval), true).is_err());
}

#[test]
fn status_texts() {
    assert_eq!(VMStatus::Executed.to_string(), "status EXECUTED of type Execution");
    assert_eq!(VMStatus::Error(4002).to_string(), "status OUT_OF_GAS of type Execution");
    assert_eq!(
        VMStatus::MoveAbort(AbortLocation::Script, 17).to_string(),
        "status ABORTED of type Execution with sub status 17"
    );
    assert_eq!(
        VMStatus::MoveAbort(AbortLocation::Script, 0).to_string(),
        "status ABORTED of type Execution with sub status 0"
    );
    assert_eq!(
        VMStatus::Error(u64::MAX).to_string(),
        "status UNKNOWN_STATUS of type Unknown"
    );
}

#[test]
fn an_abort_reports_its_text() {
    let res = generate_result(VMStatus::MoveAbort(AbortLocation::Script, 1234), output(), None, false).unwrap();
    assert_eq!(res.result, b"status ABORTED of type Execution with sub status 1234".to_vec());
}
