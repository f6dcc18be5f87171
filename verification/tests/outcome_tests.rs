use novavm::message::{KeptVMStatus, MessageStatus, SessionOutput};
use novavm::size_change_set::{SizeChangeSet, SizeDelta};
use novavm::vm_error::{AbortLocation, VMStatus};
use novavm::rust_error::RustError;
use novavm::vm_flow::{
    discard_error_vm_status, failed_message_cleanup, run_outcome, settle_failed_message,
};
use novavm::vm_status::{status_type, StatusType};

fn session_with_change() -> SessionOutput {
    let mut sizes = SizeChangeSet::default();
    sizes.insert_size(7, SizeDelta::increasing(40));
    SessionOutput {
        events: vec![],
        account_size_changes: sizes,
        table_size_changes: SizeChangeSet::default(),
    }
}

#[test]
fn status_types_follow_code_ranges() {
    assert_eq!(status_type(0), StatusType::Validation);
    assert_eq!(status_type(999), StatusType::Validation);
    assert_eq!(status_type(1000), StatusType::Verification);
    assert_eq!(status_type(2019), StatusType::InvariantViolation);
    assert_eq!(status_type(3024), StatusType::Deserialization);
    assert_eq!(status_type(4016), StatusType::Execution);
    assert_eq!(status_type(5000), StatusType::Unknown);
    assert_eq!(status_type(u64::MAX), StatusType::Unknown);
}

#[test]
fn keep_or_discard_by_status() {
    assert_eq!(VMStatus::Executed.keep_or_discard(), Ok(KeptVMStatus::Executed));
    assert_eq!(VMStatus::Error(4002).keep_or_discard(), Ok(KeptVMStatus::OutOfGas));
    let failure = VMStatus::ExecutionFailure {
        status_code: 4002,
        location: AbortLocation::Script,
        function: 3,
        code_offset: 9,
    };
    assert_eq!(failure.keep_or_discard(), Ok(KeptVMStatus::OutOfGas));
    let failure = VMStatus::ExecutionFailure {
        status_code: 4020,
        location: AbortLocation::Script,
        function: 3,
        code_offset: 9,
    };
    assert_eq!(
        failure.keep_or_discard(),
        Ok(KeptVMStatus::ExecutionFailure { location: AbortLocation::Script, function: 3, code_offset: 9 })
    );
    let abort = VMStatus::MoveAbort(AbortLocation::Module { address: 1, name: "coin".to_string() }, 17);
    assert_eq!(
        abort.keep_or_discard(),
        Ok(KeptVMStatus::MoveAbort(AbortLocation::Module { address: 1, name: "coin".to_string() }, 17))
    );
    assert_eq!(VMStatus::Error(1011).keep_or_discard(), Ok(KeptVMStatus::MiscellaneousError));
    assert_eq!(VMStatus::Error(3024).keep_or_discard(), Ok(KeptVMStatus::MiscellaneousError));
    assert_eq!(
        VMStatus::Error(4020).keep_or_discard(),
        Ok(KeptVMStatus::ExecutionFailure { location: AbortLocation::Script, function: 0, code_offset: 0 })
    );
    assert_eq!(VMStatus::Error(10).keep_or_discard(), Err(10));
    assert_eq!(VMStatus::Error(2011).keep_or_discard(), Err(2011));
    assert_eq!(VMStatus::Error(u64::MAX).keep_or_discard(), Err(u64::MAX));
}

#[test]
fn status_codes() {
    assert_eq!(VMStatus::Executed.status_code(), 4001);
    assert_eq!(VMStatus::MoveAbort(AbortLocation::Script, 3).status_code(), 4016);
    assert_eq!(VMStatus::Error(2011).status_code(), 2011);
}

#[test]
fn message_status_from_vm_status() {
    assert_eq!(MessageStatus::from(VMStatus::Error(2011)), MessageStatus::Discard(2011));
    assert_eq!(MessageStatus::from(VMStatus::Executed), MessageStatus::Keep(KeptVMStatus::Executed));
    assert!(MessageStatus::from(VMStatus::Error(5)).is_discarded());
    assert!(!MessageStatus::from(VMStatus::Error(4002)).is_discarded());
}

#[test]
fn discarding_an_error() {
    let (status, out) = discard_error_vm_status(VMStatus::Error(2011), 30);
    assert_eq!(status, VMStatus::Error(2011));
    assert_eq!(out.gas_used, 30);
    assert_eq!(out.status, MessageStatus::Discard(2011));
    assert!(out.events.is_empty());
    assert!(out.size_change_set.changes().is_empty());
    // a status that would be kept is discarded with its own code
    let (_, out) = discard_error_vm_status(VMStatus::Executed, 1);
    assert_eq!(out.status, MessageStatus::Discard(4001));
}

#[test]
fn cleaning_up_a_failed_message() {
    let (status, out) = failed_message_cleanup(VMStatus::Error(4002), session_with_change(), 12);
    assert_eq!(status, VMStatus::Error(4002));
    assert_eq!(out.status, MessageStatus::Keep(KeptVMStatus::OutOfGas));
    assert_eq!(out.gas_used, 12);
    assert_eq!(out.size_change_set.changes().len(), 1);

    let (status, out) = failed_message_cleanup(VMStatus::Error(2011), session_with_change(), 12);
    assert_eq!(status, VMStatus::Error(2011));
    assert_eq!(out.status, MessageStatus::Discard(2011));
    assert!(out.size_change_set.changes().is_empty());
}

#[test]
fn settling_a_failed_message() {
    let abort = VMStatus::MoveAbort(AbortLocation::Script, 9);
    let (status, out) = settle_failed_message(abort.clone(), 44, session_with_change());
    assert_eq!(status, abort);
    assert_eq!(out.status, MessageStatus::Keep(KeptVMStatus::MoveAbort(AbortLocation::Script, 9)));
    assert_eq!(out.gas_used, 44);
    assert_eq!(out.size_change_set.changes().len(), 1);

    let (status, out) = settle_failed_message(VMStatus::Error(1), 44, session_with_change());
    assert_eq!(status, VMStatus::Error(1));
    assert_eq!(out.status, MessageStatus::Discard(1));
    assert!(out.size_change_set.changes().is_empty());
}

#[test]
fn outcome_of_a_run() {
    assert!(matches!(run_outcome(VMStatus::Executed, false), Ok(true)));
    assert!(matches!(run_outcome(VMStatus::Executed, true), Ok(false)));
    let out_of_gas = VMStatus::ExecutionFailure {
        status_code: 4002,
        location: AbortLocation::Script,
        function: 0,
        code_offset: 1,
    };
    assert!(matches!(run_outcome(out_of_gas, false), Err(RustError::OutOfGas {})));
    match run_outcome(VMStatus::Error(2011), true) {
        Err(RustError::VmErr { msg }) => assert_eq!(msg, "errors from the move vm"),
        r => panic!("unexpected result {:?}", r),
    }
}
