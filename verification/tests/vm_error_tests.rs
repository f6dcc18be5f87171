use novavm::vm_error::{AbortLocation, NovaVMError, VMStatus, VmError};
use novavm::vm_status::OUT_OF_GAS;

#[test]
fn gas_depletion_works() {
    let error = VmError::gas_depletion();
    match error {
        VmError::GasDepletion { .. } => {}
        e => panic!("Unexpected error: {:?}", e),
    }
}

#[test]
fn generic_err_works() {
    let guess = 7;
    let error = VmError::generic_err(&format!("{} is too low", guess));
    match error {
        VmError::GenericErr { msg, .. } => {
            assert_eq!(msg, String::from("7 is too low"));
        }
        e => panic!("Unexpected error: {:?}", e),
    }
}

#[test]
fn out_of_gas_execution_failure_is_gas_depletion() {
    let status = VMStatus::ExecutionFailure {
        status_code: OUT_OF_GAS,
        location: AbortLocation::Script,
        function: 0,
        code_offset: 3,
    };
    assert!(matches!(NovaVMError::from(status), NovaVMError::GasDepletion {}));
}

#[test]
fn other_statuses_are_move_errors() {
    let failure = VMStatus::ExecutionFailure {
        status_code: 4016,
        location: AbortLocation::Module { address: 1, name: "coin".to_string() },
        function: 2,
        code_offset: 9,
    };
    match NovaVMError::from(failure) {
        NovaVMError::MoveError { status } => assert_eq!(
            status,
            VMStatus::ExecutionFailure {
                status_code: 4016,
                location: AbortLocation::Module { address: 1, name: "coin".to_string() },
                function: 2,
                code_offset: 9,
            }
        ),
        e => panic!("Unexpected error: {:?}", e),
    }
    // out of gas outside an execution failure stays a Move error
    match NovaVMError::from(VMStatus::Error(OUT_OF_GAS)) {
        NovaVMError::MoveError { status } => assert_eq!(status, VMStatus::Error(OUT_OF_GAS)),
        e => panic!("Unexpected error: {:?}", e),
    }
}

#[test]
fn vm_error_texts() {
    assert_eq!(
        NovaVMError::gas_depletion().to_string(),
        "Ran out of gas during contract execution"
    );
    assert_eq!(
        NovaVMError::move_error(VMStatus::Executed).to_string(),
        "errors from the move vm"
    );
    assert_eq!(NovaVMError::generic_err("boom").to_string(), "Generic error: boom");
}
