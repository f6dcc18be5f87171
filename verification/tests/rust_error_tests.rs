use novavm::backend_error::{BackendError, GoError};
use novavm::memory::UnmanagedVector;
use novavm::rust_error::{
    clear_error, errno_for, handle_c_error_binary, handle_c_error_default, set_error, ErrnoValue,
    RustError,
};
use novavm::vm_error::NovaVMError;

// GoError test
#[test]
fn go_error_into_result_works() {
    let default = || "Something went wrong but we don't know".to_string();
    let error = GoError::NoError;
    let error_msg = UnmanagedVector::new(None);
    let a = error.into_result(error_msg, default());
    assert_eq!(a, Ok(()));

    let error = GoError::Panic;
    let error_msg = UnmanagedVector::new(None);
    let a = error.into_result(error_msg, default());
    assert_eq!(a.unwrap_err(), BackendError::ForeignPanic {});

    let error = GoError::BadArgument;
    let error_msg = UnmanagedVector::new(None);
    let a = error.into_result(error_msg, default());
    assert_eq!(a.unwrap_err(), BackendError::BadArgument {});

    let error = GoError::OutOfGas;
    let error_msg = UnmanagedVector::new(None);
    let a = error.into_result(error_msg, default());
    assert_eq!(a.unwrap_err(), BackendError::OutOfGas {});

    let error = GoError::Unimplemented;
    let error_msg = UnmanagedVector::new(None);
    let a = error.into_result(error_msg, default());
    assert_eq!(a.unwrap_err(), BackendError::Unimplemented {});

    // CannotSerialize maps to Unknown
    let error = GoError::CannotSerialize;
    let error_msg = UnmanagedVector::new(None);
    let a = error.into_result(error_msg, default());
    assert_eq!(a.unwrap_err(), BackendError::Unknown { msg: default() });

    // GoError::User with none message
    let error = GoError::User;
    let error_msg = UnmanagedVector::new(None);
    let a = error.into_result(error_msg, default());
    assert_eq!(a.unwrap_err(), BackendError::UserErr { msg: default() });

    // GoError::User with some message
    let error = GoError::User;
    let error_msg = UnmanagedVector::new(Some(Vec::from(b"kaputt" as &[u8])));
    let a = error.into_result(error_msg, default());
    assert_eq!(
        a.unwrap_err(),
        BackendError::UserErr {
            msg: "kaputt".to_string()
        }
    );

    // GoError::User with some message too long message
    let error = GoError::User;
    let error_msg = UnmanagedVector::new(Some(vec![0x61; 10000])); // 10000 times "a"
    let a = error.into_result(error_msg, default());
    assert_eq!(
        a.unwrap_err(),
        BackendError::UserErr {
            msg: "a".repeat(8192)
        }
    );

    // GoError::Other with none message
    let error = GoError::Other;
    let error_msg = UnmanagedVector::new(None);
    let a = error.into_result(error_msg, default());
    assert_eq!(a.unwrap_err(), BackendError::Unknown { msg: default() });

    // GoError::Other with some message
    let error = GoError::Other;
    let error_msg = UnmanagedVector::new(Some(Vec::from(b"kaputt" as &[u8])));
    let a = error.into_result(error_msg, default());
    assert_eq!(
        a.unwrap_err(),
        BackendError::Unknown {
            msg: "kaputt".to_string()
        }
    );

    // GoError::Other with some message too long message
    let error = GoError::Other;
    let error_msg = UnmanagedVector::new(Some(vec![0x61; 10000])); // 10000 times "a"
    let a = error.into_result(error_msg, default());
    assert_eq!(
        a.unwrap_err(),
        BackendError::Unknown {
            msg: "a".repeat(8192)
        }
    );
}

#[test]
fn empty_arg_works() {
    let error = RustError::empty_arg("gas");
    match error {
        RustError::EmptyArg { name, .. } => {
            assert_eq!(name, "gas");
        }
        _ => panic!("expect different error"),
    }
}

#[test]
fn invalid_utf8_works_for_strings() {
    let error = RustError::invalid_utf8("my text");
    match error {
        RustError::InvalidUtf8 { msg, .. } => {
            assert_eq!(msg, "my text");
        }
        _ => panic!("expect different error"),
    }
}

#[test]
fn panic_works() {
    let error = RustError::panic();
    match error {
        RustError::Panic { .. } => {}
        _ => panic!("expect different error"),
    }
}

#[test]
fn unset_arg_works() {
    let error = RustError::unset_arg("gas");
    match error {
        RustError::UnsetArg { name, .. } => {
            assert_eq!(name, "gas");
        }
        _ => panic!("expect different error"),
    }
}

#[test]
fn vm_err_works_for_strings() {
    let error = RustError::vm_err("my text");
    match error {
        RustError::VmErr { msg, .. } => {
            assert_eq!(msg, "my text");
        }
        _ => panic!("expect different error"),
    }
}

#[test]
fn rust_error_texts() {
    assert_eq!(RustError::empty_arg("gas").to_string(), "Empty argument: gas");
    assert_eq!(
        RustError::invalid_utf8("x").to_string(),
        "Cannot decode UTF8 bytes into string: x"
    );
    assert_eq!(RustError::out_of_gas().to_string(), "Ran out of gas");
    assert_eq!(RustError::panic().to_string(), "Caught panic");
    assert_eq!(RustError::unset_arg("sender").to_string(), "Null/Nil argument: sender");
    assert_eq!(RustError::vm_err("bad").to_string(), "Error calling the VM: bad");
    assert_eq!(
        RustError::backend_failure("io").to_string(),
        "failure occured from backend: io"
    );
}

#[test]
fn vm_errors_become_rust_errors() {
    match RustError::from_vm_error(NovaVMError::gas_depletion()) {
        RustError::OutOfGas {} => {}
        _ => panic!("expect different error"),
    }
    match RustError::from_vm_error(NovaVMError::generic_err("7 is too low")) {
        RustError::VmErr { msg } => assert_eq!(msg, "Generic error: 7 is too low"),
        _ => panic!("expect different error"),
    }
}

#[test]
fn errno_values() {
    assert_eq!(ErrnoValue::Success.code(), 0);
    assert_eq!(ErrnoValue::Other.code(), 1);
    assert_eq!(ErrnoValue::OutOfGas.code(), 2);
}

#[test]
fn set_error_writes_message_and_errno() {
    let mut error_msg = UnmanagedVector::default();
    set_error(RustError::out_of_gas(), Some(&mut error_msg));
    assert_eq!(errno::errno().0, ErrnoValue::OutOfGas.code());
    assert_eq!(error_msg.consume(), Some(b"Ran out of gas".to_vec()));

    // without a buffer only errno is set
    set_error(RustError::panic(), None);
    assert_eq!(errno::errno().0, ErrnoValue::Other.code());

    clear_error();
    assert_eq!(errno::errno().0, ErrnoValue::Success.code());
}

#[test]
fn handle_c_error_binary_works() {
    // Ok (non-empty vector)
    let mut error_msg = UnmanagedVector::default();
    let res: Result<Vec<u8>, RustError> = Ok(vec![0xF0, 0x0B, 0xAA]);
    let data = handle_c_error_binary(res, Some(&mut error_msg));
    assert_eq!(errno::errno().0, ErrnoValue::Success.code());
    assert!(error_msg.is_none());
    assert_eq!(data, vec![0xF0, 0x0B, 0xAA]);

    // Ok (empty vector)
    let mut error_msg = UnmanagedVector::default();
    let res: Result<Vec<u8>, RustError> = Ok(vec![]);
    let data = handle_c_error_binary(res, Some(&mut error_msg));
    assert_eq!(errno::errno().0, ErrnoValue::Success.code());
    assert!(error_msg.is_none());
    assert_eq!(data, Vec::<u8>::new());

    // Err (vector)
    let mut error_msg = UnmanagedVector::default();
    let res: Result<Vec<u8>, RustError> = Err(RustError::panic());
    let data = handle_c_error_binary(res, Some(&mut error_msg));
    assert_eq!(errno::errno().0, ErrnoValue::Other.code());
    assert!(error_msg.is_some());
    assert_eq!(data, Vec::<u8>::new());
    assert_eq!(error_msg.consume(), Some(b"Caught panic".to_vec()));
}

#[test]
fn handle_c_error_binary_clears_an_old_error() {
    // Err
    let mut error_msg = UnmanagedVector::default();
    let res: Result<Vec<u8>, RustError> = Err(RustError::panic());
    let data = handle_c_error_binary(res, Some(&mut error_msg));
    assert_eq!(errno::errno().0, ErrnoValue::Other.code());
    assert!(error_msg.is_some());
    assert_eq!(data, Vec::<u8>::new());

    // Ok
    let mut error_msg = UnmanagedVector::default();
    let res: Result<Vec<u8>, RustError> = Ok(vec![0xF0, 0x0B, 0xAA]);
    let data = handle_c_error_binary(res, Some(&mut error_msg));
    assert_eq!(errno::errno().0, ErrnoValue::Success.code());
    assert!(error_msg.is_none());
    assert_eq!(data, vec![0xF0, 0x0B, 0xAA]);
}

#[test]
fn handle_c_error_default_works() {
    // Ok (non-empty vector)
    let mut error_msg = UnmanagedVector::default();
    let res: Result<Vec<u8>, RustError> = Ok(vec![0xF0, 0x0B, 0xAA]);
    let data = handle_c_error_default(res, Some(&mut error_msg));
    assert_eq!(errno::errno().0, ErrnoValue::Success.code());
    assert!(error_msg.is_none());
    assert_eq!(data, vec![0xF0, 0x0B, 0xAA]);

    // Ok (unit)
    let mut error_msg = UnmanagedVector::default();
    let res: Result<(), RustError> = Ok(());
    handle_c_error_default(res, Some(&mut error_msg));
    assert_eq!(errno::errno().0, ErrnoValue::Success.code());
    assert!(error_msg.is_none());

    // Err (vector)
    let mut error_msg = UnmanagedVector::default();
    let res: Result<Vec<u8>, RustError> = Err(RustError::out_of_gas());
    let data = handle_c_error_default(res, Some(&mut error_msg));
    assert_eq!(errno::errno().0, ErrnoValue::OutOfGas.code());
    assert!(error_msg.is_some());
    assert_eq!(data, Vec::<u8>::new());

    // Err (u64)
    let mut error_msg = UnmanagedVector::default();
    let res: Result<u64, RustError> = Err(RustError::vm_err("x"));
    let data = handle_c_error_default(res, Some(&mut error_msg));
    assert_eq!(errno::errno().0, ErrnoValue::Other.code());
    assert_eq!(data, 0);
    assert_eq!(error_msg.consume(), Some(b"Error calling the VM: x".to_vec()));
}

#[test]
fn errno_values_by_error() {
    assert_eq!(errno_for(&RustError::out_of_gas()), ErrnoValue::OutOfGas);
    assert_eq!(errno_for(&RustError::panic()), ErrnoValue::Other);
    assert_eq!(errno_for(&RustError::vm_err("x")), ErrnoValue::Other);
    assert_eq!(ErrnoValue::OutOfGas.code(), 2);
    assert_eq!(ErrnoValue::Other.code(), 1);
    assert_eq!(ErrnoValue::Success.code(), 0);
}
