use novavm::backend_error::{
    block_info_result, db_read_result, db_remove_result, db_write_result, query_call_result,
    BackendError, GoError,
};
use novavm::memory::UnmanagedVector;

#[test]
fn read_returns_what_the_host_wrote() {
    let out = UnmanagedVector::new(Some(vec![1, 2, 3]));
    let r = db_read_result(GoError::NoError, out, UnmanagedVector::new(None), b"key");
    assert_eq!(r, Ok(Some(vec![1, 2, 3])));
    let r = db_read_result(GoError::NoError, UnmanagedVector::new(None), UnmanagedVector::new(None), b"key");
    assert_eq!(r, Ok(None));
}

#[test]
fn failed_read_falls_back_to_key_message() {
    let out = UnmanagedVector::new(Some(vec![9]));
    let r = db_read_result(GoError::Other, out, UnmanagedVector::new(None), b"0x1/Coin");
    assert_eq!(
        r,
        Err(BackendError::Unknown { msg: "Failed to read a key in the db: 0x1/Coin".to_string() })
    );
}

#[test]
fn failed_read_uses_host_message() {
    let msg = UnmanagedVector::new(Some(b"boom".to_vec()));
    let r = db_read_result(GoError::User, UnmanagedVector::new(None), msg, b"k");
    assert_eq!(r, Err(BackendError::UserErr { msg: "boom".to_string() }));
}

#[test]
fn write_and_remove_results() {
    assert_eq!(db_write_result(GoError::NoError, UnmanagedVector::new(None), b"k"), Ok(()));
    assert_eq!(
        db_write_result(GoError::CannotSerialize, UnmanagedVector::new(None), b"k"),
        Err(BackendError::Unknown { msg: "Failed to set a key in the db: k".to_string() })
    );
    assert_eq!(
        db_remove_result(GoError::Other, UnmanagedVector::new(None), b"k"),
        Err(BackendError::Unknown { msg: "Failed to delete a key in the db: k".to_string() })
    );
    assert_eq!(
        db_remove_result(GoError::OutOfGas, UnmanagedVector::new(None), b"k"),
        Err(BackendError::OutOfGas {})
    );
    assert_eq!(
        db_write_result(GoError::Panic, UnmanagedVector::new(None), b"k"),
        Err(BackendError::ForeignPanic {})
    );
}

#[test]
fn block_info_results() {
    assert_eq!(block_info_result(GoError::NoError, 12, 34, UnmanagedVector::new(None)), Ok((12, 34)));
    assert_eq!(
        block_info_result(GoError::Other, 12, 34, UnmanagedVector::new(None)),
        Err(BackendError::Unknown { msg: "Failed to get latest block info".to_string() })
    );
    assert_eq!(
        block_info_result(GoError::Unimplemented, 0, 0, UnmanagedVector::new(None)),
        Err(BackendError::Unimplemented {})
    );
}

#[test]
fn query_results() {
    let out = UnmanagedVector::new(Some(b"[1,2]".to_vec()));
    assert_eq!(
        query_call_result(GoError::NoError, out, UnmanagedVector::new(None), b"req"),
        Ok(b"[1,2]".to_vec())
    );
    assert_eq!(
        query_call_result(GoError::NoError, UnmanagedVector::new(None), UnmanagedVector::new(None), b"req"),
        Ok(vec![])
    );
    assert_eq!(
        query_call_result(GoError::Other, UnmanagedVector::new(None), UnmanagedVector::new(None), b"req"),
        Err(BackendError::Unknown {
            msg: "Failed to query another contract with this request: req".to_string()
        })
    );
}

#[test]
fn invalid_utf8_is_read_lossily() {
    let msg = UnmanagedVector::new(Some(vec![b'f', 0xff, b'g']));
    let r = db_read_result(GoError::User, UnmanagedVector::new(None), msg, b"k");
    assert_eq!(r, Err(BackendError::UserErr { msg: "f\u{FFFD}g".to_string() }));
    let r = db_write_result(GoError::Other, UnmanagedVector::new(None), &[b'k', 0xc3]);
    assert_eq!(
        r,
        Err(BackendError::Unknown { msg: "Failed to set a key in the db: k\u{FFFD}".to_string() })
    );
}
