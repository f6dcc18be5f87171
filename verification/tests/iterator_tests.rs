use novavm::backend_error::{BackendError, GoError};
use novavm::iterator::{iterator_t, next_record, next_step, GasInfo, NextCallback, Order};
use novavm::memory::UnmanagedVector;

#[test]
fn orders() {
    assert_eq!(Order::try_from_i32(1).unwrap(), Order::Ascending);
    assert_eq!(Order::try_from_i32(2).unwrap(), Order::Descending);
    assert_eq!(Order::try_from_i32(3).unwrap_err(), BackendError::BadArgument {});
    assert_eq!(Order::Ascending.to_i32(), 1);
    assert_eq!(Order::Descending.to_i32(), 2);
    for o in [Order::Ascending, Order::Descending] {
        assert_eq!(Order::try_from_i32(o.to_i32()).unwrap(), o);
    }
}

#[test]
fn iterator_handle_defaults_to_zero() {
    let it = iterator_t::default();
    assert_eq!((it.call_id, it.iterator_index), (0, 0));
}

#[test]
fn next_records() {
    let r = next_record(GoError::NoError, UnmanagedVector::default(), Some(vec![1]), Some(vec![2]));
    assert_eq!(r.unwrap(), Some((vec![1], vec![2])));
    let r = next_record(GoError::NoError, UnmanagedVector::default(), None, None);
    assert_eq!(r.unwrap(), None);
    let r = next_record(GoError::NoError, UnmanagedVector::default(), Some(vec![1]), None);
    assert_eq!(
        r.unwrap_err(),
        BackendError::Unknown { msg: "Failed to read value while reading the next key in the db".to_string() }
    );
    let r = next_record(GoError::Other, UnmanagedVector::default(), Some(vec![1]), Some(vec![2]));
    assert_eq!(
        r.unwrap_err(),
        BackendError::Unknown { msg: "Failed to fetch next item from iterator".to_string() }
    );
    let r = next_record(GoError::User, UnmanagedVector::new(Some(b"nope".to_vec())), None, None);
    assert_eq!(r.unwrap_err(), BackendError::UserErr { msg: "nope".to_string() });
}

#[test]
fn a_step_without_callback_fails_for_free() {
    let (r, gas) = next_step(None);
    assert_eq!(r, Err(BackendError::Unknown { msg: "iterator vtable not set".to_string() }));
    assert_eq!(gas, GasInfo { cost: 0, externally_used: 0 });
}

#[test]
fn a_step_reports_the_host_gas() {
    let (r, gas) = next_step(Some(NextCallback {
        go_result: GoError::NoError,
        error_msg: UnmanagedVector::new(None),
        key: Some(vec![1]),
        value: Some(vec![2, 3]),
        used_gas: 55,
    }));
    assert_eq!(r, Ok(Some((vec![1], vec![2, 3]))));
    assert_eq!(gas, GasInfo { cost: 0, externally_used: 55 });
    let (r, gas) = next_step(Some(NextCallback {
        go_result: GoError::OutOfGas,
        error_msg: UnmanagedVector::new(None),
        key: None,
        value: None,
        used_gas: 9,
    }));
    assert_eq!(r, Err(BackendError::OutOfGas {}));
    assert_eq!(gas, GasInfo { cost: 0, externally_used: 9 });
}
