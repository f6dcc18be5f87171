//! Iteration over the host's key-value store: the iteration order as
//! numbered over the FFI, the iterator's handle, and what one step of the
//! host's iterator gives.

use crate::backend_error::{read_error_text, BackendError, GoError};
use crate::memory::{bytes_view, UnmanagedVector};
use vstd::prelude::*;

verus! {

/// A record of the store: its key and its value.
pub type Record = (Vec<u8>, Vec<u8>);

/// The order of an iteration, numbered 1 and 2 over the FFI.
#[derive(Debug, Clone, Copy, PartialEq, Eq, Structural)]
pub enum Order {
    Ascending,
    Descending,
}

impl Order {
    /// The number of an order: 1 or 2.
    pub open spec fn spec_to_i32(self) -> i32 {
        match self {
            Order::Ascending => 1,
            Order::Descending => 2,
        }
    }

    pub fn to_i32(self) -> (r: i32)
        ensures
            r == self.spec_to_i32(),
    {
        match self {
            Order::Ascending => 1,
            Order::Descending => 2,
        }
    }

    /// Reads an order number: 1 or 2; any other number is a bad argument.
    pub fn try_from_i32(value: i32) -> (r: Result<Order, BackendError>)
        ensures
            r == match order_of_i32(value) {
                Some(o) => Ok(o),
                None => Err::<Order, BackendError>(BackendError::BadArgument {  }),
            },
    {
        match value {
            1 => Ok(Order::Ascending),
            2 => Ok(Order::Descending),
            _ => Err(BackendError::bad_argument()),
        }
    }
}

/// The order a number stands for: 1 is ascending, 2 descending.
pub open spec fn order_of_i32(value: i32) -> Option<Order> {
    if value == 1 {
        Some(Order::Ascending)
    } else if value == 2 {
        Some(Order::Descending)
    } else {
        None
    }
}

/// Reading back the number of an order gives the order back, and a number
/// that is read as an order is that order's number.
pub proof fn lemma_order_round_trip(o: Order, value: i32)
    ensures
        order_of_i32(o.spec_to_i32()) == Some(o),
        order_of_i32(value) matches Some(p) ==> p.spec_to_i32() == value,
{
}

/// The host-side handle of an iterator.
#[allow(non_camel_case_types)]
#[derive(Debug, Clone, Copy)]
pub struct iterator_t {
    /// An ID assigned to this contract call
    pub call_id: u64,
    pub iterator_index: u64,
}

impl Default for iterator_t {
    fn default() -> (r: iterator_t)
        ensures
            r.call_id == 0,
            r.iterator_index == 0,
    {
        iterator_t { call_id: 0, iterator_index: 0 }
    }
}

/// The message used when the host reports a failed step without one.
pub open spec fn next_failure_text() -> Seq<char> {
    "Failed to fetch next item from iterator"@
}

/// `r` is what one step of the host's iterator gives, once the host's
/// `next` callback returned `go_result` and wrote `key`, `value` and maybe
/// an error message (`written_error`): the callback's error; else the next
/// record, none when the host wrote no key, and an error when it wrote a key
/// without a value.
pub open spec fn is_next_record(
    go_result: GoError,
    written_error: Option<Seq<u8>>,
    key: Option<Seq<u8>>,
    value: Option<Seq<u8>>,
    r: Result<Option<Record>, BackendError>,
) -> bool {
    &&& !(go_result is NoError) ==> r is Err
    &&& go_result is Panic ==> r == Err::<Option<Record>, BackendError>(BackendError::ForeignPanic {  })
    &&& go_result is BadArgument ==> r == Err::<Option<Record>, BackendError>(
        BackendError::BadArgument {  },
    )
    &&& go_result is OutOfGas ==> r == Err::<Option<Record>, BackendError>(BackendError::OutOfGas {  })
    &&& go_result is Unimplemented ==> r == Err::<Option<Record>, BackendError>(
        BackendError::Unimplemented {  },
    )
    &&& go_result is User ==> (r matches Err(BackendError::UserErr { msg }) && msg@ == read_error_text(
        written_error,
        next_failure_text(),
    ))
    &&& (go_result is CannotSerialize || go_result is Other) ==> (r matches Err(
        BackendError::Unknown { msg },
    ) && msg@ == read_error_text(written_error, next_failure_text()))
    &&& go_result is NoError ==> match (key, value) {
        (Some(k), Some(v)) => r matches Ok(Some(rec)) && rec.0@ == k && rec.1@ == v,
        (Some(_), None) => r matches Err(BackendError::Unknown { msg }) && msg@
            == "Failed to read value while reading the next key in the db"@,
        (None, _) => r matches Ok(None),
    }
}

/// What one step of the host's iterator gives, once the host's `next`
/// callback returned `go_result` and wrote `key`, `value` and maybe an
/// error message: the callback's error; else the next record, none when the
/// host wrote no key, and an error when it wrote a key without a value.
pub fn next_record(
    go_result: GoError,
    error_msg: UnmanagedVector,
    key: Option<Vec<u8>>,
    value: Option<Vec<u8>>,
) -> (r: Result<Option<Record>, BackendError>)
    ensures
        is_next_record(go_result, error_msg.content(), bytes_view(key), bytes_view(value), r),
{
    let default = "Failed to fetch next item from iterator".to_owned();
    if let Err(err) = go_result.into_result(error_msg, default) {
        return Err(err);
    }
    match key {
        Some(key) => {
            if let Some(value) = value {
                Ok(Some((key, value)))
            } else {
                Err(
                    BackendError::unknown(
                        "Failed to read value while reading the next key in the db".to_owned(),
                    ),
                )
            }
        },
        None => Ok(None),
    }
}

/// The gas a call into the host used: what this side computed, and what
/// the host reports it used outside.
#[derive(Debug, Clone, Copy, PartialEq, Eq, Structural)]
pub struct GasInfo {
    pub cost: u64,
    pub externally_used: u64,
}

impl GasInfo {
    /// No gas at all.
    pub fn free() -> (r: GasInfo)
        ensures
            r == (GasInfo { cost: 0, externally_used: 0 }),
    {
        GasInfo { cost: 0, externally_used: 0 }
    }

    /// Only the gas the host reports it used.
    pub fn with_externally_used(amount: u64) -> (r: GasInfo)
        ensures
            r == (GasInfo { cost: 0, externally_used: amount }),
    {
        GasInfo { cost: 0, externally_used: amount }
    }
}

/// What the host's `next` callback handed back: its status, the error
/// message, key and value it wrote, and the gas it reports it used.
pub struct NextCallback {
    pub go_result: GoError,
    pub error_msg: UnmanagedVector,
    pub key: Option<Vec<u8>>,
    pub value: Option<Vec<u8>>,
    pub used_gas: u64,
}

/// One step of the host's iterator, with the gas it used: without a `next`
/// callback set (`None`), the error "iterator vtable not set" and no gas;
/// otherwise the step's record (see `next_record`) and the gas the host
/// reported.
pub fn next_step(callback: Option<NextCallback>) -> (r: (Result<Option<Record>, BackendError>, GasInfo))
    ensures
        callback is None ==> (r.0 matches Err(BackendError::Unknown { msg }) && msg@
            == "iterator vtable not set"@) && r.1 == (GasInfo { cost: 0, externally_used: 0 }),
        callback matches Some(c) ==> is_next_record(
            c.go_result,
            c.error_msg.content(),
            bytes_view(c.key),
            bytes_view(c.value),
            r.0,
        ) && r.1 == (GasInfo { cost: 0, externally_used: c.used_gas }),
{
    match callback {
        None => (Err(BackendError::unknown("iterator vtable not set".to_owned())), GasInfo::free()),
        Some(c) => {
            let gas_info = GasInfo::with_externally_used(c.used_gas);
            (next_record(c.go_result, c.error_msg, c.key, c.value), gas_info)
        },
    }
}

} // verus!
