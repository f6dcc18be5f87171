//! Errors from calls into the host (the chain's storage, API and querier),
//! and how the status a host callback returns becomes one.

use crate::memory::{bytes_view, UnmanagedVector};
use crate::text::join2;
use vstd::prelude::*;
use vstd::utf8::{decode_utf8, valid_utf8};

verus! {

/// An error from a call into the host.
#[derive(Debug, PartialEq, Eq)]
pub enum BackendError {
    ForeignPanic {},
    BadArgument {},
    OutOfGas {},
    Unimplemented {},
    Unknown { msg: String },
    UserErr { msg: String },
}

impl BackendError {
    pub fn foreign_panic() -> (r: BackendError)
        ensures
            r is ForeignPanic,
    {
        BackendError::ForeignPanic {  }
    }

    pub fn bad_argument() -> (r: BackendError)
        ensures
            r is BadArgument,
    {
        BackendError::BadArgument {  }
    }

    pub fn out_of_gas() -> (r: BackendError)
        ensures
            r is OutOfGas,
    {
        BackendError::OutOfGas {  }
    }

    pub fn unimplemented() -> (r: BackendError)
        ensures
            r is Unimplemented,
    {
        BackendError::Unimplemented {  }
    }

    pub fn unknown(msg: String) -> (r: BackendError)
        ensures
            r matches BackendError::Unknown { msg: m } && m@ == msg@,
    {
        BackendError::Unknown { msg }
    }

    pub fn user_err(msg: String) -> (r: BackendError)
        ensures
            r matches BackendError::UserErr { msg: m } && m@ == msg@,
    {
        BackendError::UserErr { msg }
    }
}

/// The result of a call into the host.
pub type BackendResult<T> = Result<T, BackendError>;

/// The status a host callback returns.
#[derive(Debug, Clone, Copy, PartialEq, Eq, Structural)]
pub enum GoError {
    /// The callback succeeded.
    NoError,
    /// Go panicked for an unexpected reason.
    Panic,
    /// Go received a bad argument from Rust
    BadArgument,
    /// Ran out of gas while using the SDK (e.g. storage).
    OutOfGas,
    /// Error while trying to serialize data in Go code (typically json.Marshal)
    CannotSerialize,
    /// An error happened during normal operation of a Go callback, which should be fed back to the contract
    User,
    /// The callback is not implemented by the host.
    Unimplemented,
    /// Any other failure.
    Other,
}

/// The longest error message read back from the host, in bytes.
pub const MAX_ERROR_LEN: usize = 8192;

/// The text `String::from_utf8_lossy` makes of `bytes`.
pub uninterp spec fn lossy_utf8(bytes: Seq<u8>) -> Seq<char>;

/// `String::from_utf8_lossy`, as an owned string. Claimed, as its
/// documentation says: the text depends on the bytes alone (it is named
/// `lossy_utf8`), and valid UTF-8 comes back as the text it encodes. Which
/// runs of invalid bytes each become one replacement character is left to
/// the name.
#[verifier::external_body]
fn from_utf8_lossy(bytes: &[u8]) -> (r: String)
    ensures
        r@ == lossy_utf8(bytes@),
        valid_utf8(bytes@) ==> r@ == decode_utf8(bytes@),
{
    String::from_utf8_lossy(bytes).into_owned()
}

/// The message the host wrote back, cut to `MAX_ERROR_LEN` bytes and read
/// as UTF-8 (lossily), or `default_msg` when it wrote none.
pub open spec fn read_error_text(written: Option<Seq<u8>>, default_msg: Seq<char>) -> Seq<char> {
    match written {
        None => default_msg,
        Some(data) => {
            let cut = if data.len() <= MAX_ERROR_LEN {
                data
            } else {
                data.take(MAX_ERROR_LEN as int)
            };
            lossy_utf8(cut)
        },
    }
}

fn read_error_msg(error_msg: UnmanagedVector, default_msg: String) -> (r: String)
    ensures
        r@ == read_error_text(error_msg.content(), default_msg@),
{
    match error_msg.consume() {
        Some(data) => {
            let mut data = data;
            if data.len() > MAX_ERROR_LEN {
                data.truncate(MAX_ERROR_LEN);
            }
            from_utf8_lossy(data.as_slice())
        },
        None => default_msg,
    }
}

impl GoError {
    /// The result a callback's status stands for. Errors that carry a
    /// message (`User`, `CannotSerialize`, `Other`) read it from
    /// `error_msg`, cut to `MAX_ERROR_LEN` bytes, or use `default_error_msg`
    /// when the host wrote none.
    pub fn into_result(self, error_msg: UnmanagedVector, default_error_msg: String) -> (r: Result<
        (),
        BackendError,
    >)
        ensures
            self is NoError ==> r is Ok,
            self is Panic ==> r == Err::<(), BackendError>(BackendError::ForeignPanic {  }),
            self is BadArgument ==> r == Err::<(), BackendError>(BackendError::BadArgument {  }),
            self is OutOfGas ==> r == Err::<(), BackendError>(BackendError::OutOfGas {  }),
            self is Unimplemented ==> r == Err::<(), BackendError>(
                BackendError::Unimplemented {  },
            ),
            self is User ==> (r matches Err(BackendError::UserErr { msg }) && msg@ == read_error_text(
                error_msg.content(),
                default_error_msg@,
            )),
            (self is CannotSerialize || self is Other) ==> (r matches Err(
                BackendError::Unknown { msg },
            ) && msg@ == read_error_text(error_msg.content(), default_error_msg@)),
    {
        match self {
            GoError::NoError => Ok(()),
            GoError::Panic => Err(BackendError::foreign_panic()),
            GoError::BadArgument => Err(BackendError::bad_argument()),
            GoError::OutOfGas => Err(BackendError::out_of_gas()),
            GoError::Unimplemented => Err(BackendError::unimplemented()),
            GoError::CannotSerialize => Err(
                BackendError::unknown(read_error_msg(error_msg, default_error_msg)),
            ),
            GoError::User => Err(BackendError::user_err(read_error_msg(error_msg, default_error_msg))),
            GoError::Other => Err(BackendError::unknown(read_error_msg(error_msg, default_error_msg))),
        }
    }
}

/// `e` is the error a callback status other than success stands for: its
/// kind follows the status, and a message-carrying error holds the message
/// read back (see `read_error_text`).
pub open spec fn failed_as(
    status: GoError,
    written: Option<Seq<u8>>,
    default_msg: Seq<char>,
    e: BackendError,
) -> bool {
    match status {
        GoError::NoError => false,
        GoError::Panic => e == BackendError::ForeignPanic {  },
        GoError::BadArgument => e == BackendError::BadArgument {  },
        GoError::OutOfGas => e == BackendError::OutOfGas {  },
        GoError::Unimplemented => e == BackendError::Unimplemented {  },
        GoError::User => e matches BackendError::UserErr { msg } && msg@ == read_error_text(
            written,
            default_msg,
        ),
        GoError::CannotSerialize | GoError::Other => e matches BackendError::Unknown { msg } && msg@
            == read_error_text(written, default_msg),
    }
}

/// The message a failed host call on `key` falls back to: `action`, then
/// the key read as UTF-8 (lossily).
fn store_failure_text(action: &str, key: &[u8]) -> (r: String)
    ensures
        r@ == action@ + lossy_utf8(key@),
        valid_utf8(key@) ==> lossy_utf8(key@) == decode_utf8(key@),
{
    let key_text = from_utf8_lossy(key);
    join2(action, key_text.as_str())
}

/// The result of a host call on `key` that returned `status`, with the
/// fallback message `action` followed by the key.
fn store_call_result(status: GoError, error_msg: UnmanagedVector, action: &str, key: &[u8]) -> (r:
    Result<(), BackendError>)
    ensures
        (status is NoError) <==> r is Ok,
        r matches Err(e) ==> failed_as(status, error_msg.content(), action@ + lossy_utf8(key@), e),
        r matches Err(e) ==> (valid_utf8(key@) ==> failed_as(
            status,
            error_msg.content(),
            action@ + decode_utf8(key@),
            e,
        )),
{
    let default_msg = store_failure_text(action, key);
    status.into_result(error_msg, default_msg)
}

/// The result of reading `key` from the host's store: what the host wrote
/// into `output` when the read succeeded, else the error its status stands
/// for, whose fallback message is "Failed to read a key in the db: " and
/// the key.
pub fn db_read_result(status: GoError, output: UnmanagedVector, error_msg: UnmanagedVector, key: &[u8]) -> (r:
    BackendResult<Option<Vec<u8>>>)
    ensures
        (status is NoError) <==> r is Ok,
        r matches Ok(v) ==> bytes_view(v) == output.content(),
        r matches Err(e) ==> failed_as(status, error_msg.content(), "Failed to read a key in the db: "@ + lossy_utf8(key@), e),
        r matches Err(e) ==> (valid_utf8(key@) ==> failed_as(
            status,
            error_msg.content(),
            "Failed to read a key in the db: "@ + decode_utf8(key@),
            e,
        )),
{
    let output = output.consume();
    match store_call_result(status, error_msg, "Failed to read a key in the db: ", key) {
        Ok(()) => Ok(output),
        Err(e) => Err(e),
    }
}

/// The result of writing `key` into the host's store: success, else the
/// error its status stands for, whose fallback message is "Failed to set a
/// key in the db: " and the key.
pub fn db_write_result(status: GoError, error_msg: UnmanagedVector, key: &[u8]) -> (r: BackendResult<()>)
    ensures
        (status is NoError) <==> r is Ok,
        r matches Err(e) ==> failed_as(status, error_msg.content(), "Failed to set a key in the db: "@ + lossy_utf8(key@), e),
        r matches Err(e) ==> (valid_utf8(key@) ==> failed_as(
            status,
            error_msg.content(),
            "Failed to set a key in the db: "@ + decode_utf8(key@),
            e,
        )),
{
    store_call_result(status, error_msg, "Failed to set a key in the db: ", key)
}

/// The result of deleting `key` from the host's store: success, else the
/// error its status stands for, whose fallback message is "Failed to delete
/// a key in the db: " and the key.
pub fn db_remove_result(status: GoError, error_msg: UnmanagedVector, key: &[u8]) -> (r: BackendResult<()>)
    ensures
        (status is NoError) <==> r is Ok,
        r matches Err(e) ==> failed_as(status, error_msg.content(), "Failed to delete a key in the db: "@ + lossy_utf8(key@), e),
        r matches Err(e) ==> (valid_utf8(key@) ==> failed_as(
            status,
            error_msg.content(),
            "Failed to delete a key in the db: "@ + decode_utf8(key@),
            e,
        )),
{
    store_call_result(status, error_msg, "Failed to delete a key in the db: ", key)
}

/// The result of asking the host for the latest block: its height and
/// timestamp when the call succeeded, else the error its status stands for,
/// whose fallback message is "Failed to get latest block info".
pub fn block_info_result(status: GoError, height: u64, timestamp: u64, error_msg: UnmanagedVector) -> (r:
    BackendResult<(u64, u64)>)
    ensures
        (status is NoError) <==> r is Ok,
        r matches Ok(v) ==> v == (height, timestamp),
        r matches Err(e) ==> failed_as(
            status,
            error_msg.content(),
            "Failed to get latest block info"@,
            e,
        ),
{
    match status.into_result(error_msg, "Failed to get latest block info".to_owned()) {
        Ok(()) => Ok((height, timestamp)),
        Err(e) => Err(e),
    }
}

/// The result of a query the host answered with `status`: the bytes it
/// wrote into `output` (none read as empty) when the call succeeded, else
/// the error its status stands for, whose fallback message is "Failed to
/// query another contract with this request: " and the request.
pub fn query_call_result(status: GoError, output: UnmanagedVector, error_msg: UnmanagedVector, request: &[u8]) -> (r:
    BackendResult<Vec<u8>>)
    ensures
        (status is NoError) <==> r is Ok,
        r matches Ok(v) ==> v@ == match output.content() {
            Some(b) => b,
            None => Seq::<u8>::empty(),
        },
        r matches Err(e) ==> failed_as(status, error_msg.content(), "Failed to query another contract with this request: "@ + lossy_utf8(request@), e),
        r matches Err(e) ==> (valid_utf8(request@) ==> failed_as(
            status,
            error_msg.content(),
            "Failed to query another contract with this request: "@ + decode_utf8(request@),
            e,
        )),
{
    let output = output.consume();
    match store_call_result(
        status,
        error_msg,
        "Failed to query another contract with this request: ",
        request,
    ) {
        Ok(()) => match output {
            Some(bytes) => Ok(bytes),
            None => Ok(Vec::new()),
        },
        Err(e) => Err(e),
    }
}

} // verus!
