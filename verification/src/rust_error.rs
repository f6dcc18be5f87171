//! Errors reported to the host through the FFI boundary: each becomes a
//! message written into the host's error buffer and an `errno` value.

use crate::memory::UnmanagedVector;
use crate::text::join2;
use crate::vm_error::{vm_error_text, NovaVMError};
use vstd::prelude::*;
use vstd::string::*;
use vstd::utf8::encode_utf8;

verus! {

/// An error raised on this side of the FFI boundary.
#[derive(Debug)]
pub enum RustError {
    EmptyArg { name: String },
    /// Whenever UTF-8 bytes cannot be decoded into a unicode string.
    InvalidUtf8 { msg: String },
    OutOfGas {},
    Panic {},
    UnsetArg { name: String },
    VmErr { msg: String },
    BackendFailure { msg: String },
}

/// The text a `RustError` is reported with.
pub open spec fn rust_error_text(e: RustError) -> Seq<char> {
    match e {
        RustError::EmptyArg { name } => "Empty argument: "@ + name@,
        RustError::InvalidUtf8 { msg } => "Cannot decode UTF8 bytes into string: "@ + msg@,
        RustError::OutOfGas {  } => "Ran out of gas"@,
        RustError::Panic {  } => "Caught panic"@,
        RustError::UnsetArg { name } => "Null/Nil argument: "@ + name@,
        RustError::VmErr { msg } => "Error calling the VM: "@ + msg@,
        RustError::BackendFailure { msg } => "failure occured from backend: "@ + msg@,
    }
}

impl RustError {
    pub fn empty_arg(name: &str) -> (r: RustError)
        ensures
            r matches RustError::EmptyArg { name: n } && n@ == name@,
    {
        RustError::EmptyArg { name: name.to_owned() }
    }

    pub fn invalid_utf8(msg: &str) -> (r: RustError)
        ensures
            r matches RustError::InvalidUtf8 { msg: m } && m@ == msg@,
    {
        RustError::InvalidUtf8 { msg: msg.to_owned() }
    }

    pub fn panic() -> (r: RustError)
        ensures
            r is Panic,
    {
        RustError::Panic {  }
    }

    pub fn unset_arg(name: &str) -> (r: RustError)
        ensures
            r matches RustError::UnsetArg { name: n } && n@ == name@,
    {
        RustError::UnsetArg { name: name.to_owned() }
    }

    pub fn vm_err(msg: &str) -> (r: RustError)
        ensures
            r matches RustError::VmErr { msg: m } && m@ == msg@,
    {
        RustError::VmErr { msg: msg.to_owned() }
    }

    pub fn out_of_gas() -> (r: RustError)
        ensures
            r is OutOfGas,
    {
        RustError::OutOfGas {  }
    }

    pub fn backend_failure(msg: &str) -> (r: RustError)
        ensures
            r matches RustError::BackendFailure { msg: m } && m@ == msg@,
    {
        RustError::BackendFailure { msg: msg.to_owned() }
    }

    /// The text the error is reported with.
    pub fn to_string(&self) -> (r: String)
        ensures
            r@ == rust_error_text(*self),
    {
        match self {
            RustError::EmptyArg { name } => join2("Empty argument: ", name.as_str()),
            RustError::InvalidUtf8 { msg } => join2(
                "Cannot decode UTF8 bytes into string: ",
                msg.as_str(),
            ),
            RustError::OutOfGas {  } => "Ran out of gas".to_owned(),
            RustError::Panic {  } => "Caught panic".to_owned(),
            RustError::UnsetArg { name } => join2("Null/Nil argument: ", name.as_str()),
            RustError::VmErr { msg } => join2("Error calling the VM: ", msg.as_str()),
            RustError::BackendFailure { msg } => join2(
                "failure occured from backend: ",
                msg.as_str(),
            ),
        }
    }
}

/// The `errno` values reported to the host.
#[derive(Debug, Clone, Copy, PartialEq, Eq, Structural)]
pub enum ErrnoValue {
    Success,
    Other,
    OutOfGas,
}

impl ErrnoValue {
    /// The numeric `errno`: 0, 1 or 2.
    pub open spec fn spec_code(self) -> i32 {
        match self {
            ErrnoValue::Success => 0,
            ErrnoValue::Other => 1,
            ErrnoValue::OutOfGas => 2,
        }
    }

    pub fn code(self) -> (r: i32)
        ensures
            r == self.spec_code(),
    {
        match self {
            ErrnoValue::Success => 0,
            ErrnoValue::Other => 1,
            ErrnoValue::OutOfGas => 2,
        }
    }
}

/// The `errno` value an error is reported with: out of gas, or other.
pub open spec fn errno_of(e: RustError) -> ErrnoValue {
    match e {
        RustError::OutOfGas {  } => ErrnoValue::OutOfGas,
        _ => ErrnoValue::Other,
    }
}

/// The `errno` value an error is reported with: 2 (`OutOfGas`) for running
/// out of gas, 1 (`Other`) for any other error.
pub fn errno_for(e: &RustError) -> (r: ErrnoValue)
    ensures
        r == errno_of(*e),
{
    match e {
        RustError::OutOfGas {  } => ErrnoValue::OutOfGas,
        _ => ErrnoValue::Other,
    }
}

/// Sets the calling thread's `errno`, through `errno::set_errno`. Nothing
/// is stated of it: its effect is on thread-local state outside the program.
#[verifier::external_body]
fn set_errno_code(code: i32) {
    errno::set_errno(errno::Errno(code));
}

/// Clears `errno`: sets it to `Success`.
pub fn clear_error() {
    set_errno_code(ErrnoValue::Success.code());
}

/// Reports `err`: its text goes into `error_msg` when the host gave a
/// buffer, and `errno` is set to the error's value. The buffer must not
/// hold an earlier message.
pub fn set_error(err: RustError, error_msg: Option<&mut UnmanagedVector>)
    requires
        error_msg matches Some(m) ==> m.content() is None,
    ensures
        error_msg matches Some(m) ==> final(m).content() == Some(encode_utf8(rust_error_text(err))),
{
    if let Some(error_msg) = error_msg {
        let msg = err.to_string();
        *error_msg = UnmanagedVector::new(Some(msg.as_str().as_bytes_vec()));
    }
    let errno = errno_for(&err);
    set_errno_code(errno.code());
}

/// If `result` is `Ok`, clears `errno` and gives its bytes. Otherwise
/// reports the error (its text into `error_msg`, its `errno`) and gives an
/// empty vector.
pub fn handle_c_error_binary(
    result: Result<Vec<u8>, RustError>,
    error_msg: Option<&mut UnmanagedVector>,
) -> (r: Vec<u8>)
    requires
        result is Err ==> (error_msg matches Some(m) ==> m.content() is None),
    ensures
        result matches Ok(v) ==> r@ == v@,
        result is Err ==> r@ == Seq::<u8>::empty(),
        result is Ok ==> (error_msg matches Some(m) ==> final(m).content() == m.content()),
        result matches Err(e) ==> (error_msg matches Some(m) ==> final(m).content() == Some(
            encode_utf8(rust_error_text(e)),
        )),
{
    match result {
        Ok(value) => {
            clear_error();
            value
        },
        Err(error) => {
            set_error(error, error_msg);
            Vec::new()
        },
    }
}

/// If `result` is `Ok`, clears `errno` and gives its value. Otherwise
/// reports the error (its text into `error_msg`, its `errno`) and gives
/// `T::default()`.
pub fn handle_c_error_default<T: Default>(
    result: Result<T, RustError>,
    error_msg: Option<&mut UnmanagedVector>,
) -> (r: T)
    requires
        result is Err ==> (error_msg matches Some(m) ==> m.content() is None),
    ensures
        result matches Ok(v) ==> r == v,
        result is Ok ==> (error_msg matches Some(m) ==> final(m).content() == m.content()),
        result matches Err(e) ==> (error_msg matches Some(m) ==> final(m).content() == Some(
            encode_utf8(rust_error_text(e)),
        )),
        result is Err ==> call_ensures(T::default, (), r),
{
    match result {
        Ok(value) => {
            clear_error();
            value
        },
        Err(error) => {
            set_error(error, error_msg);
            T::default()
        },
    }
}

impl RustError {
    /// The error a VM error is reported as: running out of gas stays so, any
    /// other VM error is reported with its text.
    pub fn from_vm_error(source: NovaVMError) -> (r: RustError)
        ensures
            source is GasDepletion ==> r is OutOfGas,
            !(source is GasDepletion) ==> (r matches RustError::VmErr { msg } && msg@
                == vm_error_text(source)),
    {
        match &source {
            NovaVMError::GasDepletion {  } => RustError::out_of_gas(),
            _ => {
                let text = source.to_string();
                RustError::vm_err(text.as_str())
            },
        }
    }
}

} // verus!
