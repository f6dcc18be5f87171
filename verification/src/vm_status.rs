//! Move VM status codes used by this library and the error value that
//! carries one.

use move_core_types::vm_status::StatusCode;
use vstd::prelude::*;
use vstd::string::*;

verus! {

/// Move status code `INVALID_MAIN_FUNCTION_SIGNATURE`.
pub const INVALID_MAIN_FUNCTION_SIGNATURE: u64 = 1011;
/// Move status code `LOOKUP_FAILED`.
pub const LOOKUP_FAILED: u64 = 1017;
/// Move status code `CONSTRAINT_NOT_SATISFIED`.
pub const CONSTRAINT_NOT_SATISFIED: u64 = 1075;
/// Move status code `NUMBER_OF_ARGUMENTS_MISMATCH`.
pub const NUMBER_OF_ARGUMENTS_MISMATCH: u64 = 1098;
/// Move status code `FAILED_TO_DESERIALIZE_ARGUMENT`.
pub const FAILED_TO_DESERIALIZE_ARGUMENT: u64 = 1100;
/// Move status code `NUMBER_OF_SIGNER_ARGUMENTS_MISMATCH`.
pub const NUMBER_OF_SIGNER_ARGUMENTS_MISMATCH: u64 = 1101;
/// Move status code `STORAGE_ERROR`.
pub const STORAGE_ERROR: u64 = 2008;
/// Move status code `UNREACHABLE`.
pub const UNREACHABLE: u64 = 2011;
/// Move status code `FAILED_TO_SERIALIZE_WRITE_SET_CHANGES`.
pub const FAILED_TO_SERIALIZE_WRITE_SET_CHANGES: u64 = 2019;
/// Move status code `BAD_MAGIC`.
pub const BAD_MAGIC: u64 = 3002;
/// Move status code `CODE_DESERIALIZATION_ERROR`.
pub const CODE_DESERIALIZATION_ERROR: u64 = 3024;
/// Move status code `EXECUTED`.
pub const EXECUTED: u64 = 4001;
/// Move status code `OUT_OF_GAS`.
pub const OUT_OF_GAS: u64 = 4002;
/// Move status code `ABORTED`.
pub const ABORTED: u64 = 4016;

/// The class a status code belongs to, read from the range its number lies in.
#[derive(Debug, Clone, Copy, PartialEq, Eq, Structural)]
pub enum StatusType {
    Validation,
    Verification,
    InvariantViolation,
    Deserialization,
    Execution,
    Unknown,
}

/// The class of a status code: 0..=999 validation, 1000..=1999
/// verification, 2000..=2999 invariant violation, 3000..=3999
/// deserialization, 4000..=4999 execution, anything above unknown.
pub open spec fn status_type_of(code: u64) -> StatusType {
    if code <= 999 {
        StatusType::Validation
    } else if code <= 1999 {
        StatusType::Verification
    } else if code <= 2999 {
        StatusType::InvariantViolation
    } else if code <= 3999 {
        StatusType::Deserialization
    } else if code <= 4999 {
        StatusType::Execution
    } else {
        StatusType::Unknown
    }
}

/// The name of a status class, as it is shown.
pub open spec fn status_type_text(t: StatusType) -> Seq<char> {
    match t {
        StatusType::Validation => "Validation"@,
        StatusType::Verification => "Verification"@,
        StatusType::InvariantViolation => "Invariant violation"@,
        StatusType::Deserialization => "Deserialization"@,
        StatusType::Execution => "Execution"@,
        StatusType::Unknown => "Unknown"@,
    }
}

impl StatusType {
    /// The name the class is shown with.
    pub fn to_string(&self) -> (r: String)
        ensures
            r@ == status_type_text(*self),
    {
        let name = match self {
            StatusType::Validation => "Validation",
            StatusType::Verification => "Verification",
            StatusType::InvariantViolation => "Invariant violation",
            StatusType::Deserialization => "Deserialization",
            StatusType::Execution => "Execution",
            StatusType::Unknown => "Unknown",
        };
        String::from_str(name)
    }
}

/// The name of the status code numbered `code`, as `move_core_types`
/// prints its `StatusCode` (the variant's name, such as `EXECUTED`).
pub uninterp spec fn status_code_name(code: u64) -> Seq<char>;

/// `format!("{:#?}", ..)` of `move_core_types`' `StatusCode` numbered
/// `code`; a number that names no status code is read as `UNKNOWN_STATUS`,
/// as that crate's own deserializer reads it. Claimed: the text depends on
/// the number alone (it is named `status_code_name`); which name each
/// number has, the enum's long list of variants, is left unstated.
#[verifier::external_body]
pub(crate) fn status_code_text(code: u64) -> (r: String)
    ensures
        r@ == status_code_name(code),
{
    match StatusCode::try_from(code) {
        Ok(c) => format!("{:#?}", c),
        Err(_) => format!("{:#?}", StatusCode::UNKNOWN_STATUS),
    }
}

/// The class of a status code.
pub fn status_type(code: u64) -> (r: StatusType)
    ensures
        r == status_type_of(code),
{
    if code <= 999 {
        StatusType::Validation
    } else if code <= 1999 {
        StatusType::Verification
    } else if code <= 2999 {
        StatusType::InvariantViolation
    } else if code <= 3999 {
        StatusType::Deserialization
    } else if code <= 4999 {
        StatusType::Execution
    } else {
        StatusType::Unknown
    }
}

/// An error raised by the VM-side logic: a Move status code, with an
/// optional message.
#[derive(Debug)]
pub struct VMError {
    pub major_status: u64,
    pub message: Option<String>,
}

impl VMError {
    /// An error with the given status code and no message.
    pub fn new(major_status: u64) -> (e: VMError)
        ensures
            e.major_status == major_status,
            e.message is None,
    {
        VMError { major_status, message: None }
    }
}

} // verus!
