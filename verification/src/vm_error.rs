//! The VM's outcome statuses, and the error the VM entry points return.

use crate::text::{decimal, decimal_text, join2};
use crate::message::KeptVMStatus;
use crate::vm_status::{
    status_code_name, status_code_text, status_type, status_type_of, status_type_text, StatusType,
    ABORTED, EXECUTED, OUT_OF_GAS,
};
use vstd::string::*;
use vstd::prelude::*;

verus! {

/// Where a Move abort happened: in a module (its address and name) or in a script.
#[derive(Debug, PartialEq, Eq)]
pub enum AbortLocation {
    Module { address: u128, name: String },
    Script,
}

/// The status a Move VM run ends with; status codes are held as their numbers.
#[derive(Debug, PartialEq, Eq)]
pub enum VMStatus {
    /// The VM status corresponding to an EXECUTED status code
    Executed,
    /// Indicates an error from the VM, e.g. OUT_OF_GAS, INVALID_AUTH_KEY, RET_TYPE_MISMATCH_ERROR
    /// etc.
    Error(u64),
    /// Indicates an `abort` from inside Move code.
    MoveAbort(AbortLocation, u64),
    /// Indicates an failure from inside Move code, where the VM could not continue exection.
    ExecutionFailure { status_code: u64, location: AbortLocation, function: u16, code_offset: u16 },
}

impl Clone for AbortLocation {
    fn clone(&self) -> (r: AbortLocation)
        ensures
            r == *self,
    {
        match self {
            AbortLocation::Module { address, name } => AbortLocation::Module {
                address: *address,
                name: name.clone(),
            },
            AbortLocation::Script => AbortLocation::Script,
        }
    }
}

impl Clone for VMStatus {
    fn clone(&self) -> (r: VMStatus)
        ensures
            r == *self,
    {
        match self {
            VMStatus::Executed => VMStatus::Executed,
            VMStatus::Error(code) => VMStatus::Error(*code),
            VMStatus::MoveAbort(location, code) => VMStatus::MoveAbort(location.clone(), *code),
            VMStatus::ExecutionFailure { status_code, location, function, code_offset } => {
                VMStatus::ExecutionFailure {
                    status_code: *status_code,
                    location: location.clone(),
                    function: *function,
                    code_offset: *code_offset,
                }
            },
        }
    }
}

impl VMStatus {
    /// The status code a status stands for.
    pub open spec fn spec_status_code(self) -> u64 {
        match self {
            VMStatus::Executed => EXECUTED,
            VMStatus::MoveAbort(_, _) => ABORTED,
            VMStatus::ExecutionFailure { status_code, .. } => status_code,
            VMStatus::Error(code) => code,
        }
    }

    /// Whether a message that ended with a status keeps its output, and
    /// with which kept status, or is discarded, with which code: a run, an
    /// abort and an execution failure are kept (running out of gas as
    /// `OutOfGas`); an error is kept when it ran out of gas, failed
    /// verification or deserialization (`MiscellaneousError`) or failed in
    /// execution, and discarded otherwise.
    pub open spec fn kept_or_discarded(self) -> Result<KeptVMStatus, u64> {
        match self {
            VMStatus::Executed => Ok(KeptVMStatus::Executed),
            VMStatus::MoveAbort(location, code) => Ok(KeptVMStatus::MoveAbort(location, code)),
            VMStatus::ExecutionFailure { status_code, location, function, code_offset } => {
                if status_code == OUT_OF_GAS {
                    Ok(KeptVMStatus::OutOfGas)
                } else {
                    Ok(KeptVMStatus::ExecutionFailure { location, function, code_offset })
                }
            },
            VMStatus::Error(code) => {
                if code == OUT_OF_GAS {
                    Ok(KeptVMStatus::OutOfGas)
                } else {
                    match status_type_of(code) {
                        StatusType::Verification | StatusType::Deserialization => Ok(
                            KeptVMStatus::MiscellaneousError,
                        ),
                        StatusType::Execution => Ok(
                            KeptVMStatus::ExecutionFailure {
                                location: AbortLocation::Script,
                                function: 0,
                                code_offset: 0,
                            },
                        ),
                        _ => Err(code),
                    }
                }
            },
        }
    }

    /// The text a status is shown with: its status code's name and class,
    /// and for an abort the abort code.
    pub open spec fn text(self) -> Seq<char> {
        let code = self.spec_status_code();
        let base = "status "@ + status_code_name(code) + " of type "@ + status_type_text(
            status_type_of(code),
        );
        match self {
            VMStatus::MoveAbort(_, sub) => base + " with sub status "@ + decimal(sub as nat),
            _ => base,
        }
    }

    /// The text the status is shown with: "status", the status code's name,
    /// "of type" and its class, and for an abort "with sub status" and the
    /// abort code.
    pub fn to_string(&self) -> (r: String)
        ensures
            r@ == self.text(),
    {
        let code = self.status_code();
        let mut text = String::from_str("status ");
        let name = status_code_text(code);
        text.append(name.as_str());
        text.append(" of type ");
        let class = status_type(code).to_string();
        text.append(class.as_str());
        if let VMStatus::MoveAbort(_, sub) = self {
            text.append(" with sub status ");
            let digits = decimal_text(*sub);
            text.append(digits.as_str());
        }
        text
    }

    /// The status code this status stands for.
    pub fn status_code(&self) -> (r: u64)
        ensures
            r == self.spec_status_code(),
    {
        match self {
            VMStatus::Executed => EXECUTED,
            VMStatus::MoveAbort(_, _) => ABORTED,
            VMStatus::ExecutionFailure { status_code, .. } => *status_code,
            VMStatus::Error(code) => *code,
        }
    }

    /// `Ok` with the status to record when the message output is kept,
    /// `Err` with the status code when it is discarded.
    pub fn keep_or_discard(self) -> (r: Result<KeptVMStatus, u64>)
        ensures
            r == self.kept_or_discarded(),
    {
        match self {
            VMStatus::Executed => Ok(KeptVMStatus::Executed),
            VMStatus::MoveAbort(location, code) => Ok(KeptVMStatus::MoveAbort(location, code)),
            VMStatus::ExecutionFailure { status_code, location, function, code_offset } => {
                if status_code == OUT_OF_GAS {
                    Ok(KeptVMStatus::OutOfGas)
                } else {
                    Ok(KeptVMStatus::ExecutionFailure { location, function, code_offset })
                }
            },
            VMStatus::Error(code) => {
                if code == OUT_OF_GAS {
                    Ok(KeptVMStatus::OutOfGas)
                } else {
                    match status_type(code) {
                        StatusType::Verification | StatusType::Deserialization => Ok(
                            KeptVMStatus::MiscellaneousError,
                        ),
                        StatusType::Execution => Ok(
                            KeptVMStatus::ExecutionFailure {
                                location: AbortLocation::Script,
                                function: 0,
                                code_offset: 0,
                            },
                        ),
                        _ => Err(code),
                    }
                }
            },
        }
    }
}

/// An error from running the VM.
#[derive(Debug)]
pub enum NovaVMError {
    GasDepletion {},
    MoveError { status: VMStatus },
    /// Whenever there is no specific error type available
    GenericErr { msg: String },
}

/// The name the VM error goes by at the FFI layer.
pub type VmError = NovaVMError;

/// The error a VM status becomes: running out of gas during execution is a
/// gas depletion; any other status is carried as a Move error.
pub open spec fn error_of_status(status: VMStatus) -> NovaVMError {
    match status {
        VMStatus::ExecutionFailure { status_code, .. } => if status_code == OUT_OF_GAS {
            NovaVMError::GasDepletion {  }
        } else {
            NovaVMError::MoveError { status }
        },
        _ => NovaVMError::MoveError { status },
    }
}

/// The text a VM error is reported with.
pub open spec fn vm_error_text(e: NovaVMError) -> Seq<char> {
    match e {
        NovaVMError::GasDepletion {  } => "Ran out of gas during contract execution"@,
        NovaVMError::MoveError { .. } => "errors from the move vm"@,
        NovaVMError::GenericErr { msg } => "Generic error: "@ + msg@,
    }
}

impl NovaVMError {
    pub fn gas_depletion() -> (r: NovaVMError)
        ensures
            r is GasDepletion,
    {
        NovaVMError::GasDepletion {  }
    }

    pub fn move_error(status: VMStatus) -> (r: NovaVMError)
        ensures
            r == (NovaVMError::MoveError { status }),
    {
        NovaVMError::MoveError { status }
    }

    pub fn generic_err(msg: &str) -> (r: NovaVMError)
        ensures
            r matches NovaVMError::GenericErr { msg: m } && m@ == msg@,
    {
        NovaVMError::GenericErr { msg: msg.to_owned() }
    }

    /// The text the error is reported with.
    pub fn to_string(&self) -> (r: String)
        ensures
            r@ == vm_error_text(*self),
    {
        match self {
            NovaVMError::GasDepletion {  } => "Ran out of gas during contract execution".to_owned(),
            NovaVMError::MoveError { .. } => "errors from the move vm".to_owned(),
            NovaVMError::GenericErr { msg } => join2("Generic error: ", msg.as_str()),
        }
    }
}

impl From<VMStatus> for NovaVMError {
    fn from(source: VMStatus) -> (r: NovaVMError) {
        match &source {
            VMStatus::ExecutionFailure { status_code, .. } => {
                if *status_code == OUT_OF_GAS {
                    NovaVMError::gas_depletion()
                } else {
                    NovaVMError::move_error(source)
                }
            },
            _ => NovaVMError::move_error(source),
        }
    }
}

impl vstd::std_specs::convert::FromSpecImpl<VMStatus> for NovaVMError {
    open spec fn obeys_from_spec() -> bool {
        true
    }

    open spec fn from_spec(source: VMStatus) -> NovaVMError {
        error_of_status(source)
    }
}

} // verus!
