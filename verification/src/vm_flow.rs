//! The decisions the VM entry points take around running Move code: which
//! way a message goes, whether a call has the sender it needs, the address
//! the genesis modules are published under, and the gas a run used.

use crate::message::{
    discard_error_output, get_message_output, MessageOutput, MessagePayloadType, MessageStatus,
    SessionOutput,
};
use crate::rust_error::RustError;
use crate::vm_error::{error_of_status, vm_error_text, NovaVMError, VMStatus};
use vstd::prelude::*;

verus! {

/// What a message asks the VM to do.
#[derive(Debug)]
pub enum MessageRoute {
    /// Run a script or entry function, with these senders as its signers.
    ExecuteCode { senders: Vec<u128> },
    /// Publish a module bundle under the sender's account.
    PublishBundle { sender: u128 },
}

/// Where a message goes: code runs with the sender (if any) as its only
/// signer; a module bundle is published by its sender, and a bundle without
/// sender is refused with "sender unset".
pub fn route_message(payload: MessagePayloadType, sender: Option<u128>) -> (r: Result<
    MessageRoute,
    NovaVMError,
>)
    ensures
        !(payload is ModuleBundle) ==> (r matches Ok(MessageRoute::ExecuteCode { senders })
            && senders@ == match sender {
            Some(s) => seq![s],
            None => Seq::<u128>::empty(),
        }),
        payload is ModuleBundle ==> match sender {
            Some(s) => r matches Ok(MessageRoute::PublishBundle { sender: p }) && p == s,
            None => r matches Err(e) && vm_error_text(e) == "Generic error: "@ + "sender unset"@,
        },
{
    match payload {
        MessagePayloadType::Script | MessagePayloadType::EntryFunction => {
            let mut senders: Vec<u128> = Vec::new();
            if let Some(s) = sender {
                senders.push(s);
            }
            proof {
                if sender is None {
                    assert(senders@ =~= Seq::<u128>::empty());
                } else {
                    assert(senders@ =~= seq![sender->0]);
                }
            }
            Ok(MessageRoute::ExecuteCode { senders })
        },
        MessagePayloadType::ModuleBundle => match sender {
            Some(sender) => Ok(MessageRoute::PublishBundle { sender }),
            None => Err(NovaVMError::generic_err("sender unset")),
        },
    }
}

/// A call that is not a query needs a sender.
pub fn check_sender(is_query: bool, sender: Option<u128>) -> (r: Result<(), RustError>)
    ensures
        (!is_query && sender is None) ==> (r matches Err(RustError::UnsetArg { name }) && name@
            == "sender"@),
        (is_query || sender is Some) ==> r is Ok,
{
    if !is_query && sender.is_none() {
        return Err(RustError::unset_arg("sender"));
    }
    Ok(())
}

/// The address the genesis modules are published under: all of them must
/// be under the same one.
pub fn genesis_publisher(addresses: &Vec<u128>) -> (r: u128)
    requires
        addresses@.len() > 0,
        forall|i: int| 0 <= i < addresses@.len() ==> #[trigger] addresses@[i] == addresses@[0],
    ensures
        r == addresses@[0],
        forall|i: int| 0 <= i < addresses@.len() ==> #[trigger] addresses@[i] == r,
{
    addresses[0]
}

/// The gas a run used: what the limit left is spent.
pub fn gas_used(gas_limit: u64, balance: u64) -> (r: u64)
    requires
        balance <= gas_limit,
    ensures
        r == gas_limit - balance,
{
    gas_limit - balance
}

/// What the host does once a run is over: an executed run is reported,
/// and its writes are kept (`Ok(true)`) unless the run was a query
/// (`Ok(false)`); any other status fails the call with the error the VM
/// error of that status is reported as.
pub fn run_outcome(status: VMStatus, is_query: bool) -> (r: Result<bool, RustError>)
    ensures
        status is Executed ==> r == Ok::<bool, RustError>(!is_query),
        !(status is Executed) ==> match r {
            Ok(_) => false,
            Err(e) => match error_of_status(status) {
                NovaVMError::GasDepletion {  } => e is OutOfGas,
                err => e matches RustError::VmErr { msg } && msg@ == vm_error_text(err),
            },
        },
{
    match status {
        VMStatus::Executed => Ok(!is_query),
        _ => Err(RustError::from_vm_error(NovaVMError::from(status))),
    }
}

/// `out` is the output of a discarded message: nothing written or
/// emitted, the gas used, and a discard status with `code`.
pub open spec fn is_discard_output(out: MessageOutput, code: u64, gas_used: u64) -> bool {
    &&& out.events@.len() == 0
    &&& out.size_change_set.view() == Map::<u128, crate::size_change_set::SizeDelta>::empty()
    &&& out.table_meta_change_set.owner@.len() == 0
    &&& out.table_meta_change_set.size@.len() == 0
    &&& out.gas_used == gas_used
    &&& out.status == MessageStatus::Discard(code)
}

/// `out` is the output of a message kept with `status` whose session
/// produced `session`: its events and account size changes, no table
/// metadata writes, the gas used.
pub open spec fn is_kept_output(
    out: MessageOutput,
    session: SessionOutput,
    status: crate::message::KeptVMStatus,
    gas_used: u64,
) -> bool {
    &&& out.events == session.events
    &&& out.size_change_set == session.account_size_changes
    &&& out.table_meta_change_set.owner@.len() == 0
    &&& out.table_meta_change_set.size@.len() == 0
    &&& out.gas_used == gas_used
    &&& out.status == MessageStatus::Keep(status)
}

/// The output for an error that discards its message: the status itself is
/// handed back, and the output is discarded with the code the status
/// discards with (its own status code, should it be one that is kept).
pub fn discard_error_vm_status(err: VMStatus, gas_used: u64) -> (r: (VMStatus, MessageOutput))
    ensures
        r.0 == err,
        is_discard_output(
            r.1,
            match err.kept_or_discarded() {
                Ok(_) => err.spec_status_code(),
                Err(code) => code,
            },
            gas_used,
        ),
{
    let vm_status = err.clone();
    let error_code = match err.keep_or_discard() {
        Ok(_) => vm_status.status_code(),
        Err(code) => code,
    };
    (vm_status, discard_error_output(error_code, gas_used))
}

/// The outcome of a failed message, given the output of a fresh session
/// that ran nothing: a status that keeps the output is handed back with
/// that session's output and the recorded status; one that discards it
/// becomes an `Error` with its code, and the output is discarded.
pub fn failed_message_cleanup(
    error_code: VMStatus,
    session_output: SessionOutput,
    gas_used: u64,
) -> (r: (VMStatus, MessageOutput))
    ensures
        match error_code.kept_or_discarded() {
            Ok(status) => r.0 == error_code && is_kept_output(r.1, session_output, status, gas_used),
            Err(code) => r.0 == VMStatus::Error(code) && is_discard_output(r.1, code, gas_used),
        },
{
    match MessageStatus::from(error_code.clone()) {
        MessageStatus::Keep(status) => {
            let txn_output = get_message_output(session_output, None, gas_used, status);
            (error_code, txn_output)
        },
        MessageStatus::Discard(status) => (
            VMStatus::Error(status),
            discard_error_output(status, gas_used),
        ),
    }
}

/// How a message whose run failed with `err` ends: the status is handed
/// back; the output is discarded with the status's code when the status
/// discards it, and otherwise is that of `session_output` (the output of a
/// fresh session that ran nothing), kept with the recorded status.
pub fn settle_failed_message(err: VMStatus, gas_used: u64, session_output: SessionOutput) -> (r: (
    VMStatus,
    MessageOutput,
))
    ensures
        r.0 == err,
        match err.kept_or_discarded() {
            Ok(status) => is_kept_output(r.1, session_output, status, gas_used),
            Err(code) => is_discard_output(r.1, code, gas_used),
        },
{
    let txn_status = MessageStatus::from(err.clone());
    if txn_status.is_discarded() {
        discard_error_vm_status(err, gas_used)
    } else {
        failed_message_cleanup(err, session_output, gas_used)
    }
}

} // verus!
