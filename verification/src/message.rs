//! The outcome of executing a message: whether its output is kept or
//! discarded, and what it produced.

use crate::size_change_set::SizeChangeSet;
use crate::table_meta::data_cache::TableMetaChangeSet;
use crate::vm_error::{AbortLocation, VMStatus};
use crate::vm_status::{status_type_of, StatusType, OUT_OF_GAS};
use move_core_types::language_storage::TypeTag;
use vstd::prelude::*;

verus! {

/// The address the core code is published under.
pub const CORE_CODE_ADDRESS: u128 = 1;

/// The address genesis publishes under: the core code address.
pub fn genesis_address() -> (r: u128)
    ensures
        r == CORE_CODE_ADDRESS,
{
    CORE_CODE_ADDRESS
}

/// The kinds of message payload, as numbered over the FFI.
#[derive(Debug, Clone, Copy, PartialEq, Eq, Structural)]
pub enum MessagePayloadType {
    Script,
    ModuleBundle,
    EntryFunction,
}

/// The error for a payload type number that is not accepted.
#[derive(Debug)]
pub struct InvalidPayloadType;

impl InvalidPayloadType {
    /// The text the error is reported with.
    pub fn to_string(&self) -> (r: String)
        ensures
            r@ == "invalid PayloadType"@,
    {
        "invalid PayloadType".to_owned()
    }
}

impl MessagePayloadType {
    /// The number of a payload type: 0, 1 or 2.
    pub open spec fn spec_to_u8(self) -> u8 {
        match self {
            MessagePayloadType::Script => 0,
            MessagePayloadType::ModuleBundle => 1,
            MessagePayloadType::EntryFunction => 2,
        }
    }

    pub fn to_u8(self) -> (r: u8)
        ensures
            r == self.spec_to_u8(),
    {
        match self {
            MessagePayloadType::Script => 0,
            MessagePayloadType::ModuleBundle => 1,
            MessagePayloadType::EntryFunction => 2,
        }
    }

    /// Reads a payload type number: 0 is a script and 1 a module bundle;
    /// every other number, 2 included, is refused.
    pub fn try_from_u8(value: u8) -> (r: Result<MessagePayloadType, InvalidPayloadType>)
        ensures
            match payload_type_of_u8(value) {
                Some(t) => r == Ok::<MessagePayloadType, InvalidPayloadType>(t),
                None => r is Err,
            },
    {
        match value {
            0 => Ok(MessagePayloadType::Script),
            1 => Ok(MessagePayloadType::ModuleBundle),
            _ => Err(InvalidPayloadType),
        }
    }
}

/// The payload type a number is read as: 0 is a script, 1 a module bundle;
/// no other number is read, not even an entry function's 2.
pub open spec fn payload_type_of_u8(value: u8) -> Option<MessagePayloadType> {
    if value == 0 {
        Some(MessagePayloadType::Script)
    } else if value == 1 {
        Some(MessagePayloadType::ModuleBundle)
    } else {
        None
    }
}

/// Reading back the number of a script or module bundle payload type gives
/// the type back, and a number that is read is that type's number. (An
/// entry function's number, 2, is not read back.)
pub proof fn lemma_payload_type_round_trip(t: MessagePayloadType, value: u8)
    ensures
        !(t is EntryFunction) ==> payload_type_of_u8(t.spec_to_u8()) == Some(t),
        t is EntryFunction ==> payload_type_of_u8(t.spec_to_u8()) is None,
        payload_type_of_u8(value) matches Some(u) ==> u.spec_to_u8() == value,
{
}

/// A status whose message output is kept.
#[derive(Debug, PartialEq, Eq)]
pub enum KeptVMStatus {
    Executed,
    OutOfGas,
    MoveAbort(AbortLocation, u64),
    ExecutionFailure { location: AbortLocation, function: u16, code_offset: u16 },
    MiscellaneousError,
}

/// Whether a message's output is kept (with how it ended) or discarded
/// (with the status code).
#[derive(Debug, PartialEq, Eq)]
pub enum MessageStatus {
    /// Discard the message output
    Discard(u64),
    /// Keep the message output
    Keep(KeptVMStatus),
}

impl Clone for KeptVMStatus {
    fn clone(&self) -> (r: KeptVMStatus)
        ensures
            r == *self,
    {
        match self {
            KeptVMStatus::Executed => KeptVMStatus::Executed,
            KeptVMStatus::OutOfGas => KeptVMStatus::OutOfGas,
            KeptVMStatus::MoveAbort(location, code) => KeptVMStatus::MoveAbort(location.clone(), *code),
            KeptVMStatus::ExecutionFailure { location, function, code_offset } => {
                KeptVMStatus::ExecutionFailure {
                    location: location.clone(),
                    function: *function,
                    code_offset: *code_offset,
                }
            },
            KeptVMStatus::MiscellaneousError => KeptVMStatus::MiscellaneousError,
        }
    }
}

impl Clone for MessageStatus {
    fn clone(&self) -> (r: MessageStatus)
        ensures
            r == *self,
    {
        match self {
            MessageStatus::Discard(code) => MessageStatus::Discard(*code),
            MessageStatus::Keep(status) => MessageStatus::Keep(status.clone()),
        }
    }
}

impl MessageStatus {
    /// How a kept message ended, or the status code a discarded one carries.
    pub fn status(&self) -> (r: Result<KeptVMStatus, u64>)
        ensures
            match *self {
                MessageStatus::Keep(s) => r == Ok::<KeptVMStatus, u64>(s),
                MessageStatus::Discard(code) => r == Err::<KeptVMStatus, u64>(code),
            },
    {
        match self {
            MessageStatus::Keep(status) => Ok(status.clone()),
            MessageStatus::Discard(code) => Err(*code),
        }
    }

    pub fn is_discarded(&self) -> (r: bool)
        ensures
            r == (*self is Discard),
    {
        match self {
            MessageStatus::Discard(_) => true,
            MessageStatus::Keep(_) => false,
        }
    }
}

/// The message status a VM status gives: kept with the recorded status,
/// or discarded with the status code.
pub open spec fn message_status_of(status: VMStatus) -> MessageStatus {
    match status.kept_or_discarded() {
        Ok(recorded) => MessageStatus::Keep(recorded),
        Err(code) => MessageStatus::Discard(code),
    }
}

/// Only an error is ever discarded, and exactly the errors that are not
/// running out of gas and whose code is a validation failure, an invariant
/// violation or unknown; every other status keeps the message output.
pub proof fn lemma_discarded_exactly(status: VMStatus)
    ensures
        message_status_of(status) is Discard <==> (status matches VMStatus::Error(code) && code
            != OUT_OF_GAS && (status_type_of(code) == StatusType::Validation || status_type_of(code)
            == StatusType::InvariantViolation || status_type_of(code) == StatusType::Unknown)),
        message_status_of(status) matches MessageStatus::Discard(code) ==> code
            == status.spec_status_code(),
{
}

impl From<VMStatus> for MessageStatus {
    fn from(vm_status: VMStatus) -> (r: MessageStatus) {
        match vm_status.keep_or_discard() {
            Ok(recorded) => MessageStatus::Keep(recorded),
            Err(code) => MessageStatus::Discard(code),
        }
    }
}

impl vstd::std_specs::convert::FromSpecImpl<VMStatus> for MessageStatus {
    open spec fn obeys_from_spec() -> bool {
        true
    }

    open spec fn from_spec(vm_status: VMStatus) -> MessageStatus {
        message_status_of(vm_status)
    }
}

/// An event as the VM emits it: key, sequence number, type of the data, data.
pub type Event = (Vec<u8>, u64, TypeTag, Vec<u8>);

/// What executing a message produced, beyond the Move write set: its
/// events, the accounts' storage size changes, the table metadata writes,
/// the gas used and the status.
pub struct MessageOutput {
    pub events: Vec<Event>,
    pub size_change_set: SizeChangeSet,
    pub table_meta_change_set: TableMetaChangeSet,
    /// The amount of gas used during execution.
    pub gas_used: u64,
    /// The execution status.
    pub status: MessageStatus,
}

impl MessageOutput {
    pub fn new(
        events: Vec<Event>,
        size_change_set: SizeChangeSet,
        table_meta_change_set: TableMetaChangeSet,
        gas_used: u64,
        status: MessageStatus,
    ) -> (r: MessageOutput)
        ensures
            r.events == events,
            r.size_change_set == size_change_set,
            r.table_meta_change_set == table_meta_change_set,
            r.gas_used == gas_used,
            r.status == status,
    {
        MessageOutput { events, size_change_set, table_meta_change_set, gas_used, status }
    }

    pub fn events(&self) -> (r: &Vec<Event>)
        ensures
            *r == self.events,
    {
        &self.events
    }

    pub fn size_change_set(&self) -> (r: &SizeChangeSet)
        ensures
            *r == self.size_change_set,
    {
        &self.size_change_set
    }

    /// The amount of gas used during execution.
    pub fn gas_used(&self) -> (r: u64)
        ensures
            r == self.gas_used,
    {
        self.gas_used
    }

    /// The execution status.
    pub fn status(&self) -> (r: &MessageStatus)
        ensures
            *r == self.status,
    {
        &self.status
    }

    /// The events, the gas used and the status, taken out.
    pub fn into_inner(self) -> (r: (Vec<Event>, u64, MessageStatus))
        ensures
            r == (self.events, self.gas_used, self.status),
    {
        (self.events, self.gas_used, self.status)
    }
}

/// The output of a discarded message: nothing written, nothing emitted,
/// only the gas used and the status code.
pub fn discard_error_output(err: u64, gas_used: u64) -> (r: MessageOutput)
    ensures
        r.events@.len() == 0,
        r.size_change_set.view() == Map::<u128, crate::size_change_set::SizeDelta>::empty(),
        r.table_meta_change_set.owner@.len() == 0,
        r.table_meta_change_set.size@.len() == 0,
        r.gas_used == gas_used,
        r.status == MessageStatus::Discard(err),
{
    MessageOutput::new(
        Vec::new(),
        SizeChangeSet::default(),
        TableMetaChangeSet::default(),
        gas_used,
        MessageStatus::Discard(err),
    )
}

/// What a finished session produced, beyond the Move write set: its events
/// and the storage size changes of the accounts and of the tables.
pub struct SessionOutput {
    pub events: Vec<Event>,
    pub account_size_changes: SizeChangeSet,
    pub table_size_changes: SizeChangeSet,
}

/// The output of a message whose session finished and is kept with
/// `status`: the session's events and account size changes, the table
/// metadata writes (none when there are none) and the gas used.
pub fn get_message_output(
    session_output: SessionOutput,
    table_meta_change_set: Option<TableMetaChangeSet>,
    gas_used: u64,
    status: KeptVMStatus,
) -> (r: MessageOutput)
    ensures
        r.events == session_output.events,
        r.size_change_set == session_output.account_size_changes,
        match table_meta_change_set {
            Some(m) => r.table_meta_change_set == m,
            None => r.table_meta_change_set.owner@.len() == 0 && r.table_meta_change_set.size@.len() == 0,
        },
        r.gas_used == gas_used,
        r.status == MessageStatus::Keep(status),
{
    let meta = match table_meta_change_set {
        Some(m) => m,
        None => TableMetaChangeSet::default(),
    };
    MessageOutput::new(
        session_output.events,
        session_output.account_size_changes,
        meta,
        gas_used,
        MessageStatus::Keep(status),
    )
}

} // verus!
