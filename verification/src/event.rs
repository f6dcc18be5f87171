//! The events a Move run emitted, as reported to the host.

use move_core_types::language_storage::TypeTag;
use vstd::prelude::*;

verus! {

#[verifier::external_type_specification]
#[verifier::external_body]
pub struct ExTypeTag(TypeTag);

/// An event emitted by a Move run: the key it was emitted to, its sequence
/// number there, the type of its data and the data.
pub struct ContractEvent {
    /// The unique key that the event was emitted to
    pub key: Vec<u8>,
    /// The number of messages that have been emitted to the path previously
    pub sequence_number: u64,
    /// The type of the data
    pub type_tag: TypeTag,
    /// The data payload of the event
    pub event_data: Vec<u8>,
}

impl ContractEvent {
    pub fn new(key: Vec<u8>, sequence_number: u64, type_tag: TypeTag, event_data: Vec<u8>) -> (r: ContractEvent)
        ensures
            r.key@ == key@,
            r.sequence_number == sequence_number,
            r.type_tag == type_tag,
            r.event_data@ == event_data@,
    {
        ContractEvent { key, sequence_number, type_tag, event_data }
    }
}

} // verus!
