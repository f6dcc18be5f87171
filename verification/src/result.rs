//! The result of a message execution as returned to the host: the result
//! bytes, the events, the accounts' size changes and the gas used.

use crate::event::ContractEvent;
use crate::key_order::{entries_in_order, entries_of, lemma_entries_in_order_facts};
use crate::message::MessageOutput;
use crate::rust_error::RustError;
use crate::size_change_set::SizeDelta as StoredSizeDelta;
use crate::size_delta::SizeDelta;
use crate::vm_error::VMStatus;
use vstd::prelude::*;
use vstd::string::*;
use vstd::utf8::encode_utf8;

verus! {

/// What a Move call returned: the bytes of each return value (their type
/// layouts dropped) and, for each mutable reference parameter, its index
/// and final bytes.
pub struct SerializedReturnValues {
    pub mutable_reference_outputs: Vec<(u8, Vec<u8>)>,
    pub return_values: Vec<Vec<u8>>,
}

/// The result of a message execution as returned to the host.
pub struct ExecutionResult {
    pub result: Vec<u8>,
    pub events: Vec<ContractEvent>,
    pub size_deltas: Vec<SizeDelta>,
    pub gas_used: u64,
}

/// The result bytes: for a query that returned exactly one value (and no
/// mutable reference outputs), that value's bytes; for a query that
/// returned anything else, an error; otherwise the status text.
pub open spec fn result_bytes(
    status_text: Seq<char>,
    retval: Option<SerializedReturnValues>,
    is_query: bool,
) -> Option<Seq<u8>> {
    match retval {
        Some(val) => if !is_query {
            Some(encode_utf8(status_text))
        } else if val.mutable_reference_outputs@.len() == 0 && val.return_values@.len() == 1 {
            Some(val.return_values@[0]@)
        } else {
            None
        },
        None => Some(encode_utf8(status_text)),
    }
}

/// The size change of an account as reported: address, amount and sign.
pub open spec fn reported_delta(entry: (u128, StoredSizeDelta)) -> SizeDelta {
    SizeDelta {
        address: entry.0,
        amount: entry.1.amount as u64,
        is_decreasing: entry.1.is_decrease,
    }
}

/// Assembles the result of an execution that ended with `status`: the
/// result bytes are the status's text, or a query's single return value. A
/// query may return only one value.
pub fn generate_result(
    status: VMStatus,
    output: MessageOutput,
    retval: Option<SerializedReturnValues>,
    is_query: bool,
) -> (r: Result<ExecutionResult, RustError>)
    ensures
        match result_bytes(status.text(), retval, is_query) {
            None => r matches Err(e) && e matches RustError::VmErr { msg } && msg@
                == "only one value is allowed to be returned."@,
            Some(bytes) => r matches Ok(res) && {
                &&& res.result@ == bytes
                &&& res.events@.len() == output.events@.len()
                &&& forall|i: int|
                    0 <= i < res.events@.len() ==> {
                        &&& (#[trigger] res.events@[i]).key@ == output.events@[i].0@
                        &&& res.events@[i].sequence_number == output.events@[i].1
                        &&& res.events@[i].type_tag == output.events@[i].2
                        &&& res.events@[i].event_data@ == output.events@[i].3@
                    }
                &&& res.size_deltas@ == entries_in_order(output.size_change_set.view()).map_values(
                    |e: (u128, StoredSizeDelta)| reported_delta(e),
                )
                &&& res.gas_used == output.gas_used
            },
        },
{
    let status_text = status.to_string();
    let result = match retval {
        Some(val) => {
            if !is_query {
                status_text.as_str().as_bytes_vec()
            } else if val.mutable_reference_outputs.len() == 0 && val.return_values.len() == 1 {
                // allow only single return values; the client deserializes it
                let mut values = val.return_values;
                values.pop().unwrap()
            } else {
                return Err(RustError::vm_err("only one value is allowed to be returned."));
            }
        },
        None => status_text.as_str().as_bytes_vec(),
    };

    let ghost sizes = output.size_change_set.view();
    let entries = entries_of(output.size_change_set.changes());
    let mut size_deltas: Vec<SizeDelta> = Vec::new();
    let mut i: usize = 0;
    while i < entries.len()
        invariant
            entries@ == entries_in_order(sizes),
            i <= entries.len(),
            size_deltas@ == entries@.take(i as int).map_values(
                |e: (u128, StoredSizeDelta)| reported_delta(e),
            ),
        decreases entries.len() - i,
    {
        let (account_addr, size_delta) = entries[i];
        size_deltas.push(
            SizeDelta::new(account_addr, size_delta.amount as u64, size_delta.is_decrease),
        );
        proof {
            assert(entries@.take(i + 1) =~= entries@.take(i as int).push(entries@[i as int]));
            assert(size_deltas@ =~= entries@.take(i + 1).map_values(
                |e: (u128, StoredSizeDelta)| reported_delta(e),
            ));
        }
        i = i + 1;
    }
    proof {
        assert(entries@.take(entries@.len() as int) =~= entries@);
    }

    let gas_used = output.gas_used;
    let ghost emitted = output.events@;
    let mut events: Vec<ContractEvent> = Vec::new();
    for event in it: output.events.into_iter()
        invariant
            it.seq() == emitted,
            events@.len() == it.index(),
            forall|j: int|
                0 <= j < events@.len() ==> {
                    &&& (#[trigger] events@[j]).key@ == emitted[j].0@
                    &&& events@[j].sequence_number == emitted[j].1
                    &&& events@[j].type_tag == emitted[j].2
                    &&& events@[j].event_data@ == emitted[j].3@
                },
    {
        let (guid, sequence_number, type_tag, data) = event;
        events.push(ContractEvent::new(guid, sequence_number, type_tag, data));
    }

    Ok(ExecutionResult { result, events, size_deltas, gas_used })
}

} // verus!
