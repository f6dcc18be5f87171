//! What the VM needs from the chain it runs in: the chain's API, its
//! storage and its querier, and the block information natives read.

use crate::backend_error::BackendResult;
use crate::storage::StateView;
use crate::vm_status::{VMError, LOOKUP_FAILED};
use vstd::prelude::*;

verus! {

/// Holds all external dependencies of the contract.
/// Designed to allow easy dependency injection at runtime.
/// This cannot be copied or cloned since it would behave differently
/// for mock storages and a bridge storage in the VM.
pub struct Backend<A: BackendApi, S: StateView, Q: Querier> {
    pub api: A,
    pub storage: S,
    pub querier: Q,
}

/// Callbacks to system functions of the chain.
/// These should all be pure (stateless) functions. If you need state, you probably want
/// to use the Querier.
pub trait BackendApi: Copy + Clone + Send {
    fn bank_transfer(&self, recipient: &[u8], denom: &str, amount: &str) -> BackendResult<()>;
}

/// Queries into the chain, passed through as bytes.
pub trait Querier {
    /// This is all that must be implemented for the Querier.
    /// This allows us to pass through binary queries from one level to another without
    /// knowing the custom format, or we can decode it, with the knowledge of the allowed
    /// types.
    fn query_raw(&self, request: &[u8]) -> BackendResult<Vec<u8>>;
}

/// Callbacks to system functions defined outside of the move modules.
pub trait ChainApi {
    /// The latest block's height and timestamp.
    fn get_block_info(&self) -> Result<(u64, u64), anyhow::Error>;
}

/// The native context through which Move code reads block information.
pub struct NativeBlockContext<'a, A: ChainApi + ?Sized> {
    pub api: &'a A,
}

impl<'a, A: ChainApi + ?Sized> NativeBlockContext<'a, A> {
    /// A context that reads through `api`.
    pub fn new(api: &'a A) -> (r: Self)
        ensures
            r.api == api,
    {
        NativeBlockContext { api }
    }

    /// The latest block's height and timestamp, as the native
    /// `get_block_info_internal` returns them; a failed lookup is reported
    /// as `LOOKUP_FAILED`.
    pub fn block_info(&self) -> (r: Result<(u64, u64), VMError>)
        ensures
            r matches Err(e) ==> e.major_status == LOOKUP_FAILED && e.message is None,
    {
        block_info_of(self.api.get_block_info())
    }
}

/// What the native returns for the chain's answer to a block lookup: the
/// height and timestamp it gave, or `LOOKUP_FAILED` (with no message) when
/// the lookup failed.
pub fn block_info_of(lookup: Result<(u64, u64), anyhow::Error>) -> (r: Result<(u64, u64), VMError>)
    ensures
        lookup matches Ok(info) ==> r == Ok::<(u64, u64), VMError>(info),
        lookup is Err ==> (r matches Err(e) && e.major_status == LOOKUP_FAILED && e.message is None),
{
    match lookup {
        Ok(info) => Ok(info),
        Err(_) => Err(VMError::new(LOOKUP_FAILED)),
    }
}

} // verus!
