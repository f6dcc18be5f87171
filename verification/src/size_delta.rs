//! The per-account storage size change reported back to the host.

use vstd::prelude::*;

verus! {

/// The storage size change of one account, as reported to the host.
#[derive(Debug, Clone, Copy, PartialEq, Eq)]
pub struct SizeDelta {
    /// The account address of the storage size delta
    pub address: u128,
    /// The number of delta bytes size
    pub amount: u64,
    /// The sign flag
    pub is_decreasing: bool,
}

impl SizeDelta {
    pub fn new(address: u128, amount: u64, is_decreasing: bool) -> (r: SizeDelta)
        ensures
            r == (SizeDelta { address, amount, is_decreasing }),
    {
        SizeDelta { address, amount, is_decreasing }
    }
}

} // verus!
