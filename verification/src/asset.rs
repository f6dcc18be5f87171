//! The named addresses the bundled Move packages are compiled with.

use vstd::prelude::*;

verus! {

/// The named addresses of the standard packages, in name order: `nova_std`
/// and `std`, both at address `0x1`.
pub fn named_addresses() -> (r: Vec<(String, u128)>)
    ensures
        r@.len() == 2,
        r@[0].0@ == "nova_std"@,
        r@[0].1 == 1,
        r@[1].0@ == "std"@,
        r@[1].1 == 1,
{
    let mut mapping: Vec<(String, u128)> = Vec::new();
    mapping.push(("nova_std".to_owned(), 1));
    mapping.push(("std".to_owned(), 1));
    mapping
}

} // verus!
