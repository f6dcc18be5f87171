//! Finding the addresses a Move value holds, in the order a depth-first walk
//! meets them: a written value that holds a table's handle makes its holder
//! that table's owner.

use crate::table_meta::effects::Op;
use crate::vm_status::{VMError, FAILED_TO_SERIALIZE_WRITE_SET_CHANGES};
use vstd::prelude::*;

verus! {

/// The shape of a Move value, as far as finding addresses needs it.
#[derive(Debug)]
pub enum ValueShape {
    /// An address.
    Address(u128),
    /// A vector of addresses.
    AddressVector(Vec<u128>),
    /// A struct, with its fields.
    Struct(Vec<ValueShape>),
    /// A vector of other values.
    Vector(Vec<ValueShape>),
    /// A reference: the walk does not follow it.
    Reference,
    /// Any other value (integers, booleans, vectors of them).
    Primitive,
}

/// The addresses `v` holds, in depth-first order; references are not followed.
pub open spec fn addresses_in(v: ValueShape) -> Seq<u128>
    decreases v,
{
    match v {
        ValueShape::Address(a) => seq![a],
        ValueShape::AddressVector(vals) => vals@,
        ValueShape::Struct(fields) => addresses_in_all(fields@),
        ValueShape::Vector(elems) => addresses_in_all(elems@),
        ValueShape::Reference => Seq::empty(),
        ValueShape::Primitive => Seq::empty(),
    }
}

/// The addresses the values of `vs` hold, one after the other.
pub open spec fn addresses_in_all(vs: Seq<ValueShape>) -> Seq<u128>
    decreases vs,
{
    if vs.len() == 0 {
        Seq::empty()
    } else {
        addresses_in_all(vs.drop_last()) + addresses_in(vs.last())
    }
}

/// Appends the addresses `v` holds to `found`.
fn visit(v: &ValueShape, found: &mut Vec<u128>)
    ensures
        final(found)@ == old(found)@ + addresses_in(*v),
    decreases v,
{
    match v {
        ValueShape::Address(a) => {
            found.push(*a);
        },
        ValueShape::AddressVector(vals) => {
            let mut i: usize = 0;
            let ghost start = found@;
            while i < vals.len()
                invariant
                    i <= vals@.len(),
                    found@ == start + vals@.take(i as int),
                decreases vals.len() - i,
            {
                found.push(vals[i]);
                assert(vals@.take(i + 1) =~= vals@.take(i as int).push(vals@[i as int]));
                i = i + 1;
            }
            assert(vals@.take(vals@.len() as int) =~= vals@);
        },
        ValueShape::Struct(fields) => {
            proof {
                assert(decreases_to!(*v => v->Struct_0));
            }
            visit_all(fields, found);
        },
        ValueShape::Vector(elems) => {
            proof {
                assert(decreases_to!(*v => v->Vector_0));
            }
            visit_all(elems, found);
        },
        ValueShape::Reference | ValueShape::Primitive => {},
    }
}

/// Appends the addresses the values of `children` hold to `found`.
fn visit_all(children: &Vec<ValueShape>, found: &mut Vec<u128>)
    ensures
        final(found)@ == old(found)@ + addresses_in_all(children@),
    decreases children,
{
    let ghost start = found@;
    let mut i: usize = 0;
    while i < children.len()
        invariant
            i <= children@.len(),
            found@ == start + addresses_in_all(children@.take(i as int)),
        decreases children.len() - i,
    {
        proof {
            assert(decreases_to!(*children => children@));
            assert(decreases_to!(children@ => children@[i as int]));
        }
        visit(&children[i], found);
        assert(children@.take(i + 1).drop_last() =~= children@.take(i as int));
        i = i + 1;
    }
    assert(children@.take(children@.len() as int) =~= children@);
}

/// The addresses a written value holds, in depth-first order; a deletion
/// (no value) holds none.
pub fn find_all_address_occur(value: Option<&ValueShape>) -> (r: Vec<u128>)
    ensures
        r@ == match value {
            Some(v) => addresses_in(*v),
            None => Seq::empty(),
        },
{
    let mut found: Vec<u128> = Vec::new();
    if let Some(v) = value {
        visit(v, &mut found);
    }
    found
}

/// The addresses a write to a table entry leaves there, given `decoded`,
/// what the written bytes decode to under the entry's type (`None` where
/// they do not decode). A deletion leaves none; a value that does not
/// decode is refused with `FAILED_TO_SERIALIZE_WRITE_SET_CHANGES`; a decoded
/// value holds the addresses found in it, in depth-first order.
pub fn addresses_in_write(op: &Op<Vec<u8>>, decoded: Option<&ValueShape>) -> (r: Result<
    Vec<u128>,
    VMError,
>)
    ensures
        op is Delete ==> (r matches Ok(found) && found@.len() == 0),
        !(op is Delete) ==> match decoded {
            Some(v) => r matches Ok(found) && found@ == addresses_in(*v),
            None => r matches Err(e) && e.major_status == FAILED_TO_SERIALIZE_WRITE_SET_CHANGES
                && e.message is None,
        },
{
    match op {
        Op::Delete => Ok(Vec::new()),
        _ => match decoded {
            Some(v) => Ok(find_all_address_occur(Some(v))),
            None => Err(VMError::new(FAILED_TO_SERIALIZE_WRITE_SET_CHANGES)),
        },
    }
}

} // verus!
