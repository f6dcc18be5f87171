//! The writes that buffered table metadata turns into: a slot is set to a
//! value or deleted, and a value is written as its BCS bytes.

use crate::bcs_format::{
    be_bytes_u128, bcs_decode_address, bcs_decode_usize, bcs_encode_address, bcs_encode_usize,
    is_usize_bytes, le_bytes_u64, lemma_be_bytes_u128_injective, lemma_le_bytes_u64_injective,
};
use crate::vm_status::{VMError, FAILED_TO_SERIALIZE_WRITE_SET_CHANGES};
use vstd::prelude::*;

verus! {

/// A write to storage: create, overwrite or delete.
#[derive(Debug)]
pub enum Op<T> {
    New(T),
    Modify(T),
    Delete,
}

/// A cached metadata value.
#[derive(Debug, Clone, Copy)]
pub enum WriteCacheValue {
    Owner(u128),
    Size(usize),
}

/// A cached metadata slot: set to a value, or deleted, by the current transaction.
#[derive(Debug, Clone, Copy)]
pub enum WriteCache {
    /// A resource resides in this slot and will be write into storage.
    Updated(WriteCacheValue),
    /// A resource used to exist in storage but has been deleted by the current transaction.
    Deleted,
}

/// The owner a cached owner slot holds.
pub open spec fn cached_owner(c: WriteCache) -> Option<u128> {
    match c {
        WriteCache::Updated(WriteCacheValue::Owner(o)) => Some(o),
        _ => None,
    }
}

/// The size a cached size slot holds.
pub open spec fn cached_size(c: WriteCache) -> Option<usize> {
    match c {
        WriteCache::Updated(WriteCacheValue::Size(s)) => Some(s),
        _ => None,
    }
}

impl WriteCache {
    /// The cached size; a slot that holds an owner has none to give.
    pub fn get_size(&self) -> (r: Option<usize>)
        requires
            !(*self matches WriteCache::Updated(WriteCacheValue::Owner(_))),
        ensures
            r == cached_size(*self),
    {
        match self {
            WriteCache::Updated(WriteCacheValue::Size(size)) => Some(*size),
            WriteCache::Updated(WriteCacheValue::Owner(_)) => None,
            WriteCache::Deleted => None,
        }
    }

    /// The cached owner; a slot that holds a size has none to give.
    pub fn get_owner(&self) -> (r: Option<u128>)
        requires
            !(*self matches WriteCache::Updated(WriteCacheValue::Size(_))),
        ensures
            r == cached_owner(*self),
    {
        match self {
            WriteCache::Updated(WriteCacheValue::Owner(owner)) => Some(*owner),
            WriteCache::Updated(WriteCacheValue::Size(_)) => None,
            WriteCache::Deleted => None,
        }
    }

    /// The storage write this slot stands for.
    pub fn into_effect(self) -> (r: Option<Op<WriteCacheValue>>)
        ensures
            r == Some(slot_effect(self)),
    {
        match self {
            WriteCache::Deleted => Some(Op::Delete),
            WriteCache::Updated(val) => Some(Op::Modify(val)),
        }
    }
}

/// The storage write a slot stands for: a modification to its value, or a deletion.
pub open spec fn slot_effect(c: WriteCache) -> Op<WriteCacheValue> {
    match c {
        WriteCache::Updated(v) => Op::Modify(v),
        WriteCache::Deleted => Op::Delete,
    }
}

/// The BCS bytes of a metadata value: 16 address bytes, or 8 size bytes.
pub open spec fn value_bytes(v: WriteCacheValue) -> Seq<u8> {
    match v {
        WriteCacheValue::Owner(o) => be_bytes_u128(o),
        WriteCacheValue::Size(s) => le_bytes_u64(s as u64),
    }
}

impl WriteCacheValue {
    /// The BCS bytes of the value.
    pub fn serialize(self) -> (r: Option<Vec<u8>>)
        ensures
            r matches Some(bytes) && bytes@ == value_bytes(self),
    {
        match self {
            WriteCacheValue::Owner(owner) => serialize_owner(owner),
            WriteCacheValue::Size(size) => serialize_size(size),
        }
    }
}

fn serialize_owner(owner: u128) -> (r: Option<Vec<u8>>)
    ensures
        r matches Some(bytes) && bytes@ == be_bytes_u128(owner),
{
    bcs_encode_address(owner)
}

fn serialize_size(size: usize) -> (r: Option<Vec<u8>>)
    ensures
        r matches Some(bytes) && bytes@ == le_bytes_u64(size as u64),
{
    bcs_encode_usize(size)
}

/// The owner stored as `blob`, if `blob` is a valid encoding of one.
pub open spec fn decoded_owner(blob: Seq<u8>) -> Option<u128> {
    if blob.len() == 16 {
        Some(choose|a: u128| #[trigger] be_bytes_u128(a) == blob)
    } else {
        None
    }
}

/// The size stored as `blob`, if `blob` is a valid encoding of one.
pub open spec fn decoded_size(blob: Seq<u8>) -> Option<usize> {
    if is_usize_bytes(blob) {
        Some(choose|n: usize| #[trigger] le_bytes_u64(n as u64) == blob)
    } else {
        None
    }
}

pub fn deserialize_owner(blob: &[u8]) -> (r: Option<u128>)
    ensures
        r == decoded_owner(blob@),
{
    let r = bcs_decode_address(blob);
    proof {
        if let Some(a) = r {
            let c = choose|x: u128| #[trigger] be_bytes_u128(x) == blob@;
            lemma_be_bytes_u128_injective(a, c);
        }
    }
    r
}

pub fn deserialize_size(blob: &[u8]) -> (r: Option<usize>)
    ensures
        r == decoded_size(blob@),
{
    let r = bcs_decode_usize(blob);
    proof {
        if let Some(n) = r {
            let c = choose|x: usize| #[trigger] le_bytes_u64(x as u64) == blob@;
            lemma_le_bytes_u64_injective(n as u64, c as u64);
        }
    }
    r
}

/// The bytes written for a metadata value as a storage operation.
pub open spec fn serialized_op(op: Op<WriteCacheValue>) -> Op<Seq<u8>> {
    match op {
        Op::New(v) => Op::New(value_bytes(v)),
        Op::Modify(v) => Op::Modify(value_bytes(v)),
        Op::Delete => Op::Delete,
    }
}

/// The plain content of a write of bytes.
pub open spec fn op_view(op: Op<Vec<u8>>) -> Op<Seq<u8>> {
    match op {
        Op::New(v) => Op::New(v@),
        Op::Modify(v) => Op::Modify(v@),
        Op::Delete => Op::Delete,
    }
}

pub fn serialize_or_error(v: WriteCacheValue) -> (r: Result<Vec<u8>, VMError>)
    ensures
        r matches Ok(bytes) && bytes@ == value_bytes(v),
{
    match v.serialize() {
        Some(d) => Ok(d),
        None => Err(VMError::new(FAILED_TO_SERIALIZE_WRITE_SET_CHANGES)),
    }
}

/// Serializes the value a metadata write carries.
pub fn serialize_op(op: Op<WriteCacheValue>) -> (r: Result<Op<Vec<u8>>, VMError>)
    ensures
        r matches Ok(o) && op_view(o) == serialized_op(op),
{
    match op {
        Op::New(v) => Ok(Op::New(serialize_or_error(v)?)),
        Op::Modify(v) => Ok(Op::Modify(serialize_or_error(v)?)),
        Op::Delete => Ok(Op::Delete),
    }
}

} // verus!
