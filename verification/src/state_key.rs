//! Keys of the physical state store and their byte encoding: a one-byte tag
//! followed by the key body.

use crate::bcs_format::{
    access_path_bytes, bcs_decode_access_path, bcs_encode_access_path,
    lemma_access_path_bytes_injective, MAX_SEQUENCE_LENGTH,
};
use vstd::prelude::*;

verus! {

/// The location of a value in global storage: the 16-byte account address
/// (as a big-endian integer) and the path below it.
#[derive(Debug)]
pub struct AccessPath {
    pub address: u128,
    pub path: Vec<u8>,
}

impl AccessPath {
    /// The address and the path's bytes.
    pub open spec fn view(&self) -> (u128, Seq<u8>) {
        (self.address, self.path@)
    }

    pub fn new(address: u128, path: Vec<u8>) -> (r: AccessPath)
        ensures
            r@ == (address, path@),
    {
        AccessPath { address, path }
    }

    /// Whether `self` and `other` name the same location.
    pub fn same(&self, other: &AccessPath) -> (r: bool)
        ensures
            r == (self@ == other@),
    {
        if self.address != other.address || self.path.len() != other.path.len() {
            return false;
        }
        let mut i: usize = 0;
        while i < self.path.len()
            invariant
                self.path@.len() == other.path@.len(),
                i <= self.path@.len(),
                forall|j: int| 0 <= j < i ==> self.path@[j] == other.path@[j],
            decreases self.path.len() - i,
        {
            if self.path[i] != other.path[i] {
                return false;
            }
            i = i + 1;
        }
        assert(self.path@ =~= other.path@);
        true
    }
}

impl Clone for AccessPath {
    fn clone(&self) -> (r: AccessPath)
        ensures
            r@ == self@,
    {
        AccessPath { address: self.address, path: self.path.clone() }
    }
}

/// A key of the physical state store.
#[derive(Debug)]
pub enum StateKey {
    AccessPath(AccessPath),
    /// Only used for testing
    Raw(Vec<u8>),
}

/// The leading byte of an encoded `StateKey`.
#[derive(Debug)]
pub enum StateKeyTag {
    AccessPath,
    Raw,
}

/// Why bytes could not be read back as a `StateKey`.
#[derive(Debug)]
pub enum StateKeyDecodeErr {
    /// Input is empty.
    EmptyInput,
    /// The first byte of the input is not a known tag representing one of the variants.
    UnknownTag { unknown_tag: u8 },
    NotEnoughBytes { tag: u8, num_bytes: usize },
    BcsError(bcs::Error),
}

/// The byte that stands for a tag.
pub open spec fn tag_byte(tag: StateKeyTag) -> u8 {
    match tag {
        StateKeyTag::AccessPath => 0,
        StateKeyTag::Raw => 255,
    }
}

impl StateKeyTag {
    /// The tag's byte: 0 for an access path, 255 for a raw key.
    pub fn to_u8(&self) -> (b: u8)
        ensures
            b == tag_byte(*self),
    {
        match self {
            StateKeyTag::AccessPath => 0,
            StateKeyTag::Raw => 255,
        }
    }

    /// The tag a byte stands for, if any.
    pub fn from_u8(b: u8) -> (t: Option<StateKeyTag>)
        ensures
            t matches Some(tag) ==> tag_byte(tag) == b,
            t is None <==> (b != 0 && b != 255),
    {
        if b == 0 {
            Some(StateKeyTag::AccessPath)
        } else if b == 255 {
            Some(StateKeyTag::Raw)
        } else {
            None
        }
    }
}

/// Distinct tags have distinct bytes: reading back a tag's byte gives the tag.
pub proof fn lemma_tag_byte_injective(t: StateKeyTag, u: StateKeyTag)
    requires
        tag_byte(t) == tag_byte(u),
    ensures
        t == u,
{
}

/// The plain content of a state key.
pub enum StateKeyView {
    AccessPath { address: u128, path: Seq<u8> },
    Raw(Seq<u8>),
}

impl StateKey {
    pub open spec fn view(&self) -> StateKeyView {
        match self {
            StateKey::AccessPath(ap) => StateKeyView::AccessPath {
                address: ap.address,
                path: ap.path@,
            },
            StateKey::Raw(bytes) => StateKeyView::Raw(bytes@),
        }
    }
}

/// The bytes a state key is stored under: the tag byte, then the BCS of the
/// access path or the raw bytes as they are.
pub open spec fn encoded_state_key(k: StateKeyView) -> Seq<u8> {
    match k {
        StateKeyView::AccessPath { address, path } => seq![0u8] + access_path_bytes(
            address,
            path,
        ),
        StateKeyView::Raw(bytes) => seq![255u8] + bytes,
    }
}

/// Whether `k` can be encoded (BCS limits the path length).
pub open spec fn encodable(k: StateKeyView) -> bool {
    match k {
        StateKeyView::AccessPath { path, .. } => path.len() <= MAX_SEQUENCE_LENGTH,
        StateKeyView::Raw(_) => true,
    }
}

impl StateKey {
    /// Serializes to bytes for physical storage.
    pub fn encode(&self) -> (res: Result<Vec<u8>, bcs::Error>)
        ensures
            res is Ok <==> encodable(self.view()),
            res matches Ok(bytes) ==> bytes@ == encoded_state_key(self.view()),
    {
        let mut out: Vec<u8> = Vec::new();
        match self {
            StateKey::AccessPath(access_path) => {
                out.push(StateKeyTag::AccessPath.to_u8());
                let raw_key = bcs_encode_access_path(access_path.address, &access_path.path)?;
                let mut raw_key = raw_key;
                out.append(&mut raw_key);
            },
            StateKey::Raw(raw_bytes) => {
                out.push(StateKeyTag::Raw.to_u8());
                let mut i: usize = 0;
                while i < raw_bytes.len()
                    invariant
                        i <= raw_bytes.len(),
                        out@ == seq![255u8] + raw_bytes@.subrange(0, i as int),
                    decreases raw_bytes.len() - i,
                {
                    out.push(raw_bytes[i]);
                    i = i + 1;
                }
                assert(raw_bytes@.subrange(0, raw_bytes@.len() as int) =~= raw_bytes@);
            },
        }
        assert(out@ =~= encoded_state_key(self.view()));
        Ok(out)
    }

    /// Recovers from serialized bytes in physical storage.
    pub fn decode(val: &[u8]) -> (res: Result<StateKey, StateKeyDecodeErr>)
        ensures
            val@.len() == 0 <==> res matches Err(StateKeyDecodeErr::EmptyInput),
            val@.len() > 0 && val@[0] != 0 && val@[0] != 255 <==> res matches Err(
                StateKeyDecodeErr::UnknownTag { unknown_tag },
            ),
            res matches Err(StateKeyDecodeErr::UnknownTag { unknown_tag }) ==> unknown_tag
                == val@[0],
            !(res matches Err(StateKeyDecodeErr::NotEnoughBytes { .. })),
            res matches Ok(k) <==> exists|v: StateKeyView|
                encodable(v) && #[trigger] encoded_state_key(v) == val@,
            res matches Ok(k) ==> encodable(k.view()) && encoded_state_key(k.view()) == val@,
    {
        if val.len() == 0 {
            return Err(StateKeyDecodeErr::EmptyInput);
        }
        let tag = val[0];
        let state_key_tag = match StateKeyTag::from_u8(tag) {
            Some(t) => t,
            None => {
                proof {
                    assert forall|v: StateKeyView| encodable(v) implies #[trigger] encoded_state_key(v) != val@ by {
                        assert(encoded_state_key(v)[0] == 0 || encoded_state_key(v)[0] == 255);
                    }
                }
                return Err(StateKeyDecodeErr::UnknownTag { unknown_tag: tag });
            },
        };
        let rest = slice_tail(val);
        match state_key_tag {
            StateKeyTag::AccessPath => {
                match bcs_decode_access_path(rest) {
                    Ok((address, path)) => {
                        let k = StateKey::AccessPath(AccessPath { address, path });
                        assert(encoded_state_key(k.view()) =~= val@);
                        Ok(k)
                    },
                    Err(e) => {
                        proof {
                            assert forall|v: StateKeyView| encodable(v) implies #[trigger] encoded_state_key(v) != val@ by {
                                if encoded_state_key(v) == val@ {
                                    match v {
                                        StateKeyView::AccessPath { address, path } => {
                                            assert(access_path_bytes(address, path) =~= rest@);
                                            assert(crate::bcs_format::is_access_path_bytes(rest@));
                                        },
                                        StateKeyView::Raw(bytes) => {
                                            assert(encoded_state_key(v)[0] == 255);
                                        },
                                    }
                                }
                            }
                        }
                        Err(StateKeyDecodeErr::BcsError(e))
                    },
                }
            },
            StateKeyTag::Raw => {
                let k = StateKey::Raw(slice_to_vec(rest));
                assert(encoded_state_key(k.view()) =~= val@);
                Ok(k)
            },
        }
    }
}

/// All bytes of a non-empty slice but the first.
fn slice_tail(val: &[u8]) -> (r: &[u8])
    requires
        val@.len() > 0,
    ensures
        r@ == val@.subrange(1, val@.len() as int),
{
    let (_, tail) = val.split_at(1);
    tail
}

/// A copy of the slice's bytes.
fn slice_to_vec(val: &[u8]) -> (r: Vec<u8>)
    ensures
        r@ == val@,
{
    let mut out: Vec<u8> = Vec::new();
    let mut i: usize = 0;
    while i < val.len()
        invariant
            i <= val@.len(),
            out@ == val@.subrange(0, i as int),
        decreases val@.len() - i,
    {
        out.push(val[i]);
        i = i + 1;
    }
    assert(val@.subrange(0, val@.len() as int) =~= val@);
    out
}

/// Two encodable keys with the same encoding are the same key, so decoding
/// the encoding of a key gives that key back.
pub proof fn lemma_state_key_round_trip(k: StateKeyView, v: StateKeyView)
    requires
        encodable(k),
        encodable(v),
        encoded_state_key(v) == encoded_state_key(k),
    ensures
        v == k,
{
    let e = encoded_state_key(k);
    match (k, v) {
        (
            StateKeyView::AccessPath { address: a, path: p },
            StateKeyView::AccessPath { address: b, path: q },
        ) => {
            assert(e.subrange(1, e.len() as int) =~= access_path_bytes(a, p));
            assert(encoded_state_key(v).subrange(1, e.len() as int) =~= access_path_bytes(b, q));
            lemma_access_path_bytes_injective(a, p, b, q);
        },
        (StateKeyView::Raw(x), StateKeyView::Raw(y)) => {
            assert(e.subrange(1, e.len() as int) =~= x);
            assert(encoded_state_key(v).subrange(1, e.len() as int) =~= y);
        },
        (StateKeyView::AccessPath { .. }, StateKeyView::Raw(_)) => {
            assert(e[0] == 0);
            assert(encoded_state_key(v)[0] == 255);
        },
        (StateKeyView::Raw(_), StateKeyView::AccessPath { .. }) => {
            assert(e[0] == 255);
            assert(encoded_state_key(v)[0] == 0);
        },
    }
}

} // verus!
