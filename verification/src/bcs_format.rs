//! The BCS byte layouts this library writes and reads, stated as spec
//! functions, and the calls into the `bcs` crate that produce and parse them.

use vstd::prelude::*;

verus! {

/// The longest variable-length sequence BCS accepts (`bcs::MAX_SEQUENCE_LENGTH`).
pub const MAX_SEQUENCE_LENGTH: usize = 2147483647;

/// The 16 bytes of `a`, most significant first (the layout of a 16-byte
/// account address held as a big-endian integer).
pub open spec fn be_bytes_u128(a: u128) -> Seq<u8> {
    Seq::new(16, |i: int| ((a >> ((120 - 8 * i) as u128)) & 0xff) as u8)
}

/// The 8 bytes of `n`, least significant first (BCS layout of `u64` and `usize`).
pub open spec fn le_bytes_u64(n: u64) -> Seq<u8> {
    Seq::new(8, |i: int| ((n >> ((8 * i) as u64)) & 0xff) as u8)
}

/// ULEB128: little-endian base-128 digits, the high bit set on every digit
/// but the last.
pub open spec fn uleb128(n: nat) -> Seq<u8>
    decreases n,
{
    if n < 128 {
        seq![n as u8]
    } else {
        seq![((n % 128) + 128) as u8] + uleb128(n / 128)
    }
}

/// BCS of the pair (16-byte address, byte vector): the address bytes, the
/// ULEB128 length of the vector, then its bytes.
pub open spec fn access_path_bytes(address: u128, path: Seq<u8>) -> Seq<u8> {
    be_bytes_u128(address) + uleb128(path.len()) + path
}

/// Whether `bytes` is the BCS encoding of some (address, byte vector) pair.
pub open spec fn is_access_path_bytes(bytes: Seq<u8>) -> bool {
    exists|a: u128, p: Seq<u8>|
        p.len() <= MAX_SEQUENCE_LENGTH && #[trigger] access_path_bytes(a, p) == bytes
}

#[verifier::external_type_specification]
#[verifier::external_body]
pub struct ExBcsError(bcs::Error);

/// `bcs::to_bytes` on the pair (`address` as 16 big-endian bytes, `path`).
/// Claimed, as the bcs documentation describes the format: it fails exactly
/// when `path` is longer than `MAX_SEQUENCE_LENGTH`, and otherwise yields the
/// address bytes, the ULEB128 length and the path bytes.
#[verifier::external_body]
pub(crate) fn bcs_encode_access_path(address: u128, path: &Vec<u8>) -> (res: Result<
    Vec<u8>,
    bcs::Error,
>)
    ensures
        res is Ok <==> path@.len() <= MAX_SEQUENCE_LENGTH,
        res matches Ok(bytes) ==> bytes@ == access_path_bytes(address, path@),
{
    bcs::to_bytes(&(address.to_be_bytes(), path))
}

/// `bcs::from_bytes` into the pair (`[u8; 16]`, `Vec<u8>`), the address read
/// back as a big-endian integer. Claimed, as the bcs source shows (canonical
/// ULEB128 only, no input left over, length at most `MAX_SEQUENCE_LENGTH`):
/// it succeeds exactly on the encodings of such pairs, and then returns the
/// pair that was encoded.
#[verifier::external_body]
pub(crate) fn bcs_decode_access_path(bytes: &[u8]) -> (res: Result<(u128, Vec<u8>), bcs::Error>)
    ensures
        res is Ok <==> is_access_path_bytes(bytes@),
        res matches Ok(pair) ==> pair.1@.len() <= MAX_SEQUENCE_LENGTH && access_path_bytes(
            pair.0,
            pair.1@,
        ) == bytes@,
{
    match bcs::from_bytes::<([u8; 16], Vec<u8>)>(bytes) {
        Ok((address, path)) => Ok((u128::from_be_bytes(address), path)),
        Err(e) => Err(e),
    }
}


/// Whether `bytes` is the BCS encoding of some `usize` (a `u64`, 8 bytes
/// little-endian).
pub open spec fn is_usize_bytes(bytes: Seq<u8>) -> bool {
    exists|n: usize| #[trigger] le_bytes_u64(n as u64) == bytes
}

/// `bcs::to_bytes` on a 16-byte address (given as a big-endian integer).
/// Claimed: a fixed-size byte array always serializes, to its 16 bytes in order.
#[verifier::external_body]
pub(crate) fn bcs_encode_address(address: u128) -> (res: Option<Vec<u8>>)
    ensures
        res is Some,
        res matches Some(bytes) ==> bytes@ == be_bytes_u128(address),
{
    bcs::to_bytes(&address.to_be_bytes()).ok()
}

/// `bcs::from_bytes` into a 16-byte address (read back as a big-endian
/// integer). Claimed: it succeeds exactly on 16-byte inputs, which it returns
/// as they are.
#[verifier::external_body]
pub(crate) fn bcs_decode_address(bytes: &[u8]) -> (res: Option<u128>)
    ensures
        res is Some <==> bytes@.len() == 16,
        res matches Some(a) ==> be_bytes_u128(a) == bytes@,
{
    match bcs::from_bytes::<[u8; 16]>(bytes) {
        Ok(a) => Some(u128::from_be_bytes(a)),
        Err(_) => None,
    }
}

/// `bcs::to_bytes` on a `usize`. Claimed: BCS writes it as a `u64`, 8 bytes
/// little-endian, and never fails.
#[verifier::external_body]
pub(crate) fn bcs_encode_usize(n: usize) -> (res: Option<Vec<u8>>)
    ensures
        res is Some,
        res matches Some(bytes) ==> bytes@ == le_bytes_u64(n as u64),
{
    bcs::to_bytes(&n).ok()
}

/// `bcs::from_bytes` into a `usize`. Claimed: it reads a `u64` from exactly
/// 8 little-endian bytes and succeeds exactly when that value fits a `usize`.
#[verifier::external_body]
pub(crate) fn bcs_decode_usize(bytes: &[u8]) -> (res: Option<usize>)
    ensures
        res is Some <==> is_usize_bytes(bytes@),
        res matches Some(n) ==> le_bytes_u64(n as u64) == bytes@,
{
    bcs::from_bytes::<usize>(bytes).ok()
}

/// Eight little-endian bytes determine the number.
pub proof fn lemma_le_bytes_u64_injective(a: u64, b: u64)
    requires
        le_bytes_u64(a) == le_bytes_u64(b),
    ensures
        a == b,
{
    let sa = le_bytes_u64(a);
    let sb = le_bytes_u64(b);
    assert(sa[0] == sb[0]);
    assert(sa[1] == sb[1]);
    assert(sa[2] == sb[2]);
    assert(sa[3] == sb[3]);
    assert(sa[4] == sb[4]);
    assert(sa[5] == sb[5]);
    assert(sa[6] == sb[6]);
    assert(sa[7] == sb[7]);
    assert(a == b) by (bit_vector)
        requires
            ((a >> 0u64) & 0xff) as u8 == ((b >> 0u64) & 0xff) as u8,
            ((a >> 8u64) & 0xff) as u8 == ((b >> 8u64) & 0xff) as u8,
            ((a >> 16u64) & 0xff) as u8 == ((b >> 16u64) & 0xff) as u8,
            ((a >> 24u64) & 0xff) as u8 == ((b >> 24u64) & 0xff) as u8,
            ((a >> 32u64) & 0xff) as u8 == ((b >> 32u64) & 0xff) as u8,
            ((a >> 40u64) & 0xff) as u8 == ((b >> 40u64) & 0xff) as u8,
            ((a >> 48u64) & 0xff) as u8 == ((b >> 48u64) & 0xff) as u8,
            ((a >> 56u64) & 0xff) as u8 == ((b >> 56u64) & 0xff) as u8,
    ;
}

/// Every 16 bytes are the big-endian bytes of some address.
pub proof fn lemma_be_bytes_u128_onto(bytes: Seq<u8>)
    requires
        bytes.len() == 16,
    ensures
        exists|a: u128| #[trigger] be_bytes_u128(a) == bytes,
{
    let b0: u8 = bytes[0];
    let b1: u8 = bytes[1];
    let b2: u8 = bytes[2];
    let b3: u8 = bytes[3];
    let b4: u8 = bytes[4];
    let b5: u8 = bytes[5];
    let b6: u8 = bytes[6];
    let b7: u8 = bytes[7];
    let b8: u8 = bytes[8];
    let b9: u8 = bytes[9];
    let b10: u8 = bytes[10];
    let b11: u8 = bytes[11];
    let b12: u8 = bytes[12];
    let b13: u8 = bytes[13];
    let b14: u8 = bytes[14];
    let b15: u8 = bytes[15];
    let a: u128 = ((b0 as u128) << 120u128) | ((b1 as u128) << 112u128) | ((b2 as u128) << 104u128) | ((b3 as u128) << 96u128) | ((b4 as u128) << 88u128) | ((b5 as u128) << 80u128) | ((b6 as u128) << 72u128) | ((b7 as u128) << 64u128) | ((b8 as u128) << 56u128) | ((b9 as u128) << 48u128) | ((b10 as u128) << 40u128) | ((b11 as u128) << 32u128) | ((b12 as u128) << 24u128) | ((b13 as u128) << 16u128) | ((b14 as u128) << 8u128) | (b15 as u128);
    assert(((a >> 120u128) & 0xff) as u8 == b0 && ((a >> 112u128) & 0xff) as u8 == b1 && ((a >> 104u128) & 0xff) as u8 == b2 && ((a >> 96u128) & 0xff) as u8 == b3 && ((a >> 88u128) & 0xff) as u8 == b4 && ((a >> 80u128) & 0xff) as u8 == b5 && ((a >> 72u128) & 0xff) as u8 == b6 && ((a >> 64u128) & 0xff) as u8 == b7 && ((a >> 56u128) & 0xff) as u8 == b8 && ((a >> 48u128) & 0xff) as u8 == b9 && ((a >> 40u128) & 0xff) as u8 == b10 && ((a >> 32u128) & 0xff) as u8 == b11 && ((a >> 24u128) & 0xff) as u8 == b12 && ((a >> 16u128) & 0xff) as u8 == b13 && ((a >> 8u128) & 0xff) as u8 == b14 && ((a >> 0u128) & 0xff) as u8 == b15) by (bit_vector)
        requires
            a == ((b0 as u128) << 120u128) | ((b1 as u128) << 112u128) | ((b2 as u128) << 104u128) | ((b3 as u128) << 96u128) | ((b4 as u128) << 88u128) | ((b5 as u128) << 80u128) | ((b6 as u128) << 72u128) | ((b7 as u128) << 64u128) | ((b8 as u128) << 56u128) | ((b9 as u128) << 48u128) | ((b10 as u128) << 40u128) | ((b11 as u128) << 32u128) | ((b12 as u128) << 24u128) | ((b13 as u128) << 16u128) | ((b14 as u128) << 8u128) | (b15 as u128),
    ;
    assert(be_bytes_u128(a)[0] == b0);
    assert(be_bytes_u128(a)[1] == b1);
    assert(be_bytes_u128(a)[2] == b2);
    assert(be_bytes_u128(a)[3] == b3);
    assert(be_bytes_u128(a)[4] == b4);
    assert(be_bytes_u128(a)[5] == b5);
    assert(be_bytes_u128(a)[6] == b6);
    assert(be_bytes_u128(a)[7] == b7);
    assert(be_bytes_u128(a)[8] == b8);
    assert(be_bytes_u128(a)[9] == b9);
    assert(be_bytes_u128(a)[10] == b10);
    assert(be_bytes_u128(a)[11] == b11);
    assert(be_bytes_u128(a)[12] == b12);
    assert(be_bytes_u128(a)[13] == b13);
    assert(be_bytes_u128(a)[14] == b14);
    assert(be_bytes_u128(a)[15] == b15);
    assert(be_bytes_u128(a) =~= bytes);
}

/// The first 16 bytes of a big-endian address determine it.
pub proof fn lemma_be_bytes_u128_injective(a: u128, b: u128)
    requires
        be_bytes_u128(a) == be_bytes_u128(b),
    ensures
        a == b,
{
    let sa = be_bytes_u128(a);
    let sb = be_bytes_u128(b);
    assert(sa[0] == sb[0]);
    assert(sa[1] == sb[1]);
    assert(sa[2] == sb[2]);
    assert(sa[3] == sb[3]);
    assert(sa[4] == sb[4]);
    assert(sa[5] == sb[5]);
    assert(sa[6] == sb[6]);
    assert(sa[7] == sb[7]);
    assert(sa[8] == sb[8]);
    assert(sa[9] == sb[9]);
    assert(sa[10] == sb[10]);
    assert(sa[11] == sb[11]);
    assert(sa[12] == sb[12]);
    assert(sa[13] == sb[13]);
    assert(sa[14] == sb[14]);
    assert(sa[15] == sb[15]);
    assert(a == b) by (bit_vector)
        requires
            ((a >> 120u128) & 0xff) as u8 == ((b >> 120u128) & 0xff) as u8,
            ((a >> 112u128) & 0xff) as u8 == ((b >> 112u128) & 0xff) as u8,
            ((a >> 104u128) & 0xff) as u8 == ((b >> 104u128) & 0xff) as u8,
            ((a >> 96u128) & 0xff) as u8 == ((b >> 96u128) & 0xff) as u8,
            ((a >> 88u128) & 0xff) as u8 == ((b >> 88u128) & 0xff) as u8,
            ((a >> 80u128) & 0xff) as u8 == ((b >> 80u128) & 0xff) as u8,
            ((a >> 72u128) & 0xff) as u8 == ((b >> 72u128) & 0xff) as u8,
            ((a >> 64u128) & 0xff) as u8 == ((b >> 64u128) & 0xff) as u8,
            ((a >> 56u128) & 0xff) as u8 == ((b >> 56u128) & 0xff) as u8,
            ((a >> 48u128) & 0xff) as u8 == ((b >> 48u128) & 0xff) as u8,
            ((a >> 40u128) & 0xff) as u8 == ((b >> 40u128) & 0xff) as u8,
            ((a >> 32u128) & 0xff) as u8 == ((b >> 32u128) & 0xff) as u8,
            ((a >> 24u128) & 0xff) as u8 == ((b >> 24u128) & 0xff) as u8,
            ((a >> 16u128) & 0xff) as u8 == ((b >> 16u128) & 0xff) as u8,
            ((a >> 8u128) & 0xff) as u8 == ((b >> 8u128) & 0xff) as u8,
            ((a >> 0u128) & 0xff) as u8 == ((b >> 0u128) & 0xff) as u8,
    ;
}

/// A ULEB128 encoding is never a proper prefix of another: if two encodings
/// followed by anything agree, the encoded numbers agree and so do the rests.
pub proof fn lemma_uleb128_prefix_free(n: nat, m: nat, r: Seq<u8>, s: Seq<u8>)
    requires
        uleb128(n) + r == uleb128(m) + s,
    ensures
        n == m,
        r == s,
    decreases n,
{
    let x = uleb128(n) + r;
    let y = uleb128(m) + s;
    assert(x[0] == y[0]);
    if n < 128 {
        if m >= 128 {
            assert(y[0] == ((m % 128) + 128) as u8);
            assert(false);
        }
        assert(x.subrange(1, x.len() as int) =~= r);
        assert(y.subrange(1, y.len() as int) =~= s);
    } else {
        if m < 128 {
            assert(x[0] == ((n % 128) + 128) as u8);
            assert(false);
        }
        assert(x.subrange(1, x.len() as int) =~= uleb128(n / 128) + r);
        assert(y.subrange(1, y.len() as int) =~= uleb128(m / 128) + s);
        lemma_uleb128_prefix_free(n / 128, m / 128, r, s);
        assert(n % 128 == m % 128);
    }
}

/// Distinct (address, byte vector) pairs have distinct encodings.
pub proof fn lemma_access_path_bytes_injective(a: u128, p: Seq<u8>, b: u128, q: Seq<u8>)
    requires
        access_path_bytes(a, p) == access_path_bytes(b, q),
    ensures
        a == b,
        p == q,
{
    let x = access_path_bytes(a, p);
    let y = access_path_bytes(b, q);
    assert(x.subrange(0, 16) =~= be_bytes_u128(a));
    assert(y.subrange(0, 16) =~= be_bytes_u128(b));
    lemma_be_bytes_u128_injective(a, b);
    assert(x.subrange(16, x.len() as int) =~= uleb128(p.len()) + p);
    assert(y.subrange(16, y.len() as int) =~= uleb128(q.len()) + q);
    lemma_uleb128_prefix_free(p.len(), q.len(), p, q);
}

} // verus!
