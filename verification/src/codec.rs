//! Big-endian encoding of `u64` keys and values as 8-byte strings.
//!
//! Both backends store keys and values in this encoding, so that the two
//! are workload-equivalent byte for byte.

use vstd::prelude::*;
use crate::error::StoreError;

verus! {

/// Byte `i` (0 = most significant) of the big-endian encoding of `v`.
pub open spec fn be_byte(v: u64, i: int) -> u8 {
    ((v >> (((7 - i) * 8) as u64)) & 0xff) as u8
}

/// The 8-byte big-endian encoding of `v`.
pub open spec fn be_bytes(v: u64) -> Seq<u8> {
    Seq::new(8, |i: int| be_byte(v, i))
}

/// The `u64` read back from an 8-byte big-endian string.
pub open spec fn u64_of_be(s: Seq<u8>) -> u64 {
    ((s[0] as u64) << 56u64) | ((s[1] as u64) << 48u64) | ((s[2] as u64) << 40u64)
        | ((s[3] as u64) << 32u64) | ((s[4] as u64) << 24u64) | ((s[5] as u64) << 16u64)
        | ((s[6] as u64) << 8u64) | (s[7] as u64)
}

/// Decoding inverts encoding: the 8 bytes of `v` read back as `v`.
pub proof fn lemma_be_round_trip(v: u64)
    ensures
        u64_of_be(be_bytes(v)) == v,
{
    assert(((((v >> 56u64) & 0xff) as u8 as u64) << 56u64)
        | ((((v >> 48u64) & 0xff) as u8 as u64) << 48u64)
        | ((((v >> 40u64) & 0xff) as u8 as u64) << 40u64)
        | ((((v >> 32u64) & 0xff) as u8 as u64) << 32u64)
        | ((((v >> 24u64) & 0xff) as u8 as u64) << 24u64)
        | ((((v >> 16u64) & 0xff) as u8 as u64) << 16u64)
        | ((((v >> 8u64) & 0xff) as u8 as u64) << 8u64)
        | (((v >> 0u64) & 0xff) as u8 as u64) == v) by (bit_vector);
}

/// Encoding inverts decoding: any 8-byte string is the encoding of the
/// `u64` it reads back as.
pub proof fn lemma_be_bytes_of_u64_of_be(s: Seq<u8>)
    requires
        s.len() == 8,
    ensures
        be_bytes(u64_of_be(s)) == s,
{
    let b0 = s[0];
    let b1 = s[1];
    let b2 = s[2];
    let b3 = s[3];
    let b4 = s[4];
    let b5 = s[5];
    let b6 = s[6];
    let b7 = s[7];
    let v = u64_of_be(s);
    assert(v == ((b0 as u64) << 56u64) | ((b1 as u64) << 48u64) | ((b2 as u64) << 40u64)
        | ((b3 as u64) << 32u64) | ((b4 as u64) << 24u64) | ((b5 as u64) << 16u64)
        | ((b6 as u64) << 8u64) | (b7 as u64));
    assert(((v >> 56u64) & 0xff) as u8 == b0 && ((v >> 48u64) & 0xff) as u8 == b1
        && ((v >> 40u64) & 0xff) as u8 == b2 && ((v >> 32u64) & 0xff) as u8 == b3
        && ((v >> 24u64) & 0xff) as u8 == b4 && ((v >> 16u64) & 0xff) as u8 == b5
        && ((v >> 8u64) & 0xff) as u8 == b6 && ((v >> 0u64) & 0xff) as u8 == b7)
        by (bit_vector)
        requires
            v == ((b0 as u64) << 56u64) | ((b1 as u64) << 48u64) | ((b2 as u64) << 40u64)
                | ((b3 as u64) << 32u64) | ((b4 as u64) << 24u64) | ((b5 as u64) << 16u64)
                | ((b6 as u64) << 8u64) | (b7 as u64),
    ;
    assert(be_bytes(v) =~= s);
}

/// Two distinct values never share an encoding.
pub proof fn lemma_be_bytes_injective(a: u64, b: u64)
    requires
        be_bytes(a) == be_bytes(b),
    ensures
        a == b,
{
    lemma_be_round_trip(a);
    lemma_be_round_trip(b);
}

/// Distinct values have distinct encodings (ambient form of injectivity).
pub broadcast proof fn lemma_be_bytes_distinct(a: u64, b: u64)
    ensures
        a != b ==> #[trigger] be_bytes(a) != #[trigger] be_bytes(b),
{
    if a != b && be_bytes(a) == be_bytes(b) {
        lemma_be_bytes_injective(a, b);
    }
}

/// Decode an 8-byte big-endian value; any other length is a decode error.
pub fn decode_u64(bytes: &Vec<u8>) -> (r: Result<u64, StoreError>)
    ensures
        bytes@.len() == 8 ==> r == Ok::<u64, StoreError>(u64_of_be(bytes@)),
        bytes@.len() != 8 ==> r == Err::<u64, StoreError>(StoreError::DecodeError),
{
    if bytes.len() != 8 {
        return Err(StoreError::DecodeError);
    }
    let v = ((bytes[0] as u64) << 56u64) | ((bytes[1] as u64) << 48u64)
        | ((bytes[2] as u64) << 40u64) | ((bytes[3] as u64) << 32u64)
        | ((bytes[4] as u64) << 24u64) | ((bytes[5] as u64) << 16u64)
        | ((bytes[6] as u64) << 8u64) | (bytes[7] as u64);
    Ok(v)
}

/// Encode `v` as its 8-byte big-endian representation.
pub fn encode_u64(v: u64) -> (r: Vec<u8>)
    ensures
        r@ == be_bytes(v),
{
    let mut out: Vec<u8> = Vec::new();
    out.push(((v >> 56u64) & 0xff) as u8);
    out.push(((v >> 48u64) & 0xff) as u8);
    out.push(((v >> 40u64) & 0xff) as u8);
    out.push(((v >> 32u64) & 0xff) as u8);
    out.push(((v >> 24u64) & 0xff) as u8);
    out.push(((v >> 16u64) & 0xff) as u8);
    out.push(((v >> 8u64) & 0xff) as u8);
    out.push(((v >> 0u64) & 0xff) as u8);
    proof {
        assert(out@ =~= be_bytes(v));
    }
    out
}

}
