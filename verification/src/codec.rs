//! Canonical byte encoding of channel identifiers.
//!
//! A channel identifier is an opaque 64-bit value assigned by the chat
//! platform. When persisted it is represented as its 8-byte little-endian
//! encoding; this module defines that encoding, its inverse, and proves that
//! the two compose to the identity on every identifier.

use vstd::prelude::*;

verus! {

/// The little-endian byte encoding of a channel identifier: byte `k` holds
/// bits `8*k .. 8*k+8` of the identifier.
pub open spec fn encode_spec(id: u64) -> Seq<u8> {
    seq![
        (id & 0xff) as u8,
        ((id >> 8) & 0xff) as u8,
        ((id >> 16) & 0xff) as u8,
        ((id >> 24) & 0xff) as u8,
        ((id >> 32) & 0xff) as u8,
        ((id >> 40) & 0xff) as u8,
        ((id >> 48) & 0xff) as u8,
        ((id >> 56) & 0xff) as u8,
    ]
}

/// The identifier read back from an 8-byte little-endian encoding.
pub open spec fn decode_spec(b: Seq<u8>) -> u64
    recommends
        b.len() == 8,
{
    (b[0] as u64) | ((b[1] as u64) << 8) | ((b[2] as u64) << 16) | ((b[3] as u64) << 24)
        | ((b[4] as u64) << 32) | ((b[5] as u64) << 40) | ((b[6] as u64) << 48)
        | ((b[7] as u64) << 56)
}

/// Encode a channel identifier as its 8-byte little-endian key.
pub fn encode_channel_id(id: u64) -> (r: Vec<u8>)
    ensures
        r@ == encode_spec(id),
        r@.len() == 8,
{
    let mut r: Vec<u8> = Vec::new();
    r.push((id & 0xff) as u8);
    r.push(((id >> 8) & 0xff) as u8);
    r.push(((id >> 16) & 0xff) as u8);
    r.push(((id >> 24) & 0xff) as u8);
    r.push(((id >> 32) & 0xff) as u8);
    r.push(((id >> 40) & 0xff) as u8);
    r.push(((id >> 48) & 0xff) as u8);
    r.push(((id >> 56) & 0xff) as u8);
    proof {
        assert(r@ =~= encode_spec(id));
    }
    r
}

/// Decode an 8-byte little-endian key back into the channel identifier.
pub fn decode_channel_id(b: &[u8]) -> (r: u64)
    requires
        b@.len() == 8,
    ensures
        r == decode_spec(b@),
{
    (b[0] as u64) | ((b[1] as u64) << 8) | ((b[2] as u64) << 16) | ((b[3] as u64) << 24)
        | ((b[4] as u64) << 32) | ((b[5] as u64) << 40) | ((b[6] as u64) << 48)
        | ((b[7] as u64) << 56)
}

/// Round trip: decoding the encoding of any 64-bit channel identifier yields
/// the original identifier.
pub proof fn lemma_encode_decode(id: u64)
    ensures
        decode_spec(encode_spec(id)) == id,
{
    let b0 = (id & 0xff) as u8;
    let b1 = ((id >> 8) & 0xff) as u8;
    let b2 = ((id >> 16) & 0xff) as u8;
    let b3 = ((id >> 24) & 0xff) as u8;
    let b4 = ((id >> 32) & 0xff) as u8;
    let b5 = ((id >> 40) & 0xff) as u8;
    let b6 = ((id >> 48) & 0xff) as u8;
    let b7 = ((id >> 56) & 0xff) as u8;
    assert((b0 as u64) | ((b1 as u64) << 8) | ((b2 as u64) << 16) | ((b3 as u64) << 24)
        | ((b4 as u64) << 32) | ((b5 as u64) << 40) | ((b6 as u64) << 48) | ((b7 as u64) << 56)
        == id) by (bit_vector)
        requires
            b0 == (id & 0xff) as u8,
            b1 == ((id >> 8) & 0xff) as u8,
            b2 == ((id >> 16) & 0xff) as u8,
            b3 == ((id >> 24) & 0xff) as u8,
            b4 == ((id >> 32) & 0xff) as u8,
            b5 == ((id >> 40) & 0xff) as u8,
            b6 == ((id >> 48) & 0xff) as u8,
            b7 == ((id >> 56) & 0xff) as u8,
    ;
}

/// Distinct channel identifiers have distinct encodings, so one stored key
/// can never stand for two channels.
pub proof fn lemma_encode_injective(a: u64, b: u64)
    ensures
        a != b ==> encode_spec(a) != encode_spec(b),
{
    if a != b && encode_spec(a) == encode_spec(b) {
        lemma_encode_decode(a);
        lemma_encode_decode(b);
    }
}

} // verus!
