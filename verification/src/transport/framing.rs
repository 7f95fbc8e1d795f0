//! Length-prefixed framing of encoded control messages.
//!
//! A frame is the payload's length as a little-endian `u32`, followed by
//! the payload itself.

use vstd::prelude::*;

verus! {

/// The four little-endian bytes of `n`.
pub open spec fn le_bytes(n: u32) -> Seq<u8> {
    seq![
        (n % 256) as u8,
        ((n / 256) % 256) as u8,
        ((n / 65536) % 256) as u8,
        ((n / 16777216) % 256) as u8,
    ]
}

/// The number whose little-endian bytes are `b0 b1 b2 b3`.
pub open spec fn le_value(b0: u8, b1: u8, b2: u8, b3: u8) -> int {
    b0 + 256 * b1 + 65536 * b2 + 16777216 * b3
}

/// The frame that carries `payload`: its length, truncated to 32 bits as a
/// `u32` cast does, in little-endian order, then the payload.
pub open spec fn spec_frame(payload: Seq<u8>) -> Seq<u8> {
    le_bytes(payload.len() as u32) + payload
}

/// Encodes `n` as four little-endian bytes.
pub fn u32_to_le_bytes(n: u32) -> (r: [u8; 4])
    ensures
        r@ == le_bytes(n),
{
    let r = [(n % 256) as u8, ((n / 256) % 256) as u8, ((n / 65536) % 256) as u8, ((n / 16777216) % 256) as u8];
    assert(r@ =~= le_bytes(n));
    r
}

/// Decodes four little-endian bytes.
pub fn u32_from_le_bytes(b: [u8; 4]) -> (r: u32)
    ensures
        r == le_value(b@[0], b@[1], b@[2], b@[3]),
{
    b[0] as u32 + 256 * (b[1] as u32) + 65536 * (b[2] as u32) + 16777216 * (b[3] as u32)
}


/// Proof that decoding the four little-endian bytes of `n` gives back `n`.
pub proof fn lemma_le_roundtrip(n: u32)
    ensures
        le_value(le_bytes(n)[0], le_bytes(n)[1], le_bytes(n)[2], le_bytes(n)[3]) == n,
{
}

/// Builds the frame that carries `payload` (what is written to the stream
/// for one control message).
pub fn frame_message(payload: &[u8]) -> (r: Vec<u8>)
    ensures
        r@ == spec_frame(payload@),
{
    let len: u32 = payload.len() as u32;
    let header = u32_to_le_bytes(len);
    let mut r: Vec<u8> = Vec::with_capacity(4);
    r.push(header[0]);
    r.push(header[1]);
    r.push(header[2]);
    r.push(header[3]);
    let mut i: usize = 0;
    while i < payload.len()
        invariant
            i <= payload@.len(),
            r@ == le_bytes(len) + payload@.subrange(0, i as int),
            header@ == le_bytes(len),
        decreases payload@.len() - i,
    {
        r.push(payload[i]);
        i = i + 1;
        assert(r@ =~= le_bytes(len) + payload@.subrange(0, i as int));
    }
    assert(payload@.subrange(0, i as int) =~= payload@);
    r
}

/// The payload length that a frame header announces (what is read from the
/// stream before the payload).
pub fn frame_payload_len(header: [u8; 4]) -> (r: usize)
    ensures
        r == le_value(header@[0], header@[1], header@[2], header@[3]),
{
    u32_from_le_bytes(header) as usize
}

/// Proof that a frame announces the length of the payload it carries and
/// carries it after its four header bytes, for every payload whose length
/// fits in 32 bits.
pub proof fn lemma_frame_roundtrip(payload: Seq<u8>)
    requires
        payload.len() <= u32::MAX,
    ensures
        spec_frame(payload).len() == payload.len() + 4,
        le_value(spec_frame(payload)[0], spec_frame(payload)[1], spec_frame(payload)[2], spec_frame(payload)[3]) == payload.len(),
        spec_frame(payload).skip(4) =~= payload,
{
    lemma_le_roundtrip(payload.len() as u32);
}

} // verus!
