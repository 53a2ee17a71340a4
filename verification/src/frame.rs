//! Length-prefixed gRPC message framing.
//!
//! One frame is a compression flag byte (always zero here: compression is not
//! supported), the payload length as four big-endian bytes, then the payload.
//! Every body sent to or received from a peer has this shape.

use vstd::prelude::*;

verus! {

/// Why a byte body was rejected as a gRPC frame.
#[derive(Clone, Copy, Debug, PartialEq, Eq, Structural)]
pub enum FrameError {
    /// Fewer bytes than the five-byte frame header.
    TooShort,
    /// The compression flag byte was not zero.
    Compressed,
    /// The declared payload length does not match the bytes that follow.
    LengthMismatch,
}

/// The four big-endian bytes that carry a 32-bit length.
pub open spec fn be32_of(n: int) -> Seq<u8> {
    seq![
        ((n / 0x1000000) % 256) as u8,
        ((n / 0x10000) % 256) as u8,
        ((n / 0x100) % 256) as u8,
        (n % 256) as u8,
    ]
}

/// The value carried by four big-endian bytes.
pub open spec fn be32_val(b: Seq<u8>) -> int
    recommends
        b.len() == 4,
{
    b[0] * 0x1000000 + b[1] * 0x10000 + b[2] * 0x100 + b[3]
}

/// The framed form of a payload: flag byte zero, the payload length in four
/// big-endian bytes, then the payload itself.
pub open spec fn frame_spec(payload: Seq<u8>) -> Seq<u8> {
    seq![0u8] + be32_of(payload.len() as int) + payload
}

/// A body is a well-formed frame when it has the five header bytes, the flag
/// byte is zero, and the declared length equals the number of payload bytes.
pub open spec fn frame_well_formed(body: Seq<u8>) -> bool {
    &&& body.len() >= 5
    &&& body[0] == 0
    &&& be32_val(body.subrange(1, 5)) == body.len() - 5
}

/// The payload bytes of a well-formed frame.
pub open spec fn frame_payload(body: Seq<u8>) -> Seq<u8> {
    body.subrange(5, body.len() as int)
}

/// Four big-endian bytes read back as the value they encode.
proof fn lemma_be32_round(n: int)
    requires
        0 <= n < 0x100000000,
    ensures
        be32_val(be32_of(n)) == n,
{
    let m = n as u32;
    assert(m as int == n);
    assert(m / 0x1000000 % 256 * 0x1000000 + m / 0x10000 % 256 * 0x10000 + m / 0x100 % 256 * 0x100
        + m % 256 == m) by (bit_vector);
}

/// Framing and parsing invert each other: a framed payload is a well-formed
/// frame, its payload reads back unchanged, the framed body is exactly five
/// bytes longer than the payload, and its first byte is zero.
pub proof fn lemma_frame_round_trip(payload: Seq<u8>)
    requires
        payload.len() <= u32::MAX,
    ensures
        frame_well_formed(frame_spec(payload)),
        frame_payload(frame_spec(payload)) == payload,
        frame_spec(payload).len() == 5 + payload.len(),
        frame_spec(payload)[0] == 0,
{
    let body = frame_spec(payload);
    assert(body.subrange(1, 5) =~= be32_of(payload.len() as int));
    lemma_be32_round(payload.len() as int);
    assert(frame_payload(body) =~= payload);
}

/// Frame a serialized message for sending: prepend the zero flag byte and the
/// payload length in four big-endian bytes.
pub fn encode_frame(payload: &Vec<u8>) -> (r: Vec<u8>)
    requires
        payload@.len() <= u32::MAX,
    ensures
        r@ == frame_spec(payload@),
        r@.len() == 5 + payload@.len(),
        r@[0] == 0,
{
    let n = payload.len() as u32;
    let mut r: Vec<u8> = Vec::new();
    r.push(0);
    r.push(((n >> 24) & 0xff) as u8);
    r.push(((n >> 16) & 0xff) as u8);
    r.push(((n >> 8) & 0xff) as u8);
    r.push((n & 0xff) as u8);
    assert((((n >> 24) & 0xff) as int) == n / 0x1000000 % 256) by (bit_vector);
    assert((((n >> 16) & 0xff) as int) == n / 0x10000 % 256) by (bit_vector);
    assert((((n >> 8) & 0xff) as int) == n / 0x100 % 256) by (bit_vector);
    assert(((n & 0xff) as int) == n % 256) by (bit_vector);
    r.extend_from_slice(payload.as_slice());
    assert(r@ =~= frame_spec(payload@));
    r
}

/// Split a received body into its payload, checking the frame header.
///
/// Returns the payload exactly when the body is a well-formed frame; the error
/// names the first header check that failed.
pub fn parse_frame(body: &Vec<u8>) -> (r: Result<Vec<u8>, FrameError>)
    ensures
        r is Ok <==> frame_well_formed(body@),
        r is Ok ==> r->Ok_0@ == frame_payload(body@),
        body@.len() < 5 ==> r == Err::<Vec<u8>, FrameError>(FrameError::TooShort),
        body@.len() >= 5 && body@[0] != 0 ==> r == Err::<Vec<u8>, FrameError>(
            FrameError::Compressed,
        ),
        body@.len() >= 5 && body@[0] == 0 && be32_val(body@.subrange(1, 5)) != body@.len() - 5
            ==> r == Err::<Vec<u8>, FrameError>(FrameError::LengthMismatch),
{
    if body.len() < 5 {
        return Err(FrameError::TooShort);
    }
    if body[0] != 0 {
        return Err(FrameError::Compressed);
    }
    let b0 = body[1];
    let b1 = body[2];
    let b2 = body[3];
    let b3 = body[4];
    let declared: u32 = ((b0 as u32) << 24) | ((b1 as u32) << 16) | ((b2 as u32) << 8) | (
    b3 as u32);
    assert(declared as int == b0 * 0x1000000 + b1 * 0x10000 + b2 * 0x100 + b3) by (bit_vector)
        requires
            declared == ((b0 as u32) << 24) | ((b1 as u32) << 16) | ((b2 as u32) << 8) | (
            b3 as u32),
    ;
    assert(be32_val(body@.subrange(1, 5)) == declared as int);
    if declared as u64 != (body.len() - 5) as u64 {
        return Err(FrameError::LengthMismatch);
    }
    let mut payload: Vec<u8> = Vec::new();
    let mut i: usize = 5;
    while i < body.len()
        invariant
            5 <= i <= body@.len(),
            payload@ =~= body@.subrange(5, i as int),
        decreases body@.len() - i,
    {
        payload.push(body[i]);
        i = i + 1;
    }
    assert(payload@ =~= frame_payload(body@));
    Ok(payload)
}

} // verus!
