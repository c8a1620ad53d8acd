//! Framing codec: byte-exact encode and decode of one wire frame.
//!
//! A frame is `[1 byte magic][4 bytes length, little-endian][length bytes body]`.
//! The body is an opaque byte payload; producing and interpreting it is the
//! job of a payload codec outside this crate.

use vstd::prelude::*;

verus! {

/// The sentinel byte that opens every frame, agreed by both peers
/// (the ASCII code of `W`).
pub const MAGIC: u8 = 87;

/// How decoding a frame can fail.
///
/// A short read means the peer closed the stream mid-frame; a wrong opening
/// byte means the stream is desynchronized and framing cannot continue.
#[derive(Clone, Copy, PartialEq, Eq, Structural, Debug)]
pub enum DecodeError {
    ConnectionClosed,
    BadMagic,
}

/// The four bytes of `n` in little-endian order.
pub open spec fn le_bytes32(n: u32) -> Seq<u8> {
    seq![
        (n & 0xff) as u8,
        ((n >> 8) & 0xff) as u8,
        ((n >> 16) & 0xff) as u8,
        ((n >> 24) & 0xff) as u8,
    ]
}

/// The value encoded by four little-endian bytes.
pub open spec fn u32_from_le_bytes(b: Seq<u8>) -> u32
    recommends
        b.len() == 4,
{
    (b[0] as u32) | ((b[1] as u32) << 8) | ((b[2] as u32) << 16) | ((b[3] as u32) << 24)
}

/// Reading back the little-endian bytes of `n` yields `n`.
pub proof fn lemma_le_round_trip(n: u32)
    ensures
        u32_from_le_bytes(le_bytes32(n)) == n,
{
    let b0 = (n & 0xff) as u8;
    let b1 = ((n >> 8) & 0xff) as u8;
    let b2 = ((n >> 16) & 0xff) as u8;
    let b3 = ((n >> 24) & 0xff) as u8;
    assert((b0 as u32) | ((b1 as u32) << 8) | ((b2 as u32) << 16) | ((b3 as u32) << 24) == n)
        by (bit_vector)
        requires
            b0 == (n & 0xff) as u8,
            b1 == ((n >> 8) & 0xff) as u8,
            b2 == ((n >> 16) & 0xff) as u8,
            b3 == ((n >> 24) & 0xff) as u8,
    ;
}

/// The full wire image of a frame carrying `body`.
pub open spec fn frame_bytes(body: Seq<u8>) -> Seq<u8>
    recommends
        body.len() < 0x1_0000_0000,
{
    seq![MAGIC] + le_bytes32(body.len() as u32) + body
}

/// What decoding a header read yields: the body length, or the reason the
/// frame is unusable. Fewer than five bytes mean the peer closed the stream;
/// a wrong opening byte is rejected without reading a length out of the rest.
pub open spec fn spec_decode_header(bytes: Seq<u8>) -> Result<u32, DecodeError> {
    if bytes.len() < 5 {
        Err(DecodeError::ConnectionClosed)
    } else if bytes[0] != MAGIC {
        Err(DecodeError::BadMagic)
    } else {
        Ok(u32_from_le_bytes(bytes.subrange(1, 5)))
    }
}

/// What decoding a body read yields: the first `length` bytes, or the closed
/// signal when the stream ended short of them.
pub open spec fn spec_decode_body(bytes: Seq<u8>, length: u32) -> Result<Seq<u8>, DecodeError> {
    if bytes.len() < length {
        Err(DecodeError::ConnectionClosed)
    } else {
        Ok(bytes.subrange(0, length as int))
    }
}

/// Encode `body` as one frame: magic, little-endian length, body bytes.
pub fn encode_frame(body: &Vec<u8>) -> (frame: Vec<u8>)
    requires
        body@.len() < 0x1_0000_0000,
    ensures
        frame@ == frame_bytes(body@),
{
    let len = body.len() as u32;
    let mut frame: Vec<u8> = Vec::new();
    frame.push(MAGIC);
    frame.push((len & 0xff) as u8);
    frame.push(((len >> 8) & 0xff) as u8);
    frame.push(((len >> 16) & 0xff) as u8);
    frame.push(((len >> 24) & 0xff) as u8);
    let mut i: usize = 0;
    while i < body.len()
        invariant
            i <= body@.len(),
            frame@ == (seq![MAGIC] + le_bytes32(body@.len() as u32)) + body@.subrange(0, i as int),
        decreases body@.len() - i,
    {
        frame.push(body[i]);
        i = i + 1;
        proof {
            assert(body@.subrange(0, i as int) =~= body@.subrange(0, i - 1) + seq![body@[i - 1]]);
        }
    }
    proof {
        assert(frame@ =~= frame_bytes(body@));
    }
    frame
}

/// Decode the header read of a frame. `bytes` is everything a read of up to
/// five bytes produced; fewer than five mean the peer closed the stream.
pub fn decode_header(bytes: &Vec<u8>) -> (r: Result<u32, DecodeError>)
    ensures
        r == spec_decode_header(bytes@),
{
    if bytes.len() < 5 {
        Err(DecodeError::ConnectionClosed)
    } else if bytes[0] != MAGIC {
        Err(DecodeError::BadMagic)
    } else {
        let n = (bytes[1] as u32) | ((bytes[2] as u32) << 8) | ((bytes[3] as u32) << 16) | (
        (bytes[4] as u32) << 24);
        proof {
            let s = bytes@.subrange(1, 5);
            assert(s[0] == bytes@[1] && s[1] == bytes@[2] && s[2] == bytes@[3] && s[3] == bytes@[4]);
        }
        Ok(n)
    }
}

/// Decode the body read of a frame whose header announced `length` bytes.
/// `bytes` is everything a read of up to `length` bytes produced; a short
/// read means the peer closed the stream mid-frame.
pub fn decode_body(bytes: Vec<u8>, length: u32) -> (r: Result<Vec<u8>, DecodeError>)
    ensures
        match r {
            Ok(v) => spec_decode_body(bytes@, length) == Ok::<Seq<u8>, DecodeError>(v@),
            Err(e) => spec_decode_body(bytes@, length) == Err::<Seq<u8>, DecodeError>(e),
        },
{
    let ghost given = bytes@;
    if bytes.len() < length as usize {
        Err(DecodeError::ConnectionClosed)
    } else {
        let mut body = bytes;
        body.truncate(length as usize);
        proof {
            assert(body@ =~= given.subrange(0, length as int));
        }
        Ok(body)
    }
}

/// Bad-magic rejection: a complete header read whose first byte is not the
/// sentinel is refused as protocol-invalid, whatever the other four bytes
/// hold — no length is read out of them.
pub proof fn lemma_bad_magic_rejected(bytes: Seq<u8>)
    requires
        bytes.len() >= 5,
        bytes[0] != MAGIC,
    ensures
        spec_decode_header(bytes) == Err::<u32, DecodeError>(DecodeError::BadMagic),
{
}

/// Framing round-trip: decoding the frame built from any body below the
/// 32-bit length bound reproduces that body exactly. The header decode of
/// the frame's first five bytes yields the body's length, and the body
/// decode of the rest yields the body.
pub proof fn lemma_frame_round_trip(body: Seq<u8>)
    requires
        body.len() < 0x1_0000_0000,
    ensures
        spec_decode_header(frame_bytes(body)) == Ok::<u32, DecodeError>(body.len() as u32),
        spec_decode_body(frame_bytes(body).skip(5), body.len() as u32) == Ok::<Seq<u8>, DecodeError>(
            body,
        ),
{
    let f = frame_bytes(body);
    assert(f.len() == 5 + body.len());
    assert(f[0] == MAGIC);
    assert(f.subrange(1, 5) =~= le_bytes32(body.len() as u32));
    lemma_le_round_trip(body.len() as u32);
    assert(f.skip(5) =~= body);
    assert(f.skip(5).subrange(0, body.len() as int) =~= body);
}

} // verus!
