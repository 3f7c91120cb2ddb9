//! Length-prefixed framing: every frame is the big-endian `u32` length of
//! its payload followed by the payload.
use vstd::prelude::*;

verus! {

/// The big-endian bytes of `x`.
pub open spec fn spec_be32(x: u32) -> Seq<u8> {
    seq![(x >> 24u32) as u8, (x >> 16u32) as u8, (x >> 8u32) as u8, x as u8]
}

/// The big-endian `u32` at the start of `b`.
pub open spec fn spec_read_be32(b: Seq<u8>) -> u32 {
    (((b[0] as u32) << 24u32) | ((b[1] as u32) << 16u32) | ((b[2] as u32) << 8u32) | (b[3] as u32)) as u32
}

/// A frame: the payload's length (taken modulo 2^32, as `as u32` does) and
/// the payload.
pub open spec fn spec_frame(payload: Seq<u8>) -> Seq<u8> {
    spec_be32(payload.len() as u32) + payload
}

/// What one decoding step makes of the buffered bytes.
pub enum FrameStep {
    /// Not enough bytes for a frame; `consumed` bytes were taken from the
    /// buffer all the same (the length header, once there are four bytes).
    Incomplete { consumed: nat },
    /// A whole frame: its payload, and the bytes it took from the buffer.
    Complete { payload: Seq<u8>, consumed: nat },
}

/// One decoding step on the buffered bytes `src`: fewer than four bytes
/// leave the buffer as it is; otherwise the length header is taken, and if
/// the payload is not all there yet the step ends without it.
pub open spec fn spec_frame_step(src: Seq<u8>) -> FrameStep {
    if src.len() < 4 {
        FrameStep::Incomplete { consumed: 0 }
    } else {
        let n = spec_read_be32(src) as nat;
        if src.len() - 4 < n {
            FrameStep::Incomplete { consumed: 4 }
        } else {
            FrameStep::Complete { payload: src.subrange(4, 4 + n as int), consumed: 4 + n }
        }
    }
}

/// The header of a frame reads back as the length it was written with.
pub proof fn lemma_be32_roundtrip(x: u32, rest: Seq<u8>)
    ensures
        spec_read_be32(spec_be32(x) + rest) == x,
{
    let b = spec_be32(x) + rest;
    assert(b[0] == (x >> 24u32) as u8);
    assert(b[1] == (x >> 16u32) as u8);
    assert(b[2] == (x >> 8u32) as u8);
    assert(b[3] == x as u8);
    assert((((((x >> 24u32) as u8) as u32) << 24u32) | ((((x >> 16u32) as u8) as u32) << 16u32)
        | ((((x >> 8u32) as u8) as u32) << 8u32) | ((x as u8) as u32)) == x) by (bit_vector);
}

/// A whole frame, followed by anything, is decoded in one step: the step
/// yields its payload and consumes exactly the frame.
pub proof fn lemma_frame_roundtrip(payload: Seq<u8>, rest: Seq<u8>)
    requires
        payload.len() <= u32::MAX,
    ensures
        spec_frame_step(spec_frame(payload) + rest) == (FrameStep::Complete {
            payload,
            consumed: 4 + payload.len(),
        }),
{
    let b = spec_frame(payload) + rest;
    assert(b =~= spec_be32(payload.len() as u32) + (payload + rest));
    lemma_be32_roundtrip(payload.len() as u32, payload + rest);
    assert(b.subrange(4, 4 + payload.len() as int) =~= payload);
}

/// A frame whose payload has not fully arrived, but whose header has, is
/// not decoded: the step takes the four header bytes and yields nothing.
pub proof fn lemma_frame_partial(payload: Seq<u8>, k: nat)
    requires
        payload.len() <= u32::MAX,
        4 <= k < 4 + payload.len(),
    ensures
        spec_frame_step(spec_frame(payload).take(k as int)) == (FrameStep::Incomplete {
            consumed: 4,
        }),
{
    let b = spec_frame(payload).take(k as int);
    lemma_be32_roundtrip(payload.len() as u32, payload);
    assert(b.subrange(0, 4) =~= spec_frame(payload).subrange(0, 4));
    assert(b[0] == spec_frame(payload)[0]);
    assert(b[1] == spec_frame(payload)[1]);
    assert(b[2] == spec_frame(payload)[2]);
    assert(b[3] == spec_frame(payload)[3]);
    assert(spec_frame(payload) =~= spec_be32(payload.len() as u32) + payload);
}

/// Appends the big-endian bytes of `x` (what `BufMut::put_u32` writes).
pub fn put_u32(dst: &mut Vec<u8>, x: u32)
    ensures
        final(dst)@ == old(dst)@ + spec_be32(x),
{
    dst.push((x >> 24u32) as u8);
    dst.push((x >> 16u32) as u8);
    dst.push((x >> 8u32) as u8);
    dst.push(x as u8);
    assert(final(dst)@ =~= old(dst)@ + spec_be32(x));
}

/// Reads the big-endian `u32` at the start of `b`.
pub fn read_u32(b: &[u8]) -> (r: u32)
    requires
        b@.len() >= 4,
    ensures
        r == spec_read_be32(b@),
{
    (((b[0] as u32) << 24u32) | ((b[1] as u32) << 16u32) | ((b[2] as u32) << 8u32) | (b[3] as u32))
}

/// Removes the first `n` bytes of `v`.
pub fn drop_front(v: &mut Vec<u8>, n: usize)
    requires
        n <= old(v)@.len(),
    ensures
        final(v)@ == old(v)@.skip(n as int),
{
    let mut out: Vec<u8> = Vec::new();
    let mut i: usize = n;
    while i < v.len()
        invariant
            n <= i <= v@.len(),
            v@ == old(v)@,
            out@ == old(v)@.subrange(n as int, i as int),
        decreases v@.len() - i,
    {
        out.push(v[i]);
        assert(old(v)@.subrange(n as int, (i + 1) as int) =~= old(v)@.subrange(n as int, i as int).push(old(v)@[i as int]));
        i = i + 1;
    }
    assert(out@ =~= old(v)@.skip(n as int));
    *v = out;
}

} // verus!
