//! The frame codecs of the gateway connection: the admin client's codec
//! (requests out, replies in) and the registry codec (any message both ways).
use vstd::prelude::*;
use vstd::utf8::encode_utf8;
use crate::frame::{FrameStep, spec_frame_step, spec_frame, spec_read_be32, lemma_frame_roundtrip, put_u32, read_u32, drop_front};
use crate::wire::{Direction, spec_decode_envelope, spec_encode_envelope, spec_encode_body, encode_envelope, decode_envelope, id_in_direction, lemma_envelope_roundtrip, envelope_message};
use crate::msg::{Registry, CsMsg, ScMsg, MsgView, view_from_parts, view_is_canonical, is_sc_id};

verus! {

/// Why a complete frame did not yield a message.
#[derive(Clone, Copy, Debug, PartialEq, Eq, Structural)]
pub enum CodecError {
    /// The payload is not a valid envelope.
    Decode,
    /// The envelope holds no message.
    PayloadNone,
}

impl CodecError {
    /// The error's message.
    pub fn message(&self) -> (r: &'static str)
        ensures
            r@ == (match self {
                CodecError::Decode => "failed to decode Protobuf message"@,
                CodecError::PayloadNone => "message payload is None"@,
            }),
    {
        match self {
            CodecError::Decode => "failed to decode Protobuf message",
            CodecError::PayloadNone => "message payload is None",
        }
    }
}

/// What the payload of a complete frame of direction `dir` yields.
pub open spec fn envelope_outcome(dir: Direction, payload: Seq<u8>) -> Result<MsgView, CodecError> {
    match spec_decode_envelope(dir, payload, 0, None) {
        None => Err(CodecError::Decode),
        Some(None) => Err(CodecError::PayloadNone),
        Some(Some((k, n, t))) => Ok(view_from_parts(k, n, t)),
    }
}

/// Whether `r` is what one decoding step of direction `dir` on the buffered
/// bytes `src` yields.
pub open spec fn decode_step_result(dir: Direction, src: Seq<u8>, r: Result<Option<MsgView>, CodecError>) -> bool {
    match spec_frame_step(src) {
        FrameStep::Incomplete { .. } => r == Ok::<Option<MsgView>, CodecError>(None),
        FrameStep::Complete { payload, .. } => match envelope_outcome(dir, payload) {
            Ok(v) => r == Ok::<Option<MsgView>, CodecError>(Some(v)),
            Err(e) => r == Err::<Option<MsgView>, CodecError>(e),
        },
    }
}

/// The bytes a decoding step takes from the buffer.
pub open spec fn step_consumed(src: Seq<u8>) -> nat {
    match spec_frame_step(src) {
        FrameStep::Incomplete { consumed } => consumed,
        FrameStep::Complete { consumed, .. } => consumed,
    }
}

/// The view of a decoding result.
pub open spec fn result_view(r: Result<Option<Registry>, CodecError>) -> Result<Option<MsgView>, CodecError> {
    match r {
        Ok(Some(m)) => Ok(Some(m@)),
        Ok(None) => Ok(None),
        Err(e) => Err(e),
    }
}

/// One decoding step on the buffered bytes `src`: takes the frame header
/// once four bytes are there (remembering the payload length in `ctx_len`),
/// then the payload once it is all there, and decodes it.
pub fn decode_step(dir: Direction, src: &mut Vec<u8>, ctx_len: &mut usize) -> (r: Result<
    Option<Registry>,
    CodecError,
>)
    ensures
        decode_step_result(dir, old(src)@, result_view(r)),
        final(src)@ == old(src)@.skip(step_consumed(old(src)@) as int),
        old(src)@.len() >= 4 ==> *final(ctx_len) == spec_read_be32(old(src)@) as usize,
        old(src)@.len() < 4 ==> *final(ctx_len) == *old(ctx_len),
        r matches Ok(Some(m)) ==> id_in_direction(dir, m@.id),
{
    if src.len() < 4 {
        return Ok(None);
    }
    let n = read_u32(src.as_slice()) as usize;
    *ctx_len = n;
    if src.len() - 4 < n {
        drop_front(src, 4);
        return Ok(None);
    }
    let payload = vstd::slice::slice_subrange(src.as_slice(), 4, 4 + n);
    let r = decode_envelope(dir, payload);
    drop_front(src, 4 + n);
    match r {
        Err(_) => Err(CodecError::Decode),
        Ok(None) => Err(CodecError::PayloadNone),
        Ok(Some(m)) => Ok(Some(m)),
    }
}

/// Frames the envelope of `m` onto `dst`.
pub fn encode_frame(m: &Registry, dst: &mut Vec<u8>)
    ensures
        final(dst)@ == old(dst)@ + spec_frame(spec_encode_envelope(m@)),
{
    let mut payload: Vec<u8> = Vec::new();
    encode_envelope(m, &mut payload);
    assert(payload@ =~= spec_encode_envelope(m@));
    put_u32(dst, payload.len() as u32);
    crate::wire::append_bytes(dst, payload.as_slice());
    assert(final(dst)@ =~= old(dst)@ + spec_frame(spec_encode_envelope(m@)));
}

/// Encoder of the admin client: frames each request in a `CsProto` envelope.
#[derive(Clone, Copy, Debug)]
pub struct Encoder;

impl Encoder {
    /// Appends the frame of `item` to `dst`; it always succeeds.
    pub fn encode(&mut self, item: CsMsg, dst: &mut Vec<u8>) -> (r: Result<(), CodecError>)
        ensures
            r is Ok,
            final(dst)@ == old(dst)@ + spec_frame(spec_encode_envelope(item@)),
    {
        let m = item.into_registry();
        encode_frame(&m, dst);
        Ok(())
    }
}

/// Decoder of the admin client: reads `ScProto` frames.
#[derive(Clone, Copy, Debug)]
pub struct Decoder {
    ctx_payload_len: usize,
}

impl Decoder {
    /// A decoder that has read no frame header yet.
    pub fn new() -> (r: Decoder)
        ensures
            r.payload_len() == 0,
    {
        Decoder { ctx_payload_len: 0 }
    }

    /// The payload length of the last frame header read.
    pub closed spec fn payload_len(&self) -> usize {
        self.ctx_payload_len
    }

    /// One decoding step on the buffered bytes `src` (see `decode_step`):
    /// `Ok(None)` while a frame is incomplete, the reply once one is whole.
    pub fn decode(&mut self, src: &mut Vec<u8>) -> (r: Result<Option<ScMsg>, CodecError>)
        ensures
            decode_step_result(
                Direction::ToClient,
                old(src)@,
                match r {
                    Ok(Some(m)) => Ok(Some(m@)),
                    Ok(None) => Ok(None),
                    Err(e) => Err(e),
                },
            ),
            final(src)@ == old(src)@.skip(step_consumed(old(src)@) as int),
            old(src)@.len() >= 4 ==> final(self).payload_len() == spec_read_be32(old(src)@) as usize,
            old(src)@.len() < 4 ==> final(self).payload_len() == old(self).payload_len(),
    {
        match decode_step(Direction::ToClient, src, &mut self.ctx_payload_len) {
            Ok(Some(m)) => match m.into_sc_msg() {
                Some(s) => Ok(Some(s)),
                None => Err(CodecError::Decode),
            },
            Ok(None) => Ok(None),
            Err(e) => Err(e),
        }
    }
}

impl Default for Decoder {
    fn default() -> (r: Decoder)
        ensures
            r.payload_len() == 0,
    {
        Decoder::new()
    }
}

/// What one frame carries back: decoding the frame of a message (of a kind
/// the direction admits), followed by any further bytes, yields that message
/// and consumes exactly the frame.
pub proof fn lemma_codec_roundtrip(dir: Direction, v: MsgView, rest: Seq<u8>)
    requires
        view_is_canonical(v),
        id_in_direction(dir, v.id),
        spec_encode_envelope(v).len() <= u32::MAX,
    ensures
        decode_step_result(dir, spec_frame(spec_encode_envelope(v)) + rest, Ok(Some(v))),
        step_consumed(spec_frame(spec_encode_envelope(v)) + rest) == spec_frame(
            spec_encode_envelope(v),
        ).len(),
{
    let p = spec_encode_envelope(v);
    assert(spec_encode_body(v.id, v.num, v.text).len() <= p.len());
    lemma_envelope_roundtrip(dir, v);
    lemma_frame_roundtrip(p, rest);
}

} // verus!
