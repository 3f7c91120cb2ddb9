//! The frame codec of the first admin console: any registered message,
//! both ways.
use vstd::prelude::*;
use crate::frame::spec_frame;
use crate::frame::spec_read_be32;
use crate::wire::{Direction, spec_encode_envelope};
use crate::msg::Registry;
use crate::codec::{CodecError, decode_step, decode_step_result, encode_frame, result_view, step_consumed};

verus! {

/// Encoder of the registry codec: frames any message.
#[derive(Clone, Copy, Debug)]
pub struct Encoder;

impl Encoder {
    /// Appends the frame of `item` to `dst`; it always succeeds.
    pub fn encode(&mut self, item: Registry, dst: &mut Vec<u8>) -> (r: Result<(), CodecError>)
        ensures
            r is Ok,
            final(dst)@ == old(dst)@ + spec_frame(spec_encode_envelope(item@)),
    {
        encode_frame(&item, dst);
        Ok(())
    }
}

/// Decoder of the registry codec: reads frames of any message.
#[derive(Clone, Copy, Debug)]
pub struct Decoder {
    ctx_payload_len: usize,
}

impl Decoder {
    /// A decoder that has read no frame header yet.
    pub fn new() -> (r: Decoder)
        ensures
            r.payload_len() == 0,
    {
        Decoder { ctx_payload_len: 0 }
    }

    /// The payload length of the last frame header read.
    pub closed spec fn payload_len(&self) -> usize {
        self.ctx_payload_len
    }

    /// One decoding step on the buffered bytes `src` (see `decode_step`).
    pub fn decode(&mut self, src: &mut Vec<u8>) -> (r: Result<Option<Registry>, CodecError>)
        ensures
            decode_step_result(Direction::Any, old(src)@, result_view(r)),
            final(src)@ == old(src)@.skip(step_consumed(old(src)@) as int),
            old(src)@.len() >= 4 ==> final(self).payload_len() == spec_read_be32(old(src)@) as usize,
            old(src)@.len() < 4 ==> final(self).payload_len() == old(self).payload_len(),
    {
        decode_step(Direction::Any, src, &mut self.ctx_payload_len)
    }
}

impl Default for Decoder {
    fn default() -> (r: Decoder)
        ensures
            r.payload_len() == 0,
    {
        Decoder::new()
    }
}

} // verus!
