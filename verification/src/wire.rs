//! The protobuf wire format of the messages: each message body holds its
//! text field (length-delimited, UTF-8) and its numeric field (a varint),
//! omitted when empty or zero; an envelope holds one message body as the
//! length-delimited field whose number is the message's registry identifier.
use vstd::prelude::*;
use vstd::utf8::{valid_utf8, decode_utf8, encode_utf8};
use crate::varint::{spec_varint, spec_decode_varint, lemma_varint_roundtrip, lemma_decode_varint_bounds, decode_varint, encode_varint, lemma_varint_len};
use crate::msgid::{MsgId, msg_id_value};
use crate::msg::{num_tag, text_tag, is_cs_id, is_sc_id, Registry, MsgView, view_from_parts, view_is_canonical, normalize_num, normalize_text};
use crate::text::string_from_utf8;

verus! {

broadcast use vstd::utf8::group_utf8_lib;

/// The protobuf key of field `tag` with wire type `wt`.
pub open spec fn spec_key(tag: u32, wt: u64) -> Seq<u8> {
    spec_varint((((tag as u64) << 3u64) | wt) as u64)
}

/// Reads a protobuf key: the field number and wire type, and the key's length.
/// A key above `u32::MAX`, a wire type above 5 or a field number 0 fails.
pub open spec fn spec_decode_key(b: Seq<u8>) -> Option<(u32, u64, nat)> {
    match spec_decode_varint(b) {
        None => None,
        Some((key, n)) => if key > 0xffff_ffffu64 {
            None
        } else if key & 7 > 5 {
            None
        } else if (key as u32) >> 3u32 < 1 {
            None
        } else {
            Some((((key as u32) >> 3u32), key & 7, n))
        },
    }
}

/// The largest field number that protobuf allows.
pub open spec fn max_tag() -> u32 {
    0x1fff_ffffu32
}

/// Decoding a key written for a valid field number and wire type gives them back.
pub proof fn lemma_key_roundtrip(tag: u32, wt: u64, rest: Seq<u8>)
    requires
        1 <= tag <= max_tag(),
        wt <= 5,
    ensures
        spec_decode_key(spec_key(tag, wt) + rest) == Some((tag, wt, spec_key(tag, wt).len())),
{
    let key = (((tag as u64) << 3u64) | wt) as u64;
    lemma_varint_roundtrip(key, rest);
    assert(1 <= tag <= 0x1fff_ffffu32 && wt <= 5 ==> {
        &&& (((tag as u64) << 3u64) | wt) as u64 <= 0xffff_ffffu64
        &&& (((tag as u64) << 3u64) | wt) as u64 & 7 == wt
        &&& ((((tag as u64) << 3u64) | wt) as u64 as u32) >> 3u32 == tag
    }) by (bit_vector);
}

/// Which side of the gateway an envelope comes from, which decides the
/// messages it may carry.
#[derive(Clone, Copy, Debug, PartialEq, Eq, Structural)]
pub enum Direction {
    /// Client requests (`CsProto`).
    ToGate,
    /// Gate replies (`ScProto`).
    ToClient,
    /// Any registered message.
    Any,
}

/// Whether a message kind may travel in an envelope of direction `dir`.
pub open spec fn id_in_direction(dir: Direction, id: MsgId) -> bool {
    match dir {
        Direction::ToGate => is_cs_id(id),
        Direction::ToClient => is_sc_id(id),
        Direction::Any => id != MsgId::Reserved,
    }
}

/// The message kind that field `tag` of an envelope of direction `dir` carries.
pub open spec fn spec_tag_kind(dir: Direction, tag: u32) -> Option<MsgId> {
    let id = if tag == 1 {
        Some(MsgId::CsPing)
    } else if tag == 2 {
        Some(MsgId::ScPing)
    } else if tag == 101 {
        Some(MsgId::CsLogin)
    } else if tag == 102 {
        Some(MsgId::ScLogin)
    } else if tag == 103 {
        Some(MsgId::CsFastLogin)
    } else if tag == 104 {
        Some(MsgId::ScFastLogin)
    } else if tag == 201 {
        Some(MsgId::CsEcho)
    } else if tag == 202 {
        Some(MsgId::ScEcho)
    } else {
        None
    };
    match id {
        Some(k) => if id_in_direction(dir, k) {
            Some(k)
        } else {
            None
        },
        None => None,
    }
}

/// The field number of each message kind in an envelope: its registry value.
pub open spec fn kind_tag(id: MsgId) -> u32 {
    msg_id_value(id) as u32
}

/// The message kind of envelope field `tag`, if the envelope may carry it.
pub fn tag_kind(dir: Direction, tag: u32) -> (r: Option<MsgId>)
    ensures
        r == spec_tag_kind(dir, tag),
{
    let id = if tag == 1 {
        Some(MsgId::CsPing)
    } else if tag == 2 {
        Some(MsgId::ScPing)
    } else if tag == 101 {
        Some(MsgId::CsLogin)
    } else if tag == 102 {
        Some(MsgId::ScLogin)
    } else if tag == 103 {
        Some(MsgId::CsFastLogin)
    } else if tag == 104 {
        Some(MsgId::ScFastLogin)
    } else if tag == 201 {
        Some(MsgId::CsEcho)
    } else if tag == 202 {
        Some(MsgId::ScEcho)
    } else {
        None
    };
    match id {
        Some(k) => {
            let ok = match dir {
                Direction::ToGate => match k {
                    MsgId::CsPing | MsgId::CsLogin | MsgId::CsFastLogin | MsgId::CsEcho => true,
                    _ => false,
                },
                Direction::ToClient => match k {
                    MsgId::ScPing | MsgId::ScLogin | MsgId::ScFastLogin | MsgId::ScEcho => true,
                    _ => false,
                },
                Direction::Any => true,
            };
            if ok {
                Some(k)
            } else {
                None
            }
        },
        None => None,
    }
}

/// Where a field is read: the body of a message of some kind, or an envelope.
pub enum FieldCtx {
    Body(MsgId),
    Envelope(Direction),
}

/// The wire type that a known field of the context must have: 0 (varint)
/// for a numeric field, 2 (length-delimited) for a text field or an
/// envelope's message; `None` for a field the context does not know.
pub open spec fn expected_wire_type(ctx: FieldCtx, tag: u32) -> Option<u64> {
    match ctx {
        FieldCtx::Body(id) => if num_tag(id) == Some(tag) {
            Some(0u64)
        } else if text_tag(id) == Some(tag) {
            Some(2u64)
        } else {
            None
        },
        FieldCtx::Envelope(dir) => if spec_tag_kind(dir, tag) is Some {
            Some(2u64)
        } else {
            None
        },
    }
}

/// One field as read from the wire.
pub enum WireField {
    /// A known varint field.
    Num(u32, u64),
    /// A known length-delimited field and its bytes.
    Bytes(u32, Seq<u8>),
    /// An unknown field, skipped.
    Skip,
}

/// How many bytes `prost::encoding::skip_field` leaves unread after skipping
/// a field of wire type `wire_type` and number `tag` at the start of
/// `bytes`, or `None` when it fails.
pub uninterp spec fn prost_skip_field(wire_type: u64, tag: u32, bytes: Seq<u8>) -> Option<usize>;

/// Reads the field that starts at `pos` in `b`: the field and the position
/// after it. A known field with the wrong wire type, a varint that does not
/// decode, or a length that runs past the end of `b` fails.
pub open spec fn spec_read_field(ctx: FieldCtx, b: Seq<u8>, pos: nat) -> Option<(WireField, nat)> {
    match spec_decode_key(b.skip(pos as int)) {
        None => None,
        Some((tag, wt, kn)) => {
            let p1 = pos + kn;
            let r1 = b.skip(p1 as int);
            match expected_wire_type(ctx, tag) {
                Some(ew) => if wt != ew {
                    None
                } else if ew == 0 {
                    match spec_decode_varint(r1) {
                        None => None,
                        Some((v, vn)) => Some((WireField::Num(tag, v), p1 + vn)),
                    }
                } else {
                    match spec_decode_varint(r1) {
                        None => None,
                        Some((len, ln)) => if len > r1.len() - ln {
                            None
                        } else {
                            Some(
                                (
                                    WireField::Bytes(
                                        tag,
                                        b.subrange((p1 + ln) as int, (p1 + ln + len) as int),
                                    ),
                                    (p1 + ln + len) as nat,
                                ),
                            )
                        },
                    }
                },
                None => match prost_skip_field(wt, tag, r1) {
                    None => None,
                    Some(rem) => if rem > r1.len() {
                        None
                    } else {
                        Some((WireField::Skip, (b.len() - rem) as nat))
                    },
                },
            }
        },
    }
}

/// Calls `prost::encoding::skip_field` on `bytes`: it skips one field of
/// the given wire type and number (a varint, 4 or 8 bytes, a
/// length-delimited run, or a whole group) and reports how many bytes are
/// left, which is never more than there were.
#[verifier::external_body]
fn pb_skip_field(wire_type: u64, tag: u32, bytes: &[u8]) -> (r: Option<usize>)
    requires
        wire_type <= 5,
    ensures
        r == prost_skip_field(wire_type, tag, bytes@),
        r matches Some(n) ==> n <= bytes@.len(),
{
    let wt = match wire_type {
        0 => prost::encoding::WireType::Varint,
        1 => prost::encoding::WireType::SixtyFourBit,
        2 => prost::encoding::WireType::LengthDelimited,
        3 => prost::encoding::WireType::StartGroup,
        4 => prost::encoding::WireType::EndGroup,
        _ => prost::encoding::WireType::ThirtyTwoBit,
    };
    let mut buf: &[u8] = bytes;
    match prost::encoding::skip_field(wt, tag, &mut buf, prost::encoding::DecodeContext::default()) {
        Ok(()) => Some(buf.len()),
        Err(_) => None,
    }
}

/// Reads the key that starts at `pos` in `b`: field number, wire type and
/// the position after the key.
pub fn decode_key(b: &[u8], pos: usize) -> (r: Option<(u32, u64, usize)>)
    requires
        pos <= b@.len(),
    ensures
        r == (match spec_decode_key(b@.skip(pos as int)) {
            Some((tag, wt, n)) => Some((tag, wt, (pos + n) as usize)),
            None => None,
        }),
{
    match decode_varint(b, pos) {
        None => None,
        Some((key, p)) => {
            if key > 0xffff_ffffu64 {
                None
            } else if key & 7 > 5 {
                None
            } else if (key as u32) >> 3u32 < 1 {
                None
            } else {
                Some((((key as u32) >> 3u32), key & 7, p))
            }
        },
    }
}

/// A field as read by `read_field`: the bytes of a length-delimited field are
/// given by their range in the input.
pub enum FieldRead {
    Num(u32, u64),
    Bytes(u32, usize, usize),
    Skip,
}

/// The spec field that a `FieldRead` of `b` stands for.
pub open spec fn field_read_view(f: FieldRead, b: Seq<u8>) -> WireField {
    match f {
        FieldRead::Num(t, v) => WireField::Num(t, v),
        FieldRead::Bytes(t, s, e) => WireField::Bytes(t, b.subrange(s as int, e as int)),
        FieldRead::Skip => WireField::Skip,
    }
}

/// A field read from `b` at `pos` ends after `pos`, within `b`.
pub proof fn lemma_read_field_progress(ctx: FieldCtx, b: Seq<u8>, pos: nat)
    requires
        pos <= b.len(),
    ensures
        spec_read_field(ctx, b, pos) matches Some((f, np)) ==> pos < np <= b.len(),
{
    lemma_decode_varint_bounds(b.skip(pos as int));
    if let Some((tag, wt, kn)) = spec_decode_key(b.skip(pos as int)) {
        let r1 = b.skip((pos + kn) as int);
        lemma_decode_varint_bounds(r1);
    }
}

/// Reads the field that starts at `pos` in `b`.
pub fn read_field(ctx: &FieldCtx, b: &[u8], pos: usize) -> (r: Option<(FieldRead, usize)>)
    requires
        pos < b@.len(),
    ensures
        match r {
            Some((f, np)) => spec_read_field(*ctx, b@, pos as nat) == Some(
                (field_read_view(f, b@), np as nat),
            ) && (f matches FieldRead::Bytes(_, s, e) ==> s <= e <= b@.len()),
            None => spec_read_field(*ctx, b@, pos as nat) is None,
        },
{
    let blen = b.len();
    let (tag, wt, p1) = match decode_key(b, pos) {
        None => return None,
        Some(k) => k,
    };
    proof {
        lemma_decode_varint_bounds(b@.skip(pos as int));
        lemma_decode_varint_bounds(b@.skip(p1 as int));
    }
    let expect: Option<u64> = match ctx {
        FieldCtx::Body(id) => {
            let nt: Option<u32> = match id {
                MsgId::CsPing | MsgId::ScPing | MsgId::CsFastLogin | MsgId::ScFastLogin
                | MsgId::ScLogin => Some(1u32),
                MsgId::CsLogin => Some(2u32),
                _ => None,
            };
            let tt: Option<u32> = match id {
                MsgId::CsLogin | MsgId::CsEcho | MsgId::ScEcho => Some(1u32),
                _ => None,
            };
            if nt == Some(tag) {
                Some(0u64)
            } else if tt == Some(tag) {
                Some(2u64)
            } else {
                None
            }
        },
        FieldCtx::Envelope(dir) => match tag_kind(*dir, tag) {
            Some(_) => Some(2u64),
            None => None,
        },
    };
    assert(expect == expected_wire_type(*ctx, tag));
    match expect {
        Some(ew) => {
            if wt != ew {
                return None;
            }
            if ew == 0 {
                match decode_varint(b, p1) {
                    None => None,
                    Some((v, p2)) => {
                        let ghost r1 = b@.skip(p1 as int);
                                            assert(spec_decode_varint(r1) == Some((v, (p2 - p1) as nat)));
                        assert(expected_wire_type(*ctx, tag) == Some(0u64));
                        assert(spec_read_field(*ctx, b@, pos as nat) == Some(
                            (field_read_view(FieldRead::Num(tag, v), b@), p2 as nat)));
                        Some((FieldRead::Num(tag, v), p2))
                    },
                }
            } else {
                match decode_varint(b, p1) {
                    None => None,
                    Some((len, p2)) => {
                        proof {
                            lemma_decode_varint_bounds(b@.skip(p1 as int));
                        }
                        if len > (b.len() - p2) as u64 {
                            None
                        } else {
                            let e = p2 + len as usize;
                            Some((FieldRead::Bytes(tag, p2, e), e))
                        }
                    },
                }
            }
        },
        None => {
            let rest = vstd::slice::slice_subrange(b, p1, b.len());
            assert(rest@ =~= b@.skip(p1 as int));
            match pb_skip_field(wt, tag, rest) {
                None => None,
                Some(rem) => Some((FieldRead::Skip, b.len() - rem)),
            }
        },
    }
}


/// Decoding the body of a message of kind `id` from `pos` on, the fields
/// read so far having left the numeric field at `num` and the text field at
/// `text`: each known field replaces the one read before it (a text must be
/// valid UTF-8), unknown fields are skipped.
pub open spec fn spec_decode_body(id: MsgId, b: Seq<u8>, pos: nat, num: u64, text: Seq<char>) -> Option<
    (u64, Seq<char>),
>
    decreases b.len() - pos,
{
    if pos >= b.len() {
        Some((num, text))
    } else {
        match spec_read_field(FieldCtx::Body(id), b, pos) {
            None => None,
            Some((f, np)) => if np <= pos || np > b.len() {
                None
            } else {
                match f {
                    WireField::Num(_, v) => spec_decode_body(id, b, np, v, text),
                    WireField::Bytes(_, bs) => if valid_utf8(bs) {
                        spec_decode_body(id, b, np, num, decode_utf8(bs))
                    } else {
                        None
                    },
                    WireField::Skip => spec_decode_body(id, b, np, num, text),
                }
            },
        }
    }
}

/// Decodes the body `b` of a message of kind `id` into the numeric and text
/// fields, starting from `num` and `text` (the fields of a message the body
/// is merged into).
pub fn decode_body(id: MsgId, b: &[u8], num: u64, text: String) -> (r: Option<(u64, String)>)
    ensures
        match r {
            Some((n, t)) => spec_decode_body(id, b@, 0, num, text@) == Some((n, t@)),
            None => spec_decode_body(id, b@, 0, num, text@) is None,
        },
{
    let ghost start = (num, text@);
    let mut pos: usize = 0;
    let mut cur_num = num;
    let mut cur_text = text;
    let ctx = FieldCtx::Body(id);
    while pos < b.len()
        invariant
            pos <= b@.len(),
            ctx == FieldCtx::Body(id),
            start.0 == num,
            start.1 == text@,
            spec_decode_body(id, b@, 0, start.0, start.1) == spec_decode_body(id, b@, pos as nat, cur_num, cur_text@),
        decreases b@.len() - pos,
    {
        proof {
            lemma_read_field_progress(ctx, b@, pos as nat);
        }
        match read_field(&ctx, b, pos) {
            None => {
                assert(spec_decode_body(id, b@, pos as nat, cur_num, cur_text@) is None);
                return None;
            },
            Some((f, np)) => {
                match f {
                    FieldRead::Num(_, v) => {
                        cur_num = v;
                    },
                    FieldRead::Bytes(_, s, e) => {
                        let sub = vstd::slice::slice_subrange(b, s, e);
                        let bytes = vstd::slice::slice_to_vec(sub);
                        match string_from_utf8(bytes) {
                            None => return None,
                            Some(t) => {
                                cur_text = t;
                            },
                        }
                    },
                    FieldRead::Skip => {},
                }
                pos = np;
            },
        }
    }
    Some((cur_num, cur_text))
}

/// Decoding an envelope of direction `dir` from `pos` on, `acc` holding the
/// message read so far (its kind and fields): a message field of the same
/// kind as `acc` is merged into it, one of another kind replaces it; unknown
/// fields are skipped. The result is the message the envelope holds, if any.
pub open spec fn spec_decode_envelope(
    dir: Direction,
    b: Seq<u8>,
    pos: nat,
    acc: Option<(MsgId, u64, Seq<char>)>,
) -> Option<Option<(MsgId, u64, Seq<char>)>>
    decreases b.len() - pos,
{
    if pos >= b.len() {
        Some(acc)
    } else {
        match spec_read_field(FieldCtx::Envelope(dir), b, pos) {
            None => None,
            Some((f, np)) => if np <= pos || np > b.len() {
                None
            } else {
                match f {
                    WireField::Bytes(tag, sub) => match spec_tag_kind(dir, tag) {
                        None => None,
                        Some(k) => {
                            let base: (u64, Seq<char>) = match acc {
                                Some((k2, n, t)) => if k2 == k {
                                    (n, t)
                                } else {
                                    (0u64, Seq::empty())
                                },
                                None => (0u64, Seq::empty()),
                            };
                            match spec_decode_body(k, sub, 0, base.0, base.1) {
                                None => None,
                                Some((n, t)) => spec_decode_envelope(dir, b, np, Some((k, n, t))),
                            }
                        },
                    },
                    WireField::Skip => spec_decode_envelope(dir, b, np, acc),
                    WireField::Num(_, _) => None,
                }
            },
        }
    }
}

/// The message that a decoded envelope yields.
pub open spec fn envelope_message(r: Option<(MsgId, u64, Seq<char>)>) -> Option<MsgView> {
    match r {
        Some((k, n, t)) => Some(view_from_parts(k, n, t)),
        None => None,
    }
}

/// Decodes an envelope of direction `dir`: the message it holds, `Ok(None)`
/// when it holds none, `Err(())` when the bytes are not a valid envelope.
pub fn decode_envelope(dir: Direction, b: &[u8]) -> (r: Result<Option<Registry>, ()>)
    ensures
        match r {
            Ok(m) => spec_decode_envelope(dir, b@, 0, None) matches Some(d)
                && envelope_message(d) == (match m {
                Some(x) => Some(x@),
                None => None,
            }),
            Err(_) => spec_decode_envelope(dir, b@, 0, None) is None,
        },
        r matches Ok(Some(m)) ==> id_in_direction(dir, m@.id),
{
    let mut pos: usize = 0;
    let mut acc: Option<(MsgId, u64, String)> = None;
    let ctx = FieldCtx::Envelope(dir);
    while pos < b.len()
        invariant
            pos <= b@.len(),
            ctx == FieldCtx::Envelope(dir),
            spec_decode_envelope(dir, b@, 0, None) == spec_decode_envelope(
                dir,
                b@,
                pos as nat,
                match acc {
                    Some((k, n, t)) => Some((k, n, t@)),
                    None => None,
                },
            ),
            acc matches Some((k, n, t)) ==> id_in_direction(dir, k),
        decreases b@.len() - pos,
    {
        proof {
            lemma_read_field_progress(ctx, b@, pos as nat);
        }
        match read_field(&ctx, b, pos) {
            None => return Err(()),
            Some((f, np)) => {
                match f {
                    FieldRead::Bytes(tag, s, e) => {
                        let k = match tag_kind(dir, tag) {
                            None => return Err(()),
                            Some(k) => k,
                        };
                        let (n0, t0) = match acc {
                            Some((k2, n, t)) => if k2 == k {
                                (n, t)
                            } else {
                                (0u64, String::new())
                            },
                            None => (0u64, String::new()),
                        };
                        let sub = vstd::slice::slice_subrange(b, s, e);
                        match decode_body(k, sub, n0, t0) {
                            None => return Err(()),
                            Some((n, t)) => {
                                acc = Some((k, n, t));
                            },
                        }
                    },
                    FieldRead::Skip => {},
                    FieldRead::Num(_, _) => return Err(()),
                }
                pos = np;
            },
        }
    }
    match acc {
        None => Ok(None),
        Some((k, n, t)) => Ok(Some(Registry::from_parts(k, n, t))),
    }
}


/// A numeric field: its key and varint, or nothing when the value is zero.
pub open spec fn spec_num_field(tag: u32, num: u64) -> Seq<u8> {
    if num == 0 {
        Seq::empty()
    } else {
        spec_key(tag, 0) + spec_varint(num)
    }
}

/// A text field: its key, the length of its UTF-8 bytes and the bytes, or
/// nothing when the text is empty.
pub open spec fn spec_text_field(tag: u32, text: Seq<char>) -> Seq<u8> {
    if text.len() == 0 {
        Seq::empty()
    } else {
        spec_key(tag, 2) + spec_varint(encode_utf8(text).len() as u64) + encode_utf8(text)
    }
}

/// The body of a message of kind `id`: its fields in field-number order
/// (the text field, numbered 1, before the numeric field when a kind has
/// both).
pub open spec fn spec_encode_body(id: MsgId, num: u64, text: Seq<char>) -> Seq<u8> {
    (match text_tag(id) {
        Some(t) => spec_text_field(t, text),
        None => Seq::empty(),
    }) + (match num_tag(id) {
        Some(t) => spec_num_field(t, num),
        None => Seq::empty(),
    })
}

/// The envelope of a message: the message body as the length-delimited
/// field numbered by the message's registry identifier.
pub open spec fn spec_encode_envelope(v: MsgView) -> Seq<u8> {
    let body = spec_encode_body(v.id, v.num, v.text);
    spec_key(kind_tag(v.id), 2) + spec_varint(body.len() as u64) + body
}

/// Appends `bytes` to `buf`.
pub fn append_bytes(buf: &mut Vec<u8>, bytes: &[u8])
    ensures
        final(buf)@ == old(buf)@ + bytes@,
{
    let mut i: usize = 0;
    while i < bytes.len()
        invariant
            i <= bytes@.len(),
            buf@ == old(buf)@ + bytes@.take(i as int),
        decreases bytes@.len() - i,
    {
        buf.push(bytes[i]);
        assert(bytes@.take(i + 1) =~= bytes@.take(i as int).push(bytes@[i as int]));
        i = i + 1;
    }
    assert(bytes@.take(bytes@.len() as int) =~= bytes@);
}

/// Appends the key of field `tag` with wire type `wt`.
pub fn encode_key(tag: u32, wt: u64, buf: &mut Vec<u8>)
    requires
        wt <= 7,
    ensures
        final(buf)@ == old(buf)@ + spec_key(tag, wt),
{
    encode_varint((((tag as u64) << 3u64) | wt) as u64, buf);
}

/// Appends the protobuf body of `m`.
pub fn encode_body(m: &Registry, buf: &mut Vec<u8>)
    ensures
        final(buf)@ == old(buf)@ + spec_encode_body(m@.id, m@.num, m@.text),
{
    let id = m.id();
    let num = m.num();
    let text = m.text();
    let ghost start = buf@;
    let tt: Option<u32> = match id {
        MsgId::CsLogin | MsgId::CsEcho | MsgId::ScEcho => Some(1u32),
        _ => None,
    };
    let nt: Option<u32> = match id {
        MsgId::CsPing | MsgId::ScPing | MsgId::CsFastLogin | MsgId::ScFastLogin
        | MsgId::ScLogin => Some(1u32),
        MsgId::CsLogin => Some(2u32),
        _ => None,
    };
    if let Some(t) = tt {
        if !text.is_empty() {
            encode_key(t, 2, buf);
            let bytes = text.as_bytes();
            encode_varint(bytes.len() as u64, buf);
            append_bytes(buf, bytes);
        }
    }
    let ghost mid = buf@;
    assert(mid =~= start + match text_tag(id) {
        Some(t) => spec_text_field(t, text@),
        None => Seq::empty(),
    });
    if let Some(t) = nt {
        if num != 0 {
            encode_key(t, 0, buf);
            encode_varint(num, buf);
        }
    }
    assert(buf@ =~= start + spec_encode_body(id, num, text@));
}

/// Appends the envelope of `m`.
pub fn encode_envelope(m: &Registry, buf: &mut Vec<u8>)
    ensures
        final(buf)@ == old(buf)@ + spec_encode_envelope(m@),
{
    let mut body: Vec<u8> = Vec::new();
    encode_body(m, &mut body);
    assert(body@ =~= spec_encode_body(m@.id, m@.num, m@.text));
    let tag = m.msgid() as u32;
    encode_key(tag, 2, buf);
    encode_varint(body.len() as u64, buf);
    append_bytes(buf, body.as_slice());
    assert(buf@ =~= old(buf)@ + spec_encode_envelope(m@));
}

/// Skipping past the first part of what follows `pos`.
pub proof fn lemma_skip_concat(b: Seq<u8>, pos: nat, a: Seq<u8>, c: Seq<u8>)
    requires
        pos <= b.len(),
        b.skip(pos as int) == a + c,
    ensures
        b.skip((pos + a.len()) as int) == c,
        b.len() == pos + a.len() + c.len(),
{
    assert(b.skip(pos as int).len() == b.len() - pos);
    assert forall|i: int| 0 <= i < c.len() implies b.skip((pos + a.len()) as int)[i] == c[i] by {
        assert(b.skip(pos as int)[a.len() + i] == b[pos + a.len() + i]);
        assert((a + c)[a.len() + i] == c[i]);
    }
    assert(b.skip((pos + a.len()) as int) =~= c);
}

/// Reading a varint field written by the encoder.
proof fn lemma_read_num(ctx: FieldCtx, b: Seq<u8>, pos: nat, tag: u32, v: u64, rest: Seq<u8>)
    requires
        pos <= b.len(),
        b.skip(pos as int) == spec_key(tag, 0) + spec_varint(v) + rest,
        1 <= tag <= max_tag(),
        expected_wire_type(ctx, tag) == Some(0u64),
    ensures
        spec_read_field(ctx, b, pos) == Some(
            (WireField::Num(tag, v), pos + spec_key(tag, 0).len() + spec_varint(v).len()),
        ),
        b.skip((pos + spec_key(tag, 0).len() + spec_varint(v).len()) as int) == rest,
        b.len() == pos + spec_key(tag, 0).len() + spec_varint(v).len() + rest.len(),
{
    let k = spec_key(tag, 0);
    let vv = spec_varint(v);
    assert(b.skip(pos as int) =~= k + (vv + rest));
    lemma_key_roundtrip(tag, 0, vv + rest);
    lemma_skip_concat(b, pos, k, vv + rest);
    lemma_varint_roundtrip(v, rest);
    lemma_skip_concat(b, pos + k.len(), vv, rest);
}

/// Reading a length-delimited field written by the encoder.
proof fn lemma_read_bytes(ctx: FieldCtx, b: Seq<u8>, pos: nat, tag: u32, bytes: Seq<u8>, rest: Seq<u8>)
    requires
        pos <= b.len(),
        b.skip(pos as int) == spec_key(tag, 2) + spec_varint(bytes.len() as u64) + bytes + rest,
        bytes.len() <= u64::MAX,
        1 <= tag <= max_tag(),
        expected_wire_type(ctx, tag) == Some(2u64),
    ensures
        spec_read_field(ctx, b, pos) == Some(
            (
                WireField::Bytes(tag, bytes),
                pos + spec_key(tag, 2).len() + spec_varint(bytes.len() as u64).len() + bytes.len(),
            ),
        ),
        b.skip(
            (pos + spec_key(tag, 2).len() + spec_varint(bytes.len() as u64).len()
                + bytes.len()) as int,
        ) == rest,
        b.len() == pos + spec_key(tag, 2).len() + spec_varint(bytes.len() as u64).len()
            + bytes.len() + rest.len(),
{
    let k = spec_key(tag, 2);
    let lv = spec_varint(bytes.len() as u64);
    assert(b.skip(pos as int) =~= k + (lv + bytes + rest));
    lemma_key_roundtrip(tag, 2, lv + bytes + rest);
    let p1 = pos + k.len();
    lemma_skip_concat(b, pos, k, lv + bytes + rest);
    assert(lv + bytes + rest =~= lv + (bytes + rest));
    lemma_skip_concat(b, p1, lv, bytes + rest);
    lemma_varint_roundtrip(bytes.len() as u64, bytes + rest);
    let s = p1 + lv.len();
    assert(b.subrange(s as int, (s + bytes.len()) as int) =~= bytes) by {
        assert forall|i: int| 0 <= i < bytes.len() implies b[s + i] == bytes[i] by {
            assert(b.skip(s as int)[i] == b[s + i]);
            assert((bytes + rest)[i] == bytes[i]);
        }
    }
    lemma_skip_concat(b, s, bytes, rest);
}

/// Decoding the numeric part of a body, from a state where the numeric
/// field is still zero.
proof fn lemma_body_num_tail(id: MsgId, b: Seq<u8>, p: nat, num: u64, text: Seq<char>)
    requires
        p <= b.len(),
        b.skip(p as int) == (match num_tag(id) {
            Some(t) => spec_num_field(t, num),
            None => Seq::<u8>::empty(),
        }),
        num_tag(id) is None ==> num == 0,
    ensures
        spec_decode_body(id, b, p, 0, text) == Some((num, text)),
{
    if num_tag(id) is Some && num != 0 {
        let t = num_tag(id).unwrap();
        assert(b.skip(p as int) =~= spec_key(t, 0) + spec_varint(num) + Seq::<u8>::empty());
        lemma_read_num(FieldCtx::Body(id), b, p, t, num, Seq::<u8>::empty());
        let np = p + spec_key(t, 0).len() + spec_varint(num).len();
        lemma_varint_len(num);
        assert(spec_decode_body(id, b, np, num, text) == Some((num, text)));
    } else {
        assert(b.skip(p as int).len() == 0);
    }
}

/// Decoding a body written by the encoder gives back its fields.
pub proof fn lemma_body_roundtrip(id: MsgId, num: u64, text: Seq<char>)
    requires
        num_tag(id) is None ==> num == 0,
        text_tag(id) is None ==> text.len() == 0,
        spec_encode_body(id, num, text).len() <= u64::MAX,
    ensures
        spec_decode_body(id, spec_encode_body(id, num, text), 0, 0, Seq::empty()) == Some(
            (num, text),
        ),
{
    let b = spec_encode_body(id, num, text);
    let tpart = match text_tag(id) {
        Some(t) => spec_text_field(t, text),
        None => Seq::<u8>::empty(),
    };
    let npart = match num_tag(id) {
        Some(t) => spec_num_field(t, num),
        None => Seq::<u8>::empty(),
    };
    if text_tag(id) is Some && text.len() != 0 {
        let bytes = encode_utf8(text);
        assert(b.skip(0) =~= spec_key(1, 2) + spec_varint(bytes.len() as u64) + bytes + npart);
        assert(b == tpart + npart);
        assert(tpart == spec_key(1, 2) + spec_varint(bytes.len() as u64) + bytes);
        assert(b.len() >= bytes.len());
        assert(expected_wire_type(FieldCtx::Body(id), 1) == Some(2u64));
        lemma_read_bytes(FieldCtx::Body(id), b, 0, 1, bytes, npart);
        let p = spec_key(1, 2).len() + spec_varint(bytes.len() as u64).len() + bytes.len();
        lemma_varint_len(bytes.len() as u64);
        lemma_body_num_tail(id, b, p, num, text);
        assert(valid_utf8(bytes));
        assert(decode_utf8(bytes) == text);
        assert(spec_read_field(FieldCtx::Body(id), b, 0) == Some((WireField::Bytes(1, bytes), p)));
        assert(spec_decode_body(id, b, 0, 0, Seq::empty()) == spec_decode_body(id, b, p, 0, text));
    } else {
        assert(text.len() == 0);
        assert(text =~= Seq::<char>::empty());
        assert(b.skip(0) =~= npart);
        lemma_body_num_tail(id, b, 0, num, text);
    }
}

/// The envelope field of each message kind is its registry identifier.
proof fn lemma_tag_kind(dir: Direction, id: MsgId)
    requires
        id_in_direction(dir, id),
    ensures
        spec_tag_kind(dir, kind_tag(id)) == Some(id),
        1 <= kind_tag(id) <= max_tag(),
{
}

/// Decoding the envelope of a message gives the message back: its kind and
/// fields, and so the message itself.
pub proof fn lemma_envelope_roundtrip(dir: Direction, v: MsgView)
    requires
        view_is_canonical(v),
        id_in_direction(dir, v.id),
        spec_encode_body(v.id, v.num, v.text).len() <= u64::MAX,
    ensures
        spec_decode_envelope(dir, spec_encode_envelope(v), 0, None) == Some(
            Some((v.id, v.num, v.text)),
        ),
        envelope_message(Some((v.id, v.num, v.text))) == Some(v),
{
    let body = spec_encode_body(v.id, v.num, v.text);
    let b = spec_encode_envelope(v);
    let tag = kind_tag(v.id);
    lemma_tag_kind(dir, v.id);
    assert(b.skip(0) =~= spec_key(tag, 2) + spec_varint(body.len() as u64) + body + Seq::<u8>::empty());
    lemma_read_bytes(FieldCtx::Envelope(dir), b, 0, tag, body, Seq::<u8>::empty());
    lemma_body_roundtrip(v.id, v.num, v.text);
    lemma_varint_len(body.len() as u64);
    assert(b.len() >= 1);
    assert(spec_decode_body(v.id, body, 0, 0u64, Seq::empty()) == Some((v.num, v.text)));
    assert(spec_decode_envelope(dir, b, b.len(), Some((v.id, v.num, v.text))) == Some(
        Some((v.id, v.num, v.text)),
    ));
}

} // verus!
