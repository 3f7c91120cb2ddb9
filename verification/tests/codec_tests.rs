use admin::codec::{CodecError, Decoder, Encoder};
use admin::legacy_codec::{Decoder as RegistryDecoder, Encoder as RegistryEncoder};
use admin::msg::{CsEcho, CsLogin, CsMsg, CsPing, Registry, ScEcho, ScFastLogin, ScLogin, ScMsg, ScPing};
use admin::varint::{decode_varint, encode_varint};
use admin::wire::{decode_envelope, encode_envelope, Direction};
use prost::encoding::{encode_key, encode_varint as prost_varint, WireType};

fn prost_envelope(tag: u32, body: &[u8]) -> Vec<u8> {
    let mut out = Vec::new();
    encode_key(tag, WireType::LengthDelimited, &mut out);
    prost_varint(body.len() as u64, &mut out);
    out.extend_from_slice(body);
    out
}

fn framed(payload: &[u8]) -> Vec<u8> {
    let mut out = (payload.len() as u32).to_be_bytes().to_vec();
    out.extend_from_slice(payload);
    out
}

#[test]
fn encoder_frames_echo_as_prost_does() {
    let mut body = Vec::new();
    prost::encoding::string::encode(1, &"hi".to_string(), &mut body);
    let expected = framed(&prost_envelope(201, &body));
    let mut dst = Vec::new();
    let mut enc = Encoder;
    enc.encode(CsMsg::CsEcho(CsEcho { content: "hi".to_string() }), &mut dst).unwrap();
    assert_eq!(dst, expected);
    assert_eq!(dst, vec![0, 0, 0, 7, 0xCA, 0x0C, 0x04, 0x0A, 0x02, b'h', b'i']);
}

#[test]
fn encoder_frames_login_as_prost_does() {
    let mut body = Vec::new();
    prost::encoding::string::encode(1, &"tok".to_string(), &mut body);
    prost::encoding::int64::encode(2, &42i64, &mut body);
    let expected = framed(&prost_envelope(101, &body));
    let mut dst = Vec::new();
    Encoder
        .encode(CsMsg::CsLogin(CsLogin { token: "tok".to_string(), player_id: 42 }), &mut dst)
        .unwrap();
    assert_eq!(dst, expected);
}

#[test]
fn decoder_reads_reply_written_by_prost() {
    let mut body = Vec::new();
    prost::encoding::int32::encode(1, &0i32, &mut body);
    let mut src = framed(&prost_envelope(104, &body));
    let mut dec = Decoder::default();
    let got = dec.decode(&mut src).unwrap();
    assert_eq!(got, Some(ScMsg::ScFastLogin(ScFastLogin { err_code: 0 })));
    assert!(src.is_empty());
}

#[test]
fn decoder_waits_for_header() {
    let mut src = vec![0, 0];
    let mut dec = Decoder::new();
    assert_eq!(dec.decode(&mut src), Ok(None));
    assert_eq!(src, vec![0, 0]);
}

#[test]
fn decoder_takes_header_of_incomplete_frame() {
    let mut full = Vec::new();
    RegistryEncoder.encode(Registry::ScEcho(ScEcho { reply: "abc".to_string() }), &mut full).unwrap();
    let mut src = full[..6].to_vec();
    let mut dec = Decoder::new();
    assert_eq!(dec.decode(&mut src), Ok(None));
    assert_eq!(src, full[4..6].to_vec());
}

#[test]
fn decoder_reports_empty_envelope() {
    let mut src = framed(&[]);
    let mut dec = Decoder::new();
    assert_eq!(dec.decode(&mut src), Err(CodecError::PayloadNone));
    assert!(src.is_empty());
}

#[test]
fn decoder_reports_garbage() {
    let mut src = framed(&[0xff]);
    let mut dec = Decoder::new();
    assert_eq!(dec.decode(&mut src), Err(CodecError::Decode));
}

#[test]
fn decoder_skips_request_on_reply_side() {
    let mut src = Vec::new();
    Encoder.encode(CsMsg::CsPing(CsPing { seq: 3 }), &mut src).unwrap();
    let mut dec = Decoder::new();
    assert_eq!(dec.decode(&mut src), Err(CodecError::PayloadNone));
}

#[test]
fn registry_codec_roundtrip_two_frames() {
    let a = Registry::ScLogin(ScLogin { err_code: -7 });
    let b = Registry::CsEcho(CsEcho { content: "héllo".to_string() });
    let mut buf = Vec::new();
    RegistryEncoder.encode(a.clone(), &mut buf).unwrap();
    RegistryEncoder.encode(b.clone(), &mut buf).unwrap();
    let mut dec = RegistryDecoder::default();
    assert_eq!(dec.decode(&mut buf), Ok(Some(a)));
    assert_eq!(dec.decode(&mut buf), Ok(Some(b)));
    assert!(buf.is_empty());
}

#[test]
fn registry_codec_roundtrip_ping() {
    let m = Registry::ScPing(ScPing { seq: i64::MIN });
    let mut buf = Vec::new();
    RegistryEncoder.encode(m.clone(), &mut buf).unwrap();
    assert_eq!(RegistryDecoder::new().decode(&mut buf), Ok(Some(m)));
}

#[test]
fn envelope_skips_unknown_fields() {
    let mut body = Vec::new();
    prost::encoding::string::encode(1, &"x".to_string(), &mut body);
    prost::encoding::uint64::encode(9, &5u64, &mut body);
    let payload = prost_envelope(202, &body);
    let got = decode_envelope(Direction::ToClient, &payload).unwrap();
    assert_eq!(got, Some(Registry::ScEcho(ScEcho { reply: "x".to_string() })));
}

#[test]
fn envelope_roundtrip_default_message() {
    let m = Registry::CsPing(CsPing { seq: 0 });
    let mut payload = Vec::new();
    encode_envelope(&m, &mut payload);
    assert_eq!(payload, vec![0x0A, 0x00]);
    assert_eq!(decode_envelope(Direction::Any, &payload), Ok(Some(m)));
}

#[test]
fn varint_roundtrip() {
    for v in [0u64, 1, 127, 128, 300, u64::MAX] {
        let mut buf = Vec::new();
        encode_varint(v, &mut buf);
        let mut p = Vec::new();
        prost_varint(v, &mut p);
        assert_eq!(buf, p);
        assert_eq!(decode_varint(&buf, 0), Some((v, buf.len())));
    }
    assert_eq!(decode_varint(&[0x80], 0), None);
}
