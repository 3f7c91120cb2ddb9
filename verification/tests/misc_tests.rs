use admin::cmd::{CmdError, GameCmd};
use admin::json::{cs_msg_from_json, JsonNumber, JsonValue};
use admin::line_decoder::{Decoder as LineDecoder, InvalidUtf8};
use admin::msg::{CsEcho, CsFastLogin, CsMsg, ErrCode, Registry, ScFastLogin, ScLogin, ScMsg};
use admin::msgid::MsgId;
use admin::num::parse_i64;
use admin::text::split_whitespace;

#[test]
fn line_decoder_collects_across_chunks() {
    let mut d = LineDecoder::new(1024);
    let mut a = b"ab".to_vec();
    assert_eq!(d.decode(&mut a), Ok(None));
    assert!(a.is_empty());
    let mut b = b"c\nd".to_vec();
    assert_eq!(d.decode(&mut b), Ok(Some("abc".to_string())));
    assert_eq!(b, b"d".to_vec());
    let mut c = b"\n".to_vec();
    assert_eq!(d.decode(&mut c), Ok(Some(String::new())));
}

#[test]
fn line_decoder_same_line_in_one_chunk() {
    let mut d = LineDecoder::new(0);
    let mut all = b"abc\nd".to_vec();
    assert_eq!(d.decode(&mut all), Ok(Some("abc".to_string())));
    assert_eq!(all, b"d".to_vec());
}

#[test]
fn line_decoder_rejects_invalid_utf8() {
    let mut d = LineDecoder::new(8);
    let mut src = vec![0xff, b'\n', b'x'];
    assert_eq!(d.decode(&mut src), Err(InvalidUtf8));
    assert_eq!(src, b"x".to_vec());
}

#[test]
fn msg_ids() {
    assert_eq!(MsgId::CsEcho.as_str_name(), "CsEcho");
    assert_eq!(MsgId::Reserved.as_str_name(), "__RESERVED");
    assert_eq!(MsgId::ScFastLogin.value(), 104);
    assert_eq!(MsgId::from_i32(202), Some(MsgId::ScEcho));
    assert_eq!(MsgId::from_i32(3), None);
}

#[test]
fn registry_parts() {
    let m = Registry::CsEcho(CsEcho { content: "x".to_string() });
    assert_eq!(m.msgid(), 201);
    assert_eq!(m.name(), "CsEcho");
    assert_eq!(m.text(), "x");
    assert_eq!(m.clone().into_cs_msg(), Some(CsMsg::CsEcho(CsEcho { content: "x".to_string() })));
    assert_eq!(m.into_sc_msg(), None);
    let r = Registry::from_parts(MsgId::CsFastLogin, 7, String::new());
    assert_eq!(r, Registry::CsFastLogin(CsFastLogin { player_id: 7 }));
    assert_eq!(ScMsg::ScFastLogin(ScFastLogin { err_code: 1 }).into_registry().msgid(), 104);
    assert_eq!(ScLogin { err_code: 0 }.err_code(), ErrCode::Success);
    assert_eq!(ScLogin { err_code: -2 }.err_code(), ErrCode::Failure(-2));
}

#[test]
fn numbers_and_words() {
    assert_eq!(parse_i64("-9223372036854775808"), Some(i64::MIN));
    assert_eq!(parse_i64("+12"), Some(12));
    assert_eq!(parse_i64(""), None);
    assert_eq!(parse_i64("1 "), None);
    let w = split_whitespace(" a\tbc\u{3000}d ");
    assert_eq!(w, vec![vec!['a'], vec!['b', 'c'], vec!['d']]);
    let mut d = LineDecoder::new(4);
    let mut src = "é\n".as_bytes().to_vec();
    assert_eq!(d.decode(&mut src), Ok(Some("é".to_string())));
}

#[test]
fn json_requests() {
    let echo = JsonValue::Object(vec![(
        "CsEcho".to_string(),
        JsonValue::Array(vec![JsonValue::Str("hi".to_string())]),
    )]);
    assert_eq!(cs_msg_from_json(&echo), Some(CsMsg::CsEcho(CsEcho { content: "hi".to_string() })));
    let fast = |n: JsonNumber| {
        JsonValue::Object(vec![(
            "CsFastLogin".to_string(),
            JsonValue::Object(vec![
                ("player_id".to_string(), JsonValue::Number(n)),
                ("extra".to_string(), JsonValue::Bool(true)),
            ]),
        )])
    };
    assert_eq!(cs_msg_from_json(&fast(JsonNumber::Float)), None);
    assert_eq!(cs_msg_from_json(&fast(JsonNumber::PosInt(9223372036854775808))), None);
    assert_eq!(cs_msg_from_json(&fast(JsonNumber::NegInt(-5))), Some(CsMsg::CsFastLogin(CsFastLogin { player_id: -5 })));
    assert_eq!(cs_msg_from_json(&JsonValue::Null), None);
}

#[test]
fn json_through_the_console() {
    assert_eq!(
        GameCmd::from_str("send CsEcho [\"hi\"]"),
        Ok(GameCmd::Send(CsMsg::CsEcho(CsEcho { content: "hi".to_string() })))
    );
    assert_eq!(
        GameCmd::from_str("send CsFastLogin {\"player_id\":1.5}"),
        Err(CmdError::Json)
    );
    assert_eq!(
        GameCmd::from_str("send CsFastLogin {\"player_id\":-5,\"extra\":[1,-2,0.5,null]}"),
        Ok(GameCmd::Send(CsMsg::CsFastLogin(CsFastLogin { player_id: -5 })))
    );
}
