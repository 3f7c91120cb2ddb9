//! JSON values as the console reads them, and the messages they describe.
use vstd::prelude::*;
use crate::msgid::MsgId;
use crate::msg::{CsMsg, CsPing, CsLogin, CsFastLogin, CsEcho, MsgView, view_from_parts};
use crate::text::str_eq;

verus! {

#[verifier::external_type_specification]
#[verifier::external_body]
pub struct ExJsonValue(serde_json::Value);

#[verifier::external_type_specification]
#[verifier::external_body]
pub struct ExJsonNumber(serde_json::Number);

/// A JSON number as `serde_json` holds it.
#[derive(Debug)]
pub enum JsonNumber {
    /// A non-negative integer that fits `u64`.
    PosInt(u64),
    /// A negative integer that fits `i64`.
    NegInt(i64),
    /// Any other number.
    Float,
}

/// A JSON value; an object lists its members in the order `serde_json`
/// keeps them.
#[derive(Debug)]
pub enum JsonValue {
    Null,
    Bool(bool),
    Number(JsonNumber),
    Str(String),
    Array(Vec<JsonValue>),
    Object(Vec<(String, JsonValue)>),
}

/// What `serde_json::from_str` makes of `text`: the value it parses, or
/// the text of its error when `text` is not JSON.
pub uninterp spec fn serde_json_parse(text: Seq<char>) -> Result<JsonValue, Seq<char>>;


/// Reads a `serde_json::Number`: its `as_u64`, else its `as_i64`, else a
/// float.
#[verifier::external_body]
fn number_from_serde(n: &serde_json::Number) -> JsonNumber {
    match (n.as_u64(), n.as_i64()) {
        (Some(u), _) => JsonNumber::PosInt(u),
        (None, Some(i)) => JsonNumber::NegInt(i),
        (None, None) => JsonNumber::Float,
    }
}

/// Turns a `serde_json::Value` into a `JsonValue`, variant by variant.
#[verifier::external_body]
fn json_from_serde(v: serde_json::Value) -> JsonValue {
    match v {
        serde_json::Value::Null => JsonValue::Null,
        serde_json::Value::Bool(b) => JsonValue::Bool(b),
        serde_json::Value::Number(n) => JsonValue::Number(number_from_serde(&n)),
        serde_json::Value::String(s) => JsonValue::Str(s),
        serde_json::Value::Array(a) => JsonValue::Array(a.into_iter().map(json_from_serde).collect()),
        serde_json::Value::Object(m) => JsonValue::Object(m.into_iter().map(|(k, x)| (k, json_from_serde(x))).collect()),
    }
}

/// Calls `serde_json::from_str` to parse `text` as a JSON value, and gives
/// the error's text (its `Display`) when it fails; both are functions of
/// the text alone.
#[verifier::external_body]
pub(crate) fn parse_json(text: &str) -> (r: Result<JsonValue, String>)
    ensures
        match r {
            Ok(v) => serde_json_parse(text@) == Ok::<JsonValue, Seq<char>>(v),
            Err(t) => serde_json_parse(text@) == Err::<JsonValue, Seq<char>>(t@),
        },
{
    match serde_json::from_str::<serde_json::Value>(text) {
        Ok(v) => Ok(json_from_serde(v)),
        Err(e) => Err(e.to_string()),
    }
}

/// The `i64` that a JSON value deserializes to: an integer in range.
pub open spec fn json_i64(v: JsonValue) -> Option<i64> {
    match v {
        JsonValue::Number(JsonNumber::PosInt(u)) => if u <= i64::MAX as u64 {
            Some(u as i64)
        } else {
            None
        },
        JsonValue::Number(JsonNumber::NegInt(i)) => Some(i),
        _ => None,
    }
}

/// The string that a JSON value deserializes to.
pub open spec fn json_str(v: JsonValue) -> Option<Seq<char>> {
    match v {
        JsonValue::Str(s) => Some(s@),
        _ => None,
    }
}

/// The value of the first member named `key`.
pub open spec fn member(ms: Seq<(String, JsonValue)>, key: Seq<char>) -> Option<JsonValue>
    decreases ms.len(),
{
    if ms.len() == 0 {
        None
    } else if ms[0].0@ == key {
        Some(ms[0].1)
    } else {
        member(ms.drop_first(), key)
    }
}

/// The names of the fields of each request, in declaration order.
pub open spec fn field_names(id: MsgId) -> Seq<Seq<char>> {
    match id {
        MsgId::CsPing => seq!["seq"@],
        MsgId::CsLogin => seq!["token"@, "player_id"@],
        MsgId::CsFastLogin => seq!["player_id"@],
        _ => seq!["content"@],
    }
}

/// The field values of a request given in order: the numeric and text
/// fields, if each has the right type.
pub open spec fn fields_from_values(id: MsgId, vals: Seq<JsonValue>) -> Option<(u64, Seq<char>)> {
    match id {
        MsgId::CsPing | MsgId::CsFastLogin => match json_i64(vals[0]) {
            Some(n) => Some((n as u64, Seq::empty())),
            None => None,
        },
        MsgId::CsLogin => match (json_str(vals[0]), json_i64(vals[1])) {
            (Some(t), Some(n)) => Some((n as u64, t)),
            _ => None,
        },
        _ => match json_str(vals[0]) {
            Some(t) => Some((0u64, t)),
            None => None,
        },
    }
}

/// The fields of a request of kind `id` that a JSON value deserializes to:
/// an object with all the fields (others are ignored), or an array of the
/// field values in order.
pub open spec fn spec_fields_from_json(id: MsgId, v: JsonValue) -> Option<(u64, Seq<char>)> {
    let names = field_names(id);
    match v {
        JsonValue::Object(ms) => {
            let ms = ms@;
            if forall|i: int| 0 <= i < names.len() ==> member(ms, #[trigger] names[i]) is Some {
                fields_from_values(id, Seq::new(names.len(), |i: int| member(ms, names[i]).unwrap()))
            } else {
                None
            }
        },
        JsonValue::Array(items) => if items@.len() == names.len() {
            fields_from_values(id, items@)
        } else {
            None
        },
        _ => None,
    }
}

/// The request kind named `name`.
pub open spec fn cs_kind_named(name: Seq<char>) -> Option<MsgId> {
    if name == "CsPing"@ {
        Some(MsgId::CsPing)
    } else if name == "CsLogin"@ {
        Some(MsgId::CsLogin)
    } else if name == "CsFastLogin"@ {
        Some(MsgId::CsFastLogin)
    } else if name == "CsEcho"@ {
        Some(MsgId::CsEcho)
    } else {
        None
    }
}

/// The request that a JSON value deserializes to: an object with a single
/// member, named after the request kind, holding the request's fields.
pub open spec fn spec_cs_msg_from_json(v: JsonValue) -> Option<MsgView> {
    match v {
        JsonValue::Object(ms) => if ms@.len() == 1 {
            match cs_kind_named(ms@[0].0@) {
                Some(k) => match spec_fields_from_json(k, ms@[0].1) {
                    Some((n, t)) => Some(view_from_parts(k, n, t)),
                    None => None,
                },
                None => None,
            }
        } else {
            None
        },
        _ => None,
    }
}

fn kind_named(name: &str) -> (r: Option<MsgId>)
    ensures
        r == cs_kind_named(name@),
{
    if str_eq(name, "CsPing") {
        Some(MsgId::CsPing)
    } else if str_eq(name, "CsLogin") {
        Some(MsgId::CsLogin)
    } else if str_eq(name, "CsFastLogin") {
        Some(MsgId::CsFastLogin)
    } else if str_eq(name, "CsEcho") {
        Some(MsgId::CsEcho)
    } else {
        None
    }
}

fn json_to_i64(v: &JsonValue) -> (r: Option<i64>)
    ensures
        r == json_i64(*v),
{
    match v {
        JsonValue::Number(JsonNumber::PosInt(u)) => if *u <= i64::MAX as u64 {
            Some(*u as i64)
        } else {
            None
        },
        JsonValue::Number(JsonNumber::NegInt(i)) => Some(*i),
        _ => None,
    }
}

fn json_to_string(v: &JsonValue) -> (r: Option<String>)
    ensures
        match r {
            Some(s) => json_str(*v) == Some(s@),
            None => json_str(*v) is None,
        },
{
    match v {
        JsonValue::Str(s) => Some(s.clone()),
        _ => None,
    }
}

fn find_member<'a>(ms: &'a Vec<(String, JsonValue)>, key: &str) -> (r: Option<&'a JsonValue>)
    ensures
        match r {
            Some(v) => member(ms@, key@) == Some(*v),
            None => member(ms@, key@) is None,
        },
{
    let mut i: usize = 0;
    assert(ms@.skip(0) =~= ms@);
    while i < ms.len()
        invariant
            i <= ms@.len(),
            member(ms@, key@) == member(ms@.skip(i as int), key@),
        decreases ms@.len() - i,
    {
        assert(ms@.skip(i as int).drop_first() =~= ms@.skip(i + 1));
        assert(ms@.skip(i as int)[0] == ms@[i as int]);
        if str_eq(ms[i].0.as_str(), key) {
            return Some(&ms[i].1);
        }
        i = i + 1;
    }
    None
}

/// The fields of a request of kind `id` read from a JSON value.
fn fields_from_json(id: MsgId, v: &JsonValue) -> (r: Option<(u64, String)>)
    requires
        id == MsgId::CsPing || id == MsgId::CsLogin || id == MsgId::CsFastLogin || id == MsgId::CsEcho,
    ensures
        match r {
            Some((n, t)) => spec_fields_from_json(id, *v) == Some((n, t@)),
            None => spec_fields_from_json(id, *v) is None,
        },
{
    proof {
        reveal_strlit("seq");
        reveal_strlit("token");
        reveal_strlit("player_id");
        reveal_strlit("content");
    }
    match v {
        JsonValue::Object(ms) => {
            match id {
                MsgId::CsPing => {
                    match find_member(ms, "seq") {
                        None => None,
                        Some(x) => {
                            assert(Seq::new(1, |i: int| member(ms@, field_names(id)[i]).unwrap()) =~= seq![*x]);
                            match json_to_i64(x) {
                                Some(n) => Some((n as u64, String::new())),
                                None => None,
                            }
                        },
                    }
                },
                MsgId::CsFastLogin => {
                    match find_member(ms, "player_id") {
                        None => None,
                        Some(x) => {
                            assert(Seq::new(1, |i: int| member(ms@, field_names(id)[i]).unwrap()) =~= seq![*x]);
                            match json_to_i64(x) {
                                Some(n) => Some((n as u64, String::new())),
                                None => None,
                            }
                        },
                    }
                },
                MsgId::CsLogin => {
                    match (find_member(ms, "token"), find_member(ms, "player_id")) {
                        (Some(x), Some(y)) => {
                            assert(Seq::new(2, |i: int| member(ms@, field_names(id)[i]).unwrap()) =~= seq![*x, *y]);
                            match (json_to_string(x), json_to_i64(y)) {
                                (Some(t), Some(n)) => Some((n as u64, t)),
                                _ => None,
                            }
                        },
                        (None, _) => {
                            assert(member(ms@, field_names(id)[0]) is None);
                            None
                        },
                        (_, None) => {
                            assert(member(ms@, field_names(id)[1]) is None);
                            None
                        },
                    }
                },
                _ => {
                    match find_member(ms, "content") {
                        None => None,
                        Some(x) => {
                            assert(Seq::new(1, |i: int| member(ms@, field_names(id)[i]).unwrap()) =~= seq![*x]);
                            match json_to_string(x) {
                                Some(t) => Some((0u64, t)),
                                None => None,
                            }
                        },
                    }
                },
            }
        },
        JsonValue::Array(items) => {
            let want: usize = match id {
                MsgId::CsLogin => 2,
                _ => 1,
            };
            if items.len() != want {
                return None;
            }
            match id {
                MsgId::CsPing | MsgId::CsFastLogin => match json_to_i64(&items[0]) {
                    Some(n) => Some((n as u64, String::new())),
                    None => None,
                },
                MsgId::CsLogin => match (json_to_string(&items[0]), json_to_i64(&items[1])) {
                    (Some(t), Some(n)) => Some((n as u64, t)),
                    _ => None,
                },
                _ => match json_to_string(&items[0]) {
                    Some(t) => Some((0u64, t)),
                    None => None,
                },
            }
        },
        _ => None,
    }
}

/// The request that a JSON value deserializes to.
pub fn cs_msg_from_json(v: &JsonValue) -> (r: Option<CsMsg>)
    ensures
        match r {
            Some(m) => spec_cs_msg_from_json(*v) == Some(m@),
            None => spec_cs_msg_from_json(*v) is None,
        },
{
    match v {
        JsonValue::Object(ms) => {
            if ms.len() != 1 {
                return None;
            }
            match kind_named(ms[0].0.as_str()) {
                None => None,
                Some(k) => match fields_from_json(k, &ms[0].1) {
                    None => None,
                    Some((n, t)) => {
                        let m = crate::msg::Registry::from_parts(k, n, t);
                        m.into_cs_msg()
                    },
                },
            }
        },
        _ => None,
    }
}

} // verus!
