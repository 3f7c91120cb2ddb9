use vstd::prelude::*;
use crate::msgid::{MsgId, msg_id_name, msg_id_value};

verus! {

/// Fast login request: a player logs in by id alone.
#[derive(Debug, PartialEq, Eq)]
pub struct CsFastLogin {
    pub player_id: i64,
}

/// Reply to a fast login.
#[derive(Debug, PartialEq, Eq)]
pub struct ScFastLogin {
    pub err_code: i32,
}

/// Login request with the token issued by the platform service.
#[derive(Debug, PartialEq, Eq)]
pub struct CsLogin {
    pub token: String,
    pub player_id: i64,
}

/// Reply to a login.
#[derive(Debug, PartialEq, Eq)]
pub struct ScLogin {
    pub err_code: i32,
}

/// Echo request.
#[derive(Debug, PartialEq, Eq)]
pub struct CsEcho {
    pub content: String,
}

/// Echo reply.
#[derive(Debug, PartialEq, Eq)]
pub struct ScEcho {
    pub reply: String,
}

/// Ping request.
#[derive(Debug, PartialEq, Eq)]
pub struct CsPing {
    pub seq: i64,
}

/// Ping reply.
#[derive(Debug, PartialEq, Eq)]
pub struct ScPing {
    pub seq: i64,
}

/// Outcome codes carried by the replies; `0` is success.
#[derive(Clone, Copy, Debug, PartialEq, Eq, Structural)]
pub enum ErrCode {
    Success,
    Failure(i32),
}

/// The outcome code that a raw `err_code` field stands for.
pub open spec fn err_code_of(raw: i32) -> ErrCode {
    if raw == 0 {
        ErrCode::Success
    } else {
        ErrCode::Failure(raw)
    }
}

/// Reads a raw `err_code` field.
pub fn err_code_from_raw(raw: i32) -> (r: ErrCode)
    ensures
        r == err_code_of(raw),
{
    if raw == 0 {
        ErrCode::Success
    } else {
        ErrCode::Failure(raw)
    }
}

impl ScFastLogin {
    /// The outcome code of this reply.
    pub fn err_code(&self) -> (r: ErrCode)
        ensures
            r == err_code_of(self.err_code),
    {
        err_code_from_raw(self.err_code)
    }
}

impl ScLogin {
    /// The outcome code of this reply.
    pub fn err_code(&self) -> (r: ErrCode)
        ensures
            r == err_code_of(self.err_code),
    {
        err_code_from_raw(self.err_code)
    }
}

impl Clone for CsFastLogin {
    fn clone(&self) -> (r: Self)
        ensures
            r == *self,
    {
        CsFastLogin { player_id: self.player_id }
    }
}

impl Clone for ScFastLogin {
    fn clone(&self) -> (r: Self)
        ensures
            r == *self,
    {
        ScFastLogin { err_code: self.err_code }
    }
}

impl Clone for CsLogin {
    fn clone(&self) -> (r: Self)
        ensures
            r == *self,
    {
        CsLogin { token: self.token.clone(), player_id: self.player_id }
    }
}

impl Clone for ScLogin {
    fn clone(&self) -> (r: Self)
        ensures
            r == *self,
    {
        ScLogin { err_code: self.err_code }
    }
}

impl Clone for CsEcho {
    fn clone(&self) -> (r: Self)
        ensures
            r == *self,
    {
        CsEcho { content: self.content.clone() }
    }
}

impl Clone for ScEcho {
    fn clone(&self) -> (r: Self)
        ensures
            r == *self,
    {
        ScEcho { reply: self.reply.clone() }
    }
}

impl Clone for CsPing {
    fn clone(&self) -> (r: Self)
        ensures
            r == *self,
    {
        CsPing { seq: self.seq }
    }
}

impl Clone for ScPing {
    fn clone(&self) -> (r: Self)
        ensures
            r == *self,
    {
        ScPing { seq: self.seq }
    }
}

impl Clone for Registry {
    fn clone(&self) -> (r: Self)
        ensures
            r == *self,
    {
        match self {
            Registry::CsPing(m) => Registry::CsPing(m.clone()),
            Registry::ScPing(m) => Registry::ScPing(m.clone()),
            Registry::CsLogin(m) => Registry::CsLogin(m.clone()),
            Registry::ScLogin(m) => Registry::ScLogin(m.clone()),
            Registry::CsFastLogin(m) => Registry::CsFastLogin(m.clone()),
            Registry::ScFastLogin(m) => Registry::ScFastLogin(m.clone()),
            Registry::CsEcho(m) => Registry::CsEcho(m.clone()),
            Registry::ScEcho(m) => Registry::ScEcho(m.clone()),
        }
    }
}

impl Clone for CsMsg {
    fn clone(&self) -> (r: Self)
        ensures
            r == *self,
    {
        match self {
            CsMsg::CsPing(m) => CsMsg::CsPing(m.clone()),
            CsMsg::CsLogin(m) => CsMsg::CsLogin(m.clone()),
            CsMsg::CsFastLogin(m) => CsMsg::CsFastLogin(m.clone()),
            CsMsg::CsEcho(m) => CsMsg::CsEcho(m.clone()),
        }
    }
}

impl Clone for ScMsg {
    fn clone(&self) -> (r: Self)
        ensures
            r == *self,
    {
        match self {
            ScMsg::ScPing(m) => ScMsg::ScPing(m.clone()),
            ScMsg::ScLogin(m) => ScMsg::ScLogin(m.clone()),
            ScMsg::ScFastLogin(m) => ScMsg::ScFastLogin(m.clone()),
            ScMsg::ScEcho(m) => ScMsg::ScEcho(m.clone()),
        }
    }
}

/// Every protocol message, tagged by its registry identifier.
#[derive(Debug, PartialEq, Eq)]
pub enum Registry {
    CsPing(CsPing),
    ScPing(ScPing),
    CsLogin(CsLogin),
    ScLogin(ScLogin),
    CsFastLogin(CsFastLogin),
    ScFastLogin(ScFastLogin),
    CsEcho(CsEcho),
    ScEcho(ScEcho),
}

/// The messages a client sends to the gateway.
#[derive(Debug, PartialEq, Eq)]
pub enum CsMsg {
    CsPing(CsPing),
    CsLogin(CsLogin),
    CsFastLogin(CsFastLogin),
    CsEcho(CsEcho),
}

/// The messages the gateway sends to a client.
#[derive(Debug, PartialEq, Eq)]
pub enum ScMsg {
    ScPing(ScPing),
    ScLogin(ScLogin),
    ScFastLogin(ScFastLogin),
    ScEcho(ScEcho),
}

/// The abstract content of a message: its identifier, its numeric field and
/// its text field. The numeric field is stored as protobuf writes it on the
/// wire (a 64-bit value; an `i32` field is sign-extended first), and a
/// message kind without a numeric or text field has `0` or the empty text
/// there.
pub struct MsgView {
    pub id: MsgId,
    pub num: u64,
    pub text: Seq<char>,
}

/// The field number of the numeric field of a message kind, if it has one.
pub open spec fn num_tag(id: MsgId) -> Option<u32> {
    match id {
        MsgId::CsPing | MsgId::ScPing | MsgId::CsFastLogin | MsgId::ScFastLogin
        | MsgId::ScLogin => Some(1u32),
        MsgId::CsLogin => Some(2u32),
        _ => None,
    }
}

/// The field number of the text field of a message kind, if it has one.
pub open spec fn text_tag(id: MsgId) -> Option<u32> {
    match id {
        MsgId::CsLogin | MsgId::CsEcho | MsgId::ScEcho => Some(1u32),
        _ => None,
    }
}

/// Whether the numeric field of a message kind is an `i32` (the outcome codes).
pub open spec fn num_is_i32(id: MsgId) -> bool {
    id == MsgId::ScLogin || id == MsgId::ScFastLogin
}

/// The numeric field as a message of kind `id` holds it after decoding `raw`.
pub open spec fn normalize_num(id: MsgId, raw: u64) -> u64 {
    if num_tag(id) is None {
        0
    } else if num_is_i32(id) {
        raw as i32 as i64 as u64
    } else {
        raw
    }
}

/// The text field as a message of kind `id` holds it.
pub open spec fn normalize_text(id: MsgId, text: Seq<char>) -> Seq<char> {
    if text_tag(id) is None {
        Seq::empty()
    } else {
        text
    }
}

/// A view is canonical when it is what some message looks like.
pub open spec fn view_is_canonical(v: MsgView) -> bool {
    &&& v.id != MsgId::Reserved
    &&& v.num == normalize_num(v.id, v.num)
    &&& v.text == normalize_text(v.id, v.text)
}

/// The message that the parts `(id, num, text)` build.
pub open spec fn view_from_parts(id: MsgId, num: u64, text: Seq<char>) -> MsgView {
    MsgView { id, num: normalize_num(id, num), text: normalize_text(id, text) }
}

/// Whether an identifier belongs to a client request.
pub open spec fn is_cs_id(id: MsgId) -> bool {
    id == MsgId::CsPing || id == MsgId::CsLogin || id == MsgId::CsFastLogin || id == MsgId::CsEcho
}

/// Whether an identifier belongs to a gate reply.
pub open spec fn is_sc_id(id: MsgId) -> bool {
    id == MsgId::ScPing || id == MsgId::ScLogin || id == MsgId::ScFastLogin || id == MsgId::ScEcho
}

impl View for Registry {
    type V = MsgView;

    open spec fn view(&self) -> MsgView {
        match self {
            Registry::CsPing(m) => MsgView { id: MsgId::CsPing, num: m.seq as u64, text: Seq::empty() },
            Registry::ScPing(m) => MsgView { id: MsgId::ScPing, num: m.seq as u64, text: Seq::empty() },
            Registry::CsLogin(m) => MsgView { id: MsgId::CsLogin, num: m.player_id as u64, text: m.token@ },
            Registry::ScLogin(m) => MsgView { id: MsgId::ScLogin, num: m.err_code as i64 as u64, text: Seq::empty() },
            Registry::CsFastLogin(m) => MsgView { id: MsgId::CsFastLogin, num: m.player_id as u64, text: Seq::empty() },
            Registry::ScFastLogin(m) => MsgView { id: MsgId::ScFastLogin, num: m.err_code as i64 as u64, text: Seq::empty() },
            Registry::CsEcho(m) => MsgView { id: MsgId::CsEcho, num: 0, text: m.content@ },
            Registry::ScEcho(m) => MsgView { id: MsgId::ScEcho, num: 0, text: m.reply@ },
        }
    }
}

impl View for CsMsg {
    type V = MsgView;

    open spec fn view(&self) -> MsgView {
        self.to_registry_spec()@
    }
}

impl View for ScMsg {
    type V = MsgView;

    open spec fn view(&self) -> MsgView {
        self.to_registry_spec()@
    }
}

impl CsMsg {
    /// The registry message that carries this request.
    pub open spec fn to_registry_spec(&self) -> Registry {
        match self {
            CsMsg::CsPing(m) => Registry::CsPing(*m),
            CsMsg::CsLogin(m) => Registry::CsLogin(*m),
            CsMsg::CsFastLogin(m) => Registry::CsFastLogin(*m),
            CsMsg::CsEcho(m) => Registry::CsEcho(*m),
        }
    }

    /// The registry message that carries this request.
    pub fn into_registry(self) -> (r: Registry)
        ensures
            r == self.to_registry_spec(),
    {
        match self {
            CsMsg::CsPing(m) => Registry::CsPing(m),
            CsMsg::CsLogin(m) => Registry::CsLogin(m),
            CsMsg::CsFastLogin(m) => Registry::CsFastLogin(m),
            CsMsg::CsEcho(m) => Registry::CsEcho(m),
        }
    }
}

impl ScMsg {
    /// The registry message that carries this reply.
    pub open spec fn to_registry_spec(&self) -> Registry {
        match self {
            ScMsg::ScPing(m) => Registry::ScPing(*m),
            ScMsg::ScLogin(m) => Registry::ScLogin(*m),
            ScMsg::ScFastLogin(m) => Registry::ScFastLogin(*m),
            ScMsg::ScEcho(m) => Registry::ScEcho(*m),
        }
    }

    /// The registry message that carries this reply.
    pub fn into_registry(self) -> (r: Registry)
        ensures
            r == self.to_registry_spec(),
    {
        match self {
            ScMsg::ScPing(m) => Registry::ScPing(m),
            ScMsg::ScLogin(m) => Registry::ScLogin(m),
            ScMsg::ScFastLogin(m) => Registry::ScFastLogin(m),
            ScMsg::ScEcho(m) => Registry::ScEcho(m),
        }
    }
}

/// Every message view is canonical.
pub proof fn lemma_registry_view_canonical(m: Registry)
    ensures
        view_is_canonical(m@),
{
    match m {
        Registry::ScLogin(x) => {
            let n = x.err_code;
            assert(n as i64 as u64 as i32 as i64 as u64 == n as i64 as u64) by (bit_vector);
        },
        Registry::ScFastLogin(x) => {
            let n = x.err_code;
            assert(n as i64 as u64 as i32 as i64 as u64 == n as i64 as u64) by (bit_vector);
        },
        _ => {},
    }
}

impl Registry {
    /// The registry identifier of this message, as a number.
    pub fn msgid(&self) -> (r: i32)
        ensures
            r == msg_id_value(self@.id),
    {
        self.id().value()
    }

    /// The registry identifier of this message.
    pub fn id(&self) -> (r: MsgId)
        ensures
            r == self@.id,
    {
        match self {
            Registry::CsPing(_) => MsgId::CsPing,
            Registry::ScPing(_) => MsgId::ScPing,
            Registry::CsLogin(_) => MsgId::CsLogin,
            Registry::ScLogin(_) => MsgId::ScLogin,
            Registry::CsFastLogin(_) => MsgId::CsFastLogin,
            Registry::ScFastLogin(_) => MsgId::ScFastLogin,
            Registry::CsEcho(_) => MsgId::CsEcho,
            Registry::ScEcho(_) => MsgId::ScEcho,
        }
    }

    /// The name of this message in the protobuf definition.
    pub fn name(&self) -> (r: &'static str)
        ensures
            r@ == msg_id_name(self@.id),
    {
        self.id().as_str_name()
    }

    /// The numeric field of this message as it goes on the wire.
    pub fn num(&self) -> (r: u64)
        ensures
            r == self@.num,
    {
        match self {
            Registry::CsPing(m) => m.seq as u64,
            Registry::ScPing(m) => m.seq as u64,
            Registry::CsLogin(m) => m.player_id as u64,
            Registry::ScLogin(m) => m.err_code as i64 as u64,
            Registry::CsFastLogin(m) => m.player_id as u64,
            Registry::ScFastLogin(m) => m.err_code as i64 as u64,
            Registry::CsEcho(_) => 0,
            Registry::ScEcho(_) => 0,
        }
    }

    /// The text field of this message (empty for kinds without one).
    pub fn text(&self) -> (r: &str)
        ensures
            r@ == self@.text,
    {
        match self {
            Registry::CsLogin(m) => m.token.as_str(),
            Registry::CsEcho(m) => m.content.as_str(),
            Registry::ScEcho(m) => m.reply.as_str(),
            _ => {
                let e = "";
                proof {
                    reveal_strlit("");
                }
                e
            },
        }
    }

    /// Builds the message of kind `id` from its numeric and text fields.
    pub fn from_parts(id: MsgId, num: u64, text: String) -> (r: Registry)
        requires
            id != MsgId::Reserved,
        ensures
            r@ == view_from_parts(id, num, text@),
    {
        proof {
            assert(num as i64 as u64 == num) by (bit_vector);
        }
        match id {
            MsgId::CsPing => Registry::CsPing(CsPing { seq: num as i64 }),
            MsgId::ScPing => Registry::ScPing(ScPing { seq: num as i64 }),
            MsgId::CsLogin => Registry::CsLogin(CsLogin { token: text, player_id: num as i64 }),
            MsgId::ScLogin => Registry::ScLogin(ScLogin { err_code: num as i32 }),
            MsgId::CsFastLogin => Registry::CsFastLogin(CsFastLogin { player_id: num as i64 }),
            MsgId::ScFastLogin => Registry::ScFastLogin(ScFastLogin { err_code: num as i32 }),
            MsgId::CsEcho => Registry::CsEcho(CsEcho { content: text }),
            _ => Registry::ScEcho(ScEcho { reply: text }),
        }
    }

    /// The request this message is, if it is one.
    pub fn into_cs_msg(self) -> (r: Option<CsMsg>)
        ensures
            r is Some <==> is_cs_id(self@.id),
            r matches Some(c) ==> c.to_registry_spec() == self,
    {
        match self {
            Registry::CsPing(m) => Some(CsMsg::CsPing(m)),
            Registry::CsLogin(m) => Some(CsMsg::CsLogin(m)),
            Registry::CsFastLogin(m) => Some(CsMsg::CsFastLogin(m)),
            Registry::CsEcho(m) => Some(CsMsg::CsEcho(m)),
            _ => None,
        }
    }

    /// The reply this message is, if it is one.
    pub fn into_sc_msg(self) -> (r: Option<ScMsg>)
        ensures
            r is Some <==> is_sc_id(self@.id),
            r matches Some(c) ==> c.to_registry_spec() == self,
    {
        match self {
            Registry::ScPing(m) => Some(ScMsg::ScPing(m)),
            Registry::ScLogin(m) => Some(ScMsg::ScLogin(m)),
            Registry::ScFastLogin(m) => Some(ScMsg::ScFastLogin(m)),
            Registry::ScEcho(m) => Some(ScMsg::ScEcho(m)),
            _ => None,
        }
    }
}

} // verus!
