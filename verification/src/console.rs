//! The console side of a gate connection: requests addressed to a group of
//! clients, replies tagged by client, and the login handshake of the
//! connection adaptors.
use vstd::prelude::*;
use crate::msg::{CsMsg, ScMsg, CsFastLogin, CsLogin, CsEcho, ErrCode, err_code_of};
use crate::misc::ClientInfo as LoginInfo;
use crate::codec::CodecError;

verus! {

/// A console client as its adaptor knows it.
pub struct ClientInfo {
    pub id: u64,
    pub _username: String,
}

impl Default for ClientInfo {
    fn default() -> (r: ClientInfo)
        ensures
            r.id == 0,
            r._username@ == Seq::<char>::empty(),
    {
        ClientInfo { id: 0, _username: String::new() }
    }
}

/// A request for the clients whose ids are listed.
#[derive(Debug)]
pub struct ClientCsMsg {
    pub ids: Vec<u64>,
    pub payload: CsMsg,
}

/// A reply, tagged with the client that received it.
#[derive(Debug)]
pub struct ClientScMsg {
    pub id: u64,
    pub payload: ScMsg,
}

impl Clone for ClientCsMsg {
    fn clone(&self) -> (r: Self)
        ensures
            r.ids@ == self.ids@,
            r.payload == self.payload,
    {
        ClientCsMsg { ids: self.ids.clone(), payload: self.payload.clone() }
    }
}

impl Clone for ClientScMsg {
    fn clone(&self) -> (r: Self)
        ensures
            r == *self,
    {
        ClientScMsg { id: self.id, payload: self.payload.clone() }
    }
}

/// Why a connection's login handshake failed.
#[derive(Debug, PartialEq, Eq)]
pub enum HandshakeError {
    /// The connection closed before the reply.
    ConnectionClosed,
    /// The reply's frame did not decode.
    Codec(CodecError),
    /// The gateway refused the login with this code.
    AuthFailed(ErrCode),
    /// The gateway answered with a message of another kind.
    Unexpected(ScMsg),
}

/// The adaptor of one console client: it forwards the requests addressed to
/// its client and tags the replies with its client's id.
pub struct ConsoleAdaptor {
    pub client: ClientInfo,
}

impl ConsoleAdaptor {
    /// The adaptor for client `id`.
    pub fn new(id: u64) -> (r: ConsoleAdaptor)
        ensures
            r.client.id == id,
            r.client._username@ == Seq::<char>::empty(),
    {
        ConsoleAdaptor { client: ClientInfo { id, ..Default::default() } }
    }

    /// The first request of the connection: a fast login as the client.
    pub fn login_request(&self) -> (r: CsMsg)
        ensures
            r == CsMsg::CsFastLogin(CsFastLogin { player_id: self.client.id as i64 }),
    {
        CsMsg::CsFastLogin(CsFastLogin { player_id: self.client.id as i64 })
    }

    /// Judges the reply to the login: a fast login reply with code `0`
    /// opens the connection, another code refuses it. A reply of another
    /// kind is not handled.
    pub fn on_login_reply(&self, reply: Option<Result<ScMsg, CodecError>>) -> (r: Result<(), HandshakeError>)
        requires
            reply matches Some(Ok(m)) ==> m is ScFastLogin,
        ensures
            match reply {
                None => r == Err::<(), HandshakeError>(HandshakeError::ConnectionClosed),
                Some(Err(e)) => r == Err::<(), HandshakeError>(HandshakeError::Codec(e)),
                Some(Ok(ScMsg::ScFastLogin(m))) => if m.err_code == 0 {
                    r is Ok
                } else {
                    r == Err::<(), HandshakeError>(HandshakeError::AuthFailed(err_code_of(m.err_code)))
                },
                Some(Ok(_)) => false,
            },
    {
        match reply {
            None => Err(HandshakeError::ConnectionClosed),
            Some(Err(e)) => Err(HandshakeError::Codec(e)),
            Some(Ok(ScMsg::ScFastLogin(m))) => match m.err_code() {
                ErrCode::Success => Ok(()),
                c => Err(HandshakeError::AuthFailed(c)),
            },
            Some(Ok(_)) => vstd::pervasive::unreached(),
        }
    }

    /// A request from the console: its message if the client is among those
    /// it is addressed to.
    pub fn accept(&self, msg: ClientCsMsg) -> (r: Option<CsMsg>)
        ensures
            msg.ids@.contains(self.client.id) ==> r == Some(msg.payload),
            !msg.ids@.contains(self.client.id) ==> r is None,
    {
        let mut i: usize = 0;
        while i < msg.ids.len()
            invariant
                i <= msg.ids@.len(),
                forall|k: int| 0 <= k < i ==> msg.ids@[k] != self.client.id,
            decreases msg.ids@.len() - i,
        {
            if msg.ids[i] == self.client.id {
                return Some(msg.payload);
            }
            i = i + 1;
        }
        None
    }

    /// A reply from the gateway, tagged with the client's id for the console.
    pub fn tag(&self, msg: ScMsg) -> (r: ClientScMsg)
        ensures
            r.id == self.client.id,
            r.payload == msg,
    {
        ClientScMsg { id: self.client.id, payload: msg }
    }
}

/// The first request of a client connection with the identity `info`.
pub fn adaptor_login_request(info: &LoginInfo) -> (r: CsMsg)
    ensures
        match *info {
            LoginInfo::FastLogin { player_id } => r == CsMsg::CsFastLogin(CsFastLogin { player_id }),
            LoginInfo::Normal { player_id, token } => r == CsMsg::CsLogin(CsLogin { token, player_id }),
        },
{
    match info {
        LoginInfo::FastLogin { player_id } => CsMsg::CsFastLogin(CsFastLogin { player_id: *player_id }),
        LoginInfo::Normal { player_id, token } => CsMsg::CsLogin(
            CsLogin { token: token.clone(), player_id: *player_id },
        ),
    }
}

/// What the reply to the login of `info` makes of the connection.
pub open spec fn adaptor_login_outcome(info: LoginInfo, reply: Option<Result<ScMsg, CodecError>>) -> Result<(), HandshakeError> {
    match reply {
        None => Err(HandshakeError::ConnectionClosed),
        Some(Err(e)) => Err(HandshakeError::Codec(e)),
        Some(Ok(m)) => match (info, m) {
            (LoginInfo::FastLogin { .. }, ScMsg::ScFastLogin(a)) => if a.err_code == 0 {
                Ok(())
            } else {
                Err(HandshakeError::AuthFailed(err_code_of(a.err_code)))
            },
            (LoginInfo::Normal { .. }, ScMsg::ScLogin(a)) => if a.err_code == 0 {
                Ok(())
            } else {
                Err(HandshakeError::AuthFailed(err_code_of(a.err_code)))
            },
            (_, other) => Err(HandshakeError::Unexpected(other)),
        },
    }
}

/// Judges the reply to the login of a client connection with identity
/// `info`: the reply of the login's kind with code `0` opens the
/// connection, another code refuses it, any other message is unexpected.
pub fn adaptor_on_login_reply(info: &LoginInfo, reply: Option<Result<ScMsg, CodecError>>) -> (r: Result<(), HandshakeError>)
    ensures
        r == adaptor_login_outcome(*info, reply),
{
    match reply {
        None => Err(HandshakeError::ConnectionClosed),
        Some(Err(e)) => Err(HandshakeError::Codec(e)),
        Some(Ok(m)) => match (info, m) {
            (LoginInfo::FastLogin { .. }, ScMsg::ScFastLogin(a)) => match a.err_code() {
                ErrCode::Success => Ok(()),
                c => Err(HandshakeError::AuthFailed(c)),
            },
            (LoginInfo::Normal { .. }, ScMsg::ScLogin(a)) => match a.err_code() {
                ErrCode::Success => Ok(()),
                c => Err(HandshakeError::AuthFailed(c)),
            },
            (_, other) => Err(HandshakeError::Unexpected(other)),
        },
    }
}

/// The request a line typed on the console of player `player_id` becomes:
/// an echo of the line, for that player alone.
pub fn echo_request(player_id: u64, line: String) -> (r: ClientCsMsg)
    ensures
        r.ids@ == seq![player_id],
        r.payload == CsMsg::CsEcho(CsEcho { content: line }),
{
    ClientCsMsg { ids: vec![player_id], payload: CsMsg::CsEcho(CsEcho { content: line }) }
}

} // verus!
