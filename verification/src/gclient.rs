//! The game client of the console: how it is configured, what it sends to
//! log in and how it judges the gateway's reply.
use vstd::prelude::*;
use crate::msg::{Registry, CsFastLogin, CsLogin, ErrCode, err_code_of};
use crate::misc::ClientInfo;
use crate::text::push_str;

verus! {

/// The configuration of a game client: the gateway's address and how to log
/// in, each set at most once before the client is built.
pub struct GClientBuilder<A> {
    gate: Option<A>,
    info: Option<ClientInfo>,
}

impl<A> GClientBuilder<A> {
    /// The gateway's address, if set.
    pub closed spec fn gate_addr(&self) -> Option<A> {
        self.gate
    }

    /// How to log in, if set.
    pub closed spec fn client_info(&self) -> Option<ClientInfo> {
        self.info
    }

    /// A configuration with nothing set.
    pub fn new() -> (r: Self)
        ensures
            r.gate_addr() is None,
            r.client_info() is None,
    {
        GClientBuilder { gate: None, info: None }
    }

    /// Sets the gateway's address.
    pub fn gate(self, addr: A) -> (r: Self)
        ensures
            r.gate_addr() == Some(addr),
            r.client_info() == self.client_info(),
    {
        GClientBuilder { gate: Some(addr), info: self.info }
    }

    /// Sets how to log in.
    pub fn info(self, info: ClientInfo) -> (r: Self)
        ensures
            r.gate_addr() == self.gate_addr(),
            r.client_info() == Some(info),
    {
        GClientBuilder { gate: self.gate, info: Some(info) }
    }

    /// Whether both the address and how to log in are set.
    pub fn is_ready(&self) -> (r: bool)
        ensures
            r == (self.gate_addr() is Some && self.client_info() is Some),
    {
        self.gate.is_some() && self.info.is_some()
    }

    /// The address to connect to and how to log in; building a client
    /// needs both.
    pub fn into_parts(self) -> (r: (A, ClientInfo))
        requires
            self.gate_addr() is Some,
            self.client_info() is Some,
        ensures
            r.0 == self.gate_addr().unwrap(),
            r.1 == self.client_info().unwrap(),
    {
        match (self.gate, self.info) {
            (Some(g), Some(i)) => (g, i),
            (_, _) => vstd::pervasive::unreached(),
        }
    }
}

/// The login request for a client identity.
pub open spec fn auth_request_of(info: ClientInfo) -> Registry {
    match info {
        ClientInfo::FastLogin { player_id } => Registry::CsFastLogin(CsFastLogin { player_id }),
        ClientInfo::Normal { player_id, token } => Registry::CsLogin(CsLogin { token, player_id }),
    }
}

/// The login request a client sends first.
pub fn auth_request(info: &ClientInfo) -> (r: Registry)
    ensures
        r == auth_request_of(*info),
{
    match info {
        ClientInfo::FastLogin { player_id } => Registry::CsFastLogin(CsFastLogin { player_id: *player_id }),
        ClientInfo::Normal { player_id, token } => Registry::CsLogin(
            CsLogin { token: token.clone(), player_id: *player_id },
        ),
    }
}

/// Why a login failed.
#[derive(Debug, PartialEq, Eq)]
pub enum AuthError {
    /// The gateway answered with a failure code.
    Refused(ErrCode),
    /// The gateway answered with something else, or not at all.
    InvalidReply,
}

impl AuthError {
    /// The text of the error: `fail to auth. <code>` or `recv invalid reply`.
    pub fn message(&self) -> (r: String)
        ensures
            match self {
                AuthError::Refused(_) => r@ == "fail to auth. "@ + crate::gclient::err_code_text(*self),
                AuthError::InvalidReply => r@ == "recv invalid reply"@,
            },
    {
        match self {
            AuthError::Refused(c) => {
                let mut s = String::new();
                push_str(&mut s, "fail to auth. ");
                let t = code_text(c);
                push_str(&mut s, t.as_str());
                s
            },
            AuthError::InvalidReply => "recv invalid reply".to_owned(),
        }
    }
}

/// How a refusal's code is shown: `Success`, or `Failure(<number>)`.
pub open spec fn err_code_text(e: AuthError) -> Seq<char> {
    match e {
        AuthError::Refused(ErrCode::Success) => "Success"@,
        AuthError::Refused(ErrCode::Failure(n)) => "Failure("@ + crate::num::i64_text(n as i64) + ")"@,
        AuthError::InvalidReply => Seq::empty(),
    }
}

pub(crate) fn code_text(c: &ErrCode) -> (r: String)
    ensures
        r@ == err_code_text(AuthError::Refused(*c)),
{
    match c {
        ErrCode::Success => "Success".to_owned(),
        ErrCode::Failure(n) => {
            let mut s = String::new();
            push_str(&mut s, "Failure(");
            crate::num::push_i64(&mut s, *n as i64);
            push_str(&mut s, ")");
            s
        },
    }
}

/// What a login reply makes of the login of `info`: the reply of the
/// right kind with code `0` logs in, one with another code is a refusal
/// with that code, anything else (or no reply) is invalid.
pub open spec fn auth_outcome_of(info: ClientInfo, reply: Option<Registry>) -> Result<(), AuthError> {
    match (info, reply) {
        (ClientInfo::FastLogin { .. }, Some(Registry::ScFastLogin(m))) => if m.err_code == 0 {
            Ok(())
        } else {
            Err(AuthError::Refused(err_code_of(m.err_code)))
        },
        (ClientInfo::Normal { .. }, Some(Registry::ScLogin(m))) => if m.err_code == 0 {
            Ok(())
        } else {
            Err(AuthError::Refused(err_code_of(m.err_code)))
        },
        _ => Err(AuthError::InvalidReply),
    }
}

/// Judges the gateway's reply to the login request of `info`; `None` stands
/// for a closed connection or a frame that did not decode.
pub fn auth_outcome(info: &ClientInfo, reply: Option<Registry>) -> (r: Result<(), AuthError>)
    ensures
        r == auth_outcome_of(*info, reply),
{
    match (info, reply) {
        (ClientInfo::FastLogin { .. }, Some(Registry::ScFastLogin(m))) => match m.err_code() {
            ErrCode::Success => Ok(()),
            c => Err(AuthError::Refused(c)),
        },
        (ClientInfo::Normal { .. }, Some(Registry::ScLogin(m))) => match m.err_code() {
            ErrCode::Success => Ok(()),
            c => Err(AuthError::Refused(c)),
        },
        _ => Err(AuthError::InvalidReply),
    }
}


/// A login succeeds exactly when the reply is the login reply of the kind
/// the login asked for (`ScLogin` for a token login, `ScFastLogin` for a
/// fast login) and its code is `0`; a refusal carries the reply's own
/// non-zero code; anything else is an invalid reply.
pub proof fn lemma_auth_succeeds_only_on_zero_code(info: ClientInfo, reply: Option<Registry>)
    ensures
        auth_outcome_of(info, reply) is Ok <==> (match reply {
            Some(Registry::ScLogin(m)) => info is Normal && m.err_code == 0,
            Some(Registry::ScFastLogin(m)) => info is FastLogin && m.err_code == 0,
            _ => false,
        }),
        auth_outcome_of(info, reply) matches Err(AuthError::Refused(c)) ==> c != ErrCode::Success && (match reply {
            Some(Registry::ScLogin(m)) => info is Normal && m.err_code != 0 && c == ErrCode::Failure(m.err_code),
            Some(Registry::ScFastLogin(m)) => info is FastLogin && m.err_code != 0 && c == ErrCode::Failure(m.err_code),
            _ => false,
        }),
        auth_outcome_of(info, reply) == Err::<(), AuthError>(AuthError::InvalidReply) <==> !(match reply {
            Some(Registry::ScLogin(_)) => info is Normal,
            Some(Registry::ScFastLogin(_)) => info is FastLogin,
            _ => false,
        }),
{
}

} // verus!
