//! The gateway agent of the first desktop tool: it records every message,
//! pings included, and hands every reply back.
use vstd::prelude::*;
use crate::msg::{Registry, CsFastLogin, CsLogin, ErrCode};
use crate::gate_agent::{spec_push, spec_select, log_bound, login_outcome, AgentError};
use crate::gate_agent::History as Log;

verus! {

/// The gateway agent as listed to the front end.
pub struct FrontGateAgent {
    pub _pid: i64,
}

/// The messages sent to and received from the gateway, each log bounded by
/// the capacity it was made with.
pub struct History {
    log: Log,
}

impl History {
    /// The sent messages, oldest first.
    pub closed spec fn sent(&self) -> Seq<Registry> {
        self.log.sent()
    }

    /// The received messages, oldest first.
    pub closed spec fn received(&self) -> Seq<Registry> {
        self.log.received()
    }

    /// The bound of each log.
    pub closed spec fn capacity(&self) -> nat {
        self.log.capacity()
    }

    /// Empty logs bounded by `capacity`.
    pub fn new(capacity: usize) -> (r: History)
        ensures
            r.sent() == Seq::<Registry>::empty(),
            r.received() == Seq::<Registry>::empty(),
            r.capacity() == capacity,
    {
        History { log: Log::new(capacity) }
    }

    /// Records a sent message.
    pub fn push_send(&mut self, msg: Registry)
        ensures
            final(self).sent() == spec_push(old(self).sent(), old(self).capacity(), msg),
            final(self).sent().len() <= log_bound(old(self).capacity()),
            final(self).received() == old(self).received(),
            final(self).capacity() == old(self).capacity(),
    {
        self.log.push_send(msg);
    }

    /// Records a received message.
    pub fn push_recv(&mut self, msg: Registry)
        ensures
            final(self).received() == spec_push(old(self).received(), old(self).capacity(), msg),
            final(self).received().len() <= log_bound(old(self).capacity()),
            final(self).sent() == old(self).sent(),
            final(self).capacity() == old(self).capacity(),
    {
        self.log.push_recv(msg);
    }

    /// The first `limit` sent messages, or with `reverse` the last `limit`,
    /// most recent first.
    pub fn get_send(&self, limit: usize, reverse: bool) -> (r: Vec<Registry>)
        ensures
            r@ == spec_select(self.sent(), limit as nat, reverse),
    {
        self.log.get_send(limit, reverse)
    }

    /// The first `limit` received messages; with `reverse`, every received
    /// message, most recent first, whatever the limit.
    pub fn get_recv(&self, limit: usize, reverse: bool) -> (r: Vec<Registry>)
        ensures
            reverse ==> r@ == self.received().reverse(),
            !reverse ==> r@ == spec_select(self.received(), limit as nat, false),
    {
        if reverse {
            let n = self.log.received_len();
            let all = self.log.get_recv(n, true);
            assert(self.received().reverse().take(self.received().len() as int) =~= self.received().reverse());
            all
        } else {
            self.log.get_recv(limit, false)
        }
    }
}

/// The state of the agent that its decisions depend on.
pub struct GateAgent {
    pid: i64,
    authorized: bool,
}

impl GateAgent {
    /// The player the agent plays.
    pub closed spec fn player(&self) -> i64 {
        self.pid
    }

    /// Whether the agent has logged in.
    pub closed spec fn is_authorized(&self) -> bool {
        self.authorized
    }

    /// An agent for player `pid` that has not logged in yet.
    pub fn new(pid: i64) -> (r: GateAgent)
        ensures
            r.player() == pid,
            !r.is_authorized(),
    {
        GateAgent { pid, authorized: false }
    }

    /// The player the agent plays.
    pub fn pid(&self) -> (r: i64)
        ensures
            r == self.player(),
    {
        self.pid
    }

    /// The fast login request of this agent.
    pub fn fast_login_request(&self) -> (r: Registry)
        ensures
            r == Registry::CsFastLogin(CsFastLogin { player_id: self.player() }),
    {
        Registry::CsFastLogin(CsFastLogin { player_id: self.pid })
    }

    /// The login request of this agent with the platform's `token`.
    pub fn login_request(&self, token: &str) -> (r: Registry)
        ensures
            r matches Registry::CsLogin(m) && m.token@ == token@ && m.player_id == self.player(),
    {
        Registry::CsLogin(CsLogin { token: token.to_owned(), player_id: self.pid })
    }

    /// Takes the gateway's reply to a login request: the agent is authorized
    /// if the reply reports success.
    pub fn on_login_ack(&mut self, ack: Registry) -> (r: Result<(), AgentError>)
        requires
            ack is ScFastLogin || ack is ScLogin,
        ensures
            final(self).player() == old(self).player(),
            ack matches Registry::ScFastLogin(m) ==> login_outcome(m.err_code, r)
                && final(self).is_authorized() == (old(self).is_authorized() || m.err_code == 0),
            ack matches Registry::ScLogin(m) ==> login_outcome(m.err_code, r)
                && final(self).is_authorized() == (old(self).is_authorized() || m.err_code == 0),
    {
        let code = match ack {
            Registry::ScFastLogin(m) => m.err_code(),
            Registry::ScLogin(m) => m.err_code(),
            _ => vstd::pervasive::unreached(),
        };
        match code {
            ErrCode::Success => {
                self.authorized = true;
                Ok(())
            },
            c => Err(AgentError::AuthFailed(c)),
        }
    }

    /// Whether the agent may start its loop: only once it has logged in.
    pub fn start(&self) -> (r: Result<(), AgentError>)
        ensures
            r is Ok <==> self.is_authorized(),
            r matches Err(e) ==> e is Unauthorized,
    {
        if !self.authorized {
            Err(AgentError::Unauthorized)
        } else {
            Ok(())
        }
    }

    /// A request to forward to the gateway: recorded, and handed back to be
    /// sent. A closed request channel stops the agent.
    pub fn on_request(&self, his: &mut History, req: Option<Registry>) -> (r: Result<Registry, AgentError>)
        ensures
            match req {
                None => r matches Err(e) && e is RequestChannelClosed && *final(his) == *old(his),
                Some(m) => r == Ok::<Registry, AgentError>(m)
                    && final(his).sent() == spec_push(old(his).sent(), old(his).capacity(), m)
                    && final(his).received() == old(his).received()
                    && final(his).capacity() == old(his).capacity(),
            },
    {
        match req {
            None => Err(AgentError::RequestChannelClosed),
            Some(m) => {
                his.push_send(m.clone());
                Ok(m)
            },
        }
    }

    /// A reply from the gateway: recorded, and handed back to be queued.
    pub fn on_ack(&self, his: &mut History, ack: Registry) -> (r: Registry)
        ensures
            r == ack,
            final(his).received() == spec_push(old(his).received(), old(his).capacity(), ack),
            final(his).sent() == old(his).sent(),
            final(his).capacity() == old(his).capacity(),
    {
        his.push_recv(ack.clone());
        ack
    }

    /// The agent as listed to the front end.
    pub fn to_front(&self) -> (r: FrontGateAgent)
        ensures
            r._pid == self.player(),
    {
        FrontGateAgent { _pid: self.pid }
    }
}

} // verus!
