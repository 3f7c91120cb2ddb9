//! The gateway agent of the admin desktop tool: its bounded message history and
//! the decisions of its connection loop.
use vstd::prelude::*;
use crate::msgid::{MsgId, msg_id_name, msg_id_value};
use crate::msg::{Registry, CsFastLogin, CsLogin, ErrCode, err_code_of};
use crate::gclient::{AuthError, err_code_text, code_text};
use crate::text::push_str;

verus! {

/// One history entry as shown to the front end: identifier, name and the
/// message itself.
pub struct FrontHistoryData<'a> {
    pub msgid: i32,
    pub name: &'static str,
    pub payload: &'a Registry,
}

impl<'a> FrontHistoryData<'a> {
    /// The entry that shows `msg`.
    pub fn new(msg: &'a Registry) -> (r: FrontHistoryData<'a>)
        ensures
            r.msgid == msg_id_value(msg@.id),
            r.name@ == msg_id_name(msg@.id),
            *r.payload == *msg,
    {
        FrontHistoryData { msgid: msg.msgid(), name: msg.name(), payload: msg }
    }
}

/// The smaller of two naturals.
pub open spec fn min_nat(a: nat, b: nat) -> nat {
    if a <= b {
        a
    } else {
        b
    }
}

/// A log after recording `msg` with bound `cap`: when the log is full, its
/// most recent entry is dropped first, so the log never holds more than
/// `cap` entries (one, for a bound of zero).
pub open spec fn spec_push(log: Seq<Registry>, cap: nat, msg: Registry) -> Seq<Registry> {
    if log.len() >= cap && log.len() > 0 {
        log.drop_last().push(msg)
    } else {
        log.push(msg)
    }
}

/// A log after one message of the agent loop: the message is recorded
/// unless it is a ping (of kind `ping`).
pub open spec fn log_step(log: Seq<Registry>, cap: nat, msg: Registry, ping: MsgId) -> Seq<Registry> {
    if msg@.id != ping {
        spec_push(log, cap, msg)
    } else {
        log
    }
}

/// The entries a query returns: the first `limit` entries in order, or with
/// `reverse` the last `limit` entries, most recent first.
pub open spec fn spec_select(log: Seq<Registry>, limit: nat, reverse: bool) -> Seq<Registry> {
    if reverse {
        log.reverse().take(min_nat(limit, log.len()) as int)
    } else {
        log.take(min_nat(limit, log.len()) as int)
    }
}

/// The largest number of entries a log with bound `cap` holds.
pub open spec fn log_bound(cap: nat) -> nat {
    if cap == 0 {
        1
    } else {
        cap
    }
}

/// The messages sent to and received from the gateway, each log bounded by
/// the capacity it was made with.
pub struct History {
    send_history: Vec<Registry>,
    recv_history: Vec<Registry>,
    capacity: usize,
}

impl History {
    #[verifier::type_invariant]
    spec fn bounded(&self) -> bool {
        &&& self.send_history@.len() <= log_bound(self.capacity as nat)
        &&& self.recv_history@.len() <= log_bound(self.capacity as nat)
    }

    /// The sent messages, oldest first.
    pub closed spec fn sent(&self) -> Seq<Registry> {
        self.send_history@
    }

    /// The received messages, oldest first.
    pub closed spec fn received(&self) -> Seq<Registry> {
        self.recv_history@
    }

    /// The bound of each log.
    pub closed spec fn capacity(&self) -> nat {
        self.capacity as nat
    }

    /// The bound of each log fits a `usize`.
    pub proof fn lemma_capacity_fits(&self)
        ensures
            self.capacity() <= usize::MAX,
            log_bound(self.capacity()) <= usize::MAX,
    {
    }

    /// The number of received messages kept.
    pub fn received_len(&self) -> (r: usize)
        ensures
            r == self.received().len(),
    {
        self.recv_history.len()
    }

    /// Empty logs bounded by `capacity`.
    pub fn new(capacity: usize) -> (r: History)
        ensures
            r.sent() == Seq::<Registry>::empty(),
            r.received() == Seq::<Registry>::empty(),
            r.capacity() == capacity,
    {
        History {
            send_history: Vec::with_capacity(capacity),
            recv_history: Vec::with_capacity(capacity),
            capacity,
        }
    }

    fn push_into(log: &mut Vec<Registry>, cap: usize, msg: Registry)
        requires
            old(log)@.len() <= log_bound(cap as nat),
        ensures
            final(log)@ == spec_push(old(log)@, cap as nat, msg),
            final(log)@.len() <= log_bound(cap as nat),
    {
        if log.len() >= cap && log.len() > 0 {
            log.pop();
        }
        log.push(msg);
    }

    /// Records a sent message.
    pub fn push_send(&mut self, msg: Registry)
        ensures
            final(self).sent() == spec_push(old(self).sent(), old(self).capacity(), msg),
            final(self).sent().len() <= log_bound(old(self).capacity()),
            final(self).received() == old(self).received(),
            final(self).capacity() == old(self).capacity(),
    {
        proof {
            use_type_invariant(&*self);
        }
        let cap = self.capacity;
        let mut log: Vec<Registry> = Vec::new();
        std::mem::swap(&mut log, &mut self.send_history);
        History::push_into(&mut log, cap, msg);
        self.send_history = log;
    }

    /// Records a received message.
    pub fn push_recv(&mut self, msg: Registry)
        ensures
            final(self).received() == spec_push(old(self).received(), old(self).capacity(), msg),
            final(self).received().len() <= log_bound(old(self).capacity()),
            final(self).sent() == old(self).sent(),
            final(self).capacity() == old(self).capacity(),
    {
        proof {
            use_type_invariant(&*self);
        }
        let cap = self.capacity;
        let mut log: Vec<Registry> = Vec::new();
        std::mem::swap(&mut log, &mut self.recv_history);
        History::push_into(&mut log, cap, msg);
        self.recv_history = log;
    }

    fn select(log: &Vec<Registry>, limit: usize, reverse: bool) -> (r: Vec<Registry>)
        ensures
            r@ == spec_select(log@, limit as nat, reverse),
    {
        let n = if limit < log.len() {
            limit
        } else {
            log.len()
        };
        let mut r: Vec<Registry> = Vec::with_capacity(n);
        let mut i: usize = 0;
        while i < n
            invariant
                n == min_nat(limit as nat, log@.len()),
                i <= n,
                r@ == spec_select(log@, limit as nat, reverse).take(i as int),
            decreases n - i,
        {
            let idx = if reverse {
                log.len() - 1 - i
            } else {
                i
            };
            r.push(log[idx].clone());
            assert(spec_select(log@, limit as nat, reverse).take(i + 1) =~= spec_select(
                log@,
                limit as nat,
                reverse,
            ).take(i as int).push(log@[idx as int]));
            i = i + 1;
        }
        assert(spec_select(log@, limit as nat, reverse).take(n as int) =~= spec_select(
            log@,
            limit as nat,
            reverse,
        ));
        r
    }

    fn select_front<'a>(log: &'a Vec<Registry>, limit: usize, reverse: bool) -> (r: Vec<
        FrontHistoryData<'a>,
    >)
        ensures
            r@.len() == spec_select(log@, limit as nat, reverse).len(),
            forall|i: int|
                #![trigger r@[i]]
                0 <= i < r@.len() ==> {
                    &&& *r@[i].payload == spec_select(log@, limit as nat, reverse)[i]
                    &&& r@[i].msgid == msg_id_value(spec_select(log@, limit as nat, reverse)[i]@.id)
                    &&& r@[i].name@ == msg_id_name(spec_select(log@, limit as nat, reverse)[i]@.id)
                },
    {
        let n = if limit < log.len() {
            limit
        } else {
            log.len()
        };
        let mut r: Vec<FrontHistoryData<'a>> = Vec::with_capacity(n);
        let mut i: usize = 0;
        while i < n
            invariant
                n == min_nat(limit as nat, log@.len()),
                i <= n,
                r@.len() == i,
                forall|k: int|
                    #![trigger r@[k]]
                    0 <= k < i ==> {
                        &&& *r@[k].payload == spec_select(log@, limit as nat, reverse)[k]
                        &&& r@[k].msgid == msg_id_value(
                            spec_select(log@, limit as nat, reverse)[k]@.id,
                        )
                        &&& r@[k].name@ == msg_id_name(
                            spec_select(log@, limit as nat, reverse)[k]@.id,
                        )
                    },
            decreases n - i,
        {
            let idx = if reverse {
                log.len() - 1 - i
            } else {
                i
            };
            r.push(FrontHistoryData::new(&log[idx]));
            i = i + 1;
        }
        r
    }

    /// The first `limit` sent messages, or with `reverse` the last `limit`,
    /// most recent first.
    pub fn get_send(&self, limit: usize, reverse: bool) -> (r: Vec<Registry>)
        ensures
            r@ == spec_select(self.sent(), limit as nat, reverse),
            self.sent().len() <= log_bound(self.capacity()),
    {
        proof {
            use_type_invariant(self);
        }
        History::select(&self.send_history, limit, reverse)
    }

    /// The first `limit` received messages, or with `reverse` the last
    /// `limit`, most recent first.
    pub fn get_recv(&self, limit: usize, reverse: bool) -> (r: Vec<Registry>)
        ensures
            r@ == spec_select(self.received(), limit as nat, reverse),
            self.received().len() <= log_bound(self.capacity()),
    {
        proof {
            use_type_invariant(self);
        }
        History::select(&self.recv_history, limit, reverse)
    }

    /// The entries of `get_send`, as shown to the front end (which serializes
    /// them to JSON).
    pub fn get_send_front(&self, limit: usize, reverse: bool) -> (r: Vec<FrontHistoryData<'_>>)
        ensures
            r@.len() == spec_select(self.sent(), limit as nat, reverse).len(),
            forall|i: int|
                #![trigger r@[i]]
                0 <= i < r@.len() ==> {
                    &&& *r@[i].payload == spec_select(self.sent(), limit as nat, reverse)[i]
                    &&& r@[i].msgid == msg_id_value(spec_select(self.sent(), limit as nat, reverse)[i]@.id)
                    &&& r@[i].name@ == msg_id_name(spec_select(self.sent(), limit as nat, reverse)[i]@.id)
                },
    {
        History::select_front(&self.send_history, limit, reverse)
    }

    /// The entries of `get_recv`, as shown to the front end (which serializes
    /// them to JSON).
    pub fn get_recv_front(&self, limit: usize, reverse: bool) -> (r: Vec<FrontHistoryData<'_>>)
        ensures
            r@.len() == spec_select(self.received(), limit as nat, reverse).len(),
            forall|i: int|
                #![trigger r@[i]]
                0 <= i < r@.len() ==> {
                    &&& *r@[i].payload == spec_select(self.received(), limit as nat, reverse)[i]
                    &&& r@[i].msgid == msg_id_value(spec_select(self.received(), limit as nat, reverse)[i]@.id)
                    &&& r@[i].name@ == msg_id_name(spec_select(self.received(), limit as nat, reverse)[i]@.id)
                },
    {
        History::select_front(&self.recv_history, limit, reverse)
    }
}


/// The gateway agent as listed to the front end.
pub struct FrontGateAgent {
    pub _pid: i64,
}

/// Timing of a ping round trip.
pub struct GamePing {
    pub start: i64,
    pub end: i64,
    pub dur: i64,
}

/// Control commands sent to a running agent.
#[derive(Debug)]
pub enum AgentCtrl {
    /// Stop the agent and hand it back.
    Close,
    /// Emit every reply to the given topic instead of queueing it.
    ListenAck(String),
    /// Queue replies again.
    UnlistenAck,
}

/// Why an agent stopped or refused.
#[derive(Debug, PartialEq, Eq)]
pub enum AgentError {
    /// The agent has not logged in.
    Unauthorized,
    /// The gateway refused the login with this code.
    AuthFailed(ErrCode),
    /// The request channel was closed.
    RequestChannelClosed,
    /// The control channel was closed.
    CtrlChannelClosed,
}

/// The text of an agent's error.
pub open spec fn agent_error_text(e: AgentError) -> Seq<char> {
    match e {
        AgentError::Unauthorized => "unauthorized agent"@,
        AgentError::AuthFailed(c) => "fail to auth. "@ + err_code_text(AuthError::Refused(c)),
        AgentError::RequestChannelClosed => "recv None from Request channel"@,
        AgentError::CtrlChannelClosed => "recv None from ctrl"@,
    }
}

impl AgentError {
    /// The text of the error.
    pub fn message(&self) -> (r: String)
        ensures
            r@ == agent_error_text(*self),
    {
        match self {
            AgentError::Unauthorized => "unauthorized agent".to_owned(),
            AgentError::AuthFailed(c) => {
                let mut s = String::new();
                push_str(&mut s, "fail to auth. ");
                let t = code_text(c);
                push_str(&mut s, t.as_str());
                s
            },
            AgentError::RequestChannelClosed => "recv None from Request channel".to_owned(),
            AgentError::CtrlChannelClosed => "recv None from ctrl".to_owned(),
        }
    }
}

/// Where a reply from the gateway goes.
#[derive(Debug, PartialEq, Eq)]
pub enum AckRoute {
    /// Emitted, as a history entry, to the topic being listened to.
    Emit(String, Registry),
    /// Queued for the next `recv`.
    Forward(Registry),
}

/// Where a reply goes while `topic` is listened to: emitted to that topic,
/// or, with no topic, queued.
pub open spec fn ack_routed(topic: Option<Seq<char>>, ack: Registry, r: AckRoute) -> bool {
    match topic {
        Some(t) => r matches AckRoute::Emit(tp, m) && tp@ == t && m == ack,
        None => r matches AckRoute::Forward(m) && m == ack,
    }
}

/// What a login reply with outcome code `code` makes of the login: success
/// for `0`, otherwise a failure carrying the code.
pub open spec fn login_outcome(code: i32, r: Result<(), AgentError>) -> bool {
    if code == 0 {
        r is Ok
    } else {
        r matches Err(AgentError::AuthFailed(c)) && c == err_code_of(code)
    }
}

/// The state of a gate agent's connection that its decisions depend on.
pub struct GateAgent {
    pid: i64,
    authorized: bool,
    ack_topic: Option<String>,
}

impl GateAgent {
    /// The player the agent plays.
    pub closed spec fn player(&self) -> i64 {
        self.pid
    }

    /// Whether the agent has logged in.
    pub closed spec fn is_authorized(&self) -> bool {
        self.authorized
    }

    /// The topic replies are emitted to, if the agent is listening.
    pub closed spec fn topic(&self) -> Option<Seq<char>> {
        match self.ack_topic {
            Some(t) => Some(t@),
            None => None,
        }
    }

    /// The player the agent plays.
    pub fn pid(&self) -> (r: i64)
        ensures
            r == self.player(),
    {
        self.pid
    }

    /// An agent for player `pid` that has not logged in yet.
    pub fn new(pid: i64) -> (r: GateAgent)
        ensures
            r.player() == pid,
            !r.is_authorized(),
            r.topic() is None,
    {
        GateAgent { pid, authorized: false, ack_topic: None }
    }

    /// The agent as listed to the front end.
    pub fn to_front(&self) -> (r: FrontGateAgent)
        ensures
            r._pid == self.player(),
    {
        FrontGateAgent { _pid: self.pid }
    }

    /// The fast login request of this agent.
    pub fn fast_login_request(&self) -> (r: Registry)
        ensures
            r == Registry::CsFastLogin(CsFastLogin { player_id: self.player() }),
    {
        Registry::CsFastLogin(CsFastLogin { player_id: self.pid })
    }

    /// The login request of this agent with the platform's `token`.
    pub fn login_request(&self, token: &str) -> (r: Registry)
        ensures
            r matches Registry::CsLogin(m) && m.token@ == token@ && m.player_id == self.player(),
    {
        Registry::CsLogin(CsLogin { token: token.to_string(), player_id: self.pid })
    }

    /// Takes the gateway's reply to the fast login: the agent is authorized if
    /// the reply reports success.
    pub fn on_fast_login_ack(&mut self, ack: Registry) -> (r: Result<(), AgentError>)
        requires
            ack is ScFastLogin,
        ensures
            final(self).player() == old(self).player(),
            final(self).topic() == old(self).topic(),
            ack matches Registry::ScFastLogin(m) ==> login_outcome(m.err_code, r)
                && final(self).is_authorized() == (old(self).is_authorized() || m.err_code == 0),
    {
        match ack {
            Registry::ScFastLogin(m) => {
                match m.err_code() {
                    ErrCode::Success => {
                        self.authorized = true;
                        Ok(())
                    },
                    c => Err(AgentError::AuthFailed(c)),
                }
            },
            _ => Err(AgentError::Unauthorized),
        }
    }

    /// Takes the gateway's reply to the login: the agent is authorized if the
    /// reply reports success.
    pub fn on_login_ack(&mut self, ack: Registry) -> (r: Result<(), AgentError>)
        requires
            ack is ScLogin,
        ensures
            final(self).player() == old(self).player(),
            final(self).topic() == old(self).topic(),
            ack matches Registry::ScLogin(m) ==> login_outcome(m.err_code, r)
                && final(self).is_authorized() == (old(self).is_authorized() || m.err_code == 0),
    {
        match ack {
            Registry::ScLogin(m) => {
                match m.err_code() {
                    ErrCode::Success => {
                        self.authorized = true;
                        Ok(())
                    },
                    c => Err(AgentError::AuthFailed(c)),
                }
            },
            _ => Err(AgentError::Unauthorized),
        }
    }

    /// Whether the agent may start its loop: only once it has logged in.
    pub fn start(&self) -> (r: Result<(), AgentError>)
        ensures
            r is Ok <==> self.is_authorized(),
            r matches Err(e) ==> e is Unauthorized,
    {
        if !self.authorized {
            Err(AgentError::Unauthorized)
        } else {
            Ok(())
        }
    }

    /// A request to forward to the gateway: recorded in the history unless it
    /// is a ping, and handed back to be sent. A closed request channel
    /// stops the agent.
    pub fn on_request(&self, his: &mut History, req: Option<Registry>) -> (r: Result<Registry, AgentError>)
        ensures
            match req {
                None => r matches Err(e) && e is RequestChannelClosed && *final(his) == *old(his),
                Some(m) => r == Ok::<Registry, AgentError>(m) && final(his).received() == old(his).received()
                    && final(his).capacity() == old(his).capacity()
                    && final(his).sent() == log_step(old(his).sent(), old(his).capacity(), m, MsgId::CsPing),
            },
    {
        match req {
            None => Err(AgentError::RequestChannelClosed),
            Some(m) => {
                if m.msgid() != MsgId::CsPing.value() {
                    his.push_send(m.clone());
                }
                Ok(m)
            },
        }
    }

    /// A reply from the gateway: recorded in the history unless it is a ping,
    /// then emitted to the listened topic if there is one, queued otherwise.
    pub fn on_ack(&self, his: &mut History, ack: Registry) -> (r: AckRoute)
        ensures
            final(his).sent() == old(his).sent(),
            final(his).capacity() == old(his).capacity(),
            final(his).received() == log_step(old(his).received(), old(his).capacity(), ack, MsgId::ScPing),
            ack_routed(self.topic(), ack, r),
    {
        if ack.msgid() != MsgId::ScPing.value() {
            his.push_recv(ack.clone());
        }
        match &self.ack_topic {
            Some(t) => AckRoute::Emit(t.clone(), ack),
            None => AckRoute::Forward(ack),
        }
    }

    /// A control command: `Ok(true)` to stop and hand the agent back,
    /// `Ok(false)` to go on (after starting or stopping to listen); a closed
    /// control channel stops the agent with an error.
    pub fn on_ctrl(&mut self, ctrl: Option<AgentCtrl>) -> (r: Result<bool, AgentError>)
        ensures
            final(self).player() == old(self).player(),
            final(self).is_authorized() == old(self).is_authorized(),
            match ctrl {
                None => r matches Err(e) && e is CtrlChannelClosed && final(self).topic() == old(self).topic(),
                Some(AgentCtrl::Close) => r == Ok::<bool, AgentError>(true) && final(self).topic() == old(self).topic(),
                Some(AgentCtrl::ListenAck(t)) => r == Ok::<bool, AgentError>(false) && final(self).topic() == Some(t@),
                Some(AgentCtrl::UnlistenAck) => r == Ok::<bool, AgentError>(false) && final(self).topic() is None,
            },
    {
        match ctrl {
            None => Err(AgentError::CtrlChannelClosed),
            Some(AgentCtrl::Close) => Ok(true),
            Some(AgentCtrl::ListenAck(t)) => {
                self.ack_topic = Some(t);
                Ok(false)
            },
            Some(AgentCtrl::UnlistenAck) => {
                self.ack_topic = None;
                Ok(false)
            },
        }
    }
}

/// A query whose limit covers the whole log returns the whole log: in the
/// order the messages came, or with `reverse` most recent first.
pub proof fn lemma_select_whole_log(log: Seq<Registry>, limit: nat)
    requires
        limit >= log.len(),
    ensures
        spec_select(log, limit, false) == log,
        spec_select(log, limit, true) == log.reverse(),
{
    assert(log.take(log.len() as int) =~= log);
    assert(log.reverse().take(log.len() as int) =~= log.reverse());
}

/// Recording a message keeps it as the newest entry and keeps the log
/// within its bound; until the log is full nothing is dropped.
pub proof fn lemma_push_keeps_newest(log: Seq<Registry>, cap: nat, msg: Registry)
    requires
        log.len() <= log_bound(cap),
    ensures
        spec_push(log, cap, msg).last() == msg,
        spec_push(log, cap, msg).len() <= log_bound(cap),
        log.len() < cap ==> spec_push(log, cap, msg) == log.push(msg),
{
}

/// A reversed query after recording a message starts with that message.
pub proof fn lemma_newest_first(log: Seq<Registry>, cap: nat, msg: Registry, limit: nat)
    requires
        log.len() <= log_bound(cap),
        limit >= 1,
    ensures
        spec_select(spec_push(log, cap, msg), limit, true)[0] == msg,
{
    let l = spec_push(log, cap, msg);
    assert(l.reverse()[0] == l[l.len() - 1]);
}

/// The log after recording each of `msgs` in turn, pings (of kind `ping`)
/// left out, as the agent loop records requests (`ping` a request ping) or
/// replies (`ping` a reply ping).
pub open spec fn logged(log: Seq<Registry>, cap: nat, msgs: Seq<Registry>, ping: MsgId) -> Seq<Registry>
    decreases msgs.len(),
{
    if msgs.len() == 0 {
        log
    } else {
        log_step(logged(log, cap, msgs.drop_last(), ping), cap, msgs.last(), ping)
    }
}

/// Over a stream of messages, the log stays within its bound; and while it
/// does not fill up, it gains exactly the messages that are not pings, in
/// the order they came.
pub proof fn lemma_logged_stream(log: Seq<Registry>, cap: nat, msgs: Seq<Registry>, ping: MsgId)
    requires
        log.len() <= log_bound(cap),
    ensures
        logged(log, cap, msgs, ping).len() <= log_bound(cap),
        log.len() + msgs.len() <= cap ==> logged(log, cap, msgs, ping) == log + msgs.filter(
            |m: Registry| m@.id != ping,
        ),
    decreases msgs.len(),
{
    if msgs.len() > 0 {
        let init = msgs.drop_last();
        lemma_logged_stream(log, cap, init, ping);
        let pred = |m: Registry| m@.id != ping;
        assert(msgs =~= init.push(msgs.last()));
        init.lemma_filter_push(msgs.last(), pred);
        if log.len() + msgs.len() <= cap {
            init.lemma_filter_len(pred);
        }
    } else {
        assert(msgs.filter(|m: Registry| m@.id != ping) =~= Seq::<Registry>::empty()) by {
            reveal(Seq::filter);
        }
        assert(log + Seq::<Registry>::empty() =~= log);
    }
}

/// A query with the largest limit returns the whole log of a history.
pub proof fn lemma_query_max_returns_log(log: Seq<Registry>, cap: nat)
    requires
        log.len() <= log_bound(cap),
        cap <= usize::MAX,
    ensures
        spec_select(log, usize::MAX as nat, false) == log,
        spec_select(log, usize::MAX as nat, true) == log.reverse(),
{
    lemma_select_whole_log(log, usize::MAX as nat);
}


/// One request of the agent loop as `GateAgent::on_request` handles it: the
/// send log gains the request unless it is a ping; the rest stays.
pub open spec fn request_step(before: History, after: History, msg: Registry) -> bool {
    &&& after.sent() == log_step(before.sent(), before.capacity(), msg, MsgId::CsPing)
    &&& after.received() == before.received()
    &&& after.capacity() == before.capacity()
}

/// Over a run of requests handled one after another, the send log becomes
/// what `logged` records of them (while the log has room, every request but
/// the pings, in the order they came: see `lemma_logged_stream`); the
/// receive log and the bound stay as they were.
pub proof fn lemma_request_run(hs: Seq<History>, msgs: Seq<Registry>)
    requires
        hs.len() == msgs.len() + 1,
        forall|i: int| #![trigger msgs[i]] 0 <= i < msgs.len() ==> request_step(hs[i], hs[i + 1], msgs[i]),
    ensures
        hs.last().sent() == logged(hs[0].sent(), hs[0].capacity(), msgs, MsgId::CsPing),
        hs.last().received() == hs[0].received(),
        hs.last().capacity() == hs[0].capacity(),
    decreases msgs.len(),
{
    if msgs.len() > 0 {
        let n = msgs.len() - 1;
        let hs0 = hs.drop_last();
        let ms0 = msgs.drop_last();
        assert forall|i: int| #![trigger ms0[i]] 0 <= i < ms0.len() implies request_step(hs0[i], hs0[i + 1], ms0[i]) by {
            assert(msgs[i] == ms0[i]);
        }
        lemma_request_run(hs0, ms0);
        assert(msgs[n] == msgs.last());
        assert(hs0.last() == hs[n]);
    }
}

/// One reply of the agent loop as `GateAgent::on_ack` handles it while
/// `topic` is listened to: the receive log gains the reply unless it is a
/// ping, and the reply goes where `ack_routed` says.
pub open spec fn ack_step(before: History, after: History, topic: Option<Seq<char>>, ack: Registry, r: AckRoute) -> bool {
    &&& after.received() == log_step(before.received(), before.capacity(), ack, MsgId::ScPing)
    &&& after.sent() == before.sent()
    &&& after.capacity() == before.capacity()
    &&& ack_routed(topic, ack, r)
}

/// The replies a run of routes queues, in order.
pub open spec fn forwarded(routes: Seq<AckRoute>) -> Seq<Registry>
    decreases routes.len(),
{
    if routes.len() == 0 {
        Seq::empty()
    } else {
        match routes.last() {
            AckRoute::Forward(m) => forwarded(routes.drop_last()).push(m),
            AckRoute::Emit(_, _) => forwarded(routes.drop_last()),
        }
    }
}

/// The topics and replies a run of routes emits, in order.
pub open spec fn emitted(routes: Seq<AckRoute>) -> Seq<(Seq<char>, Registry)>
    decreases routes.len(),
{
    if routes.len() == 0 {
        Seq::empty()
    } else {
        match routes.last() {
            AckRoute::Emit(t, m) => emitted(routes.drop_last()).push((t@, m)),
            AckRoute::Forward(_) => emitted(routes.drop_last()),
        }
    }
}

/// The replies of `acks` that came while no topic was listened to (the
/// topic at each reply is in `topics`), in order.
pub open spec fn unlistened(topics: Seq<Option<Seq<char>>>, acks: Seq<Registry>) -> Seq<Registry>
    decreases acks.len(),
{
    if acks.len() == 0 {
        Seq::empty()
    } else {
        let rest = unlistened(topics.drop_last(), acks.drop_last());
        match topics.last() {
            None => rest.push(acks.last()),
            Some(_) => rest,
        }
    }
}

/// The replies of `acks` that came while a topic was listened to, each with
/// that topic, in order.
pub open spec fn listened(topics: Seq<Option<Seq<char>>>, acks: Seq<Registry>) -> Seq<(Seq<char>, Registry)>
    decreases acks.len(),
{
    if acks.len() == 0 {
        Seq::empty()
    } else {
        let rest = listened(topics.drop_last(), acks.drop_last());
        match topics.last() {
            Some(t) => rest.push((t, acks.last())),
            None => rest,
        }
    }
}

/// Over a run of replies handled one after another: those that came while
/// no topic was listened to are queued, in arrival order; those that came
/// while one was are emitted to it, in arrival order, and not queued; the
/// receive log becomes what `logged` records of them (while the log has
/// room, every reply but the pings, in arrival order); the send log and the
/// bound stay as they were.
pub proof fn lemma_ack_run(hs: Seq<History>, topics: Seq<Option<Seq<char>>>, acks: Seq<Registry>, routes: Seq<AckRoute>)
    requires
        hs.len() == acks.len() + 1,
        topics.len() == acks.len(),
        routes.len() == acks.len(),
        forall|i: int| #![trigger acks[i]] 0 <= i < acks.len() ==> ack_step(hs[i], hs[i + 1], topics[i], acks[i], routes[i]),
    ensures
        forwarded(routes) == unlistened(topics, acks),
        emitted(routes) == listened(topics, acks),
        hs.last().received() == logged(hs[0].received(), hs[0].capacity(), acks, MsgId::ScPing),
        hs.last().sent() == hs[0].sent(),
        hs.last().capacity() == hs[0].capacity(),
    decreases acks.len(),
{
    if acks.len() > 0 {
        let n = acks.len() - 1;
        let hs0 = hs.drop_last();
        let ts0 = topics.drop_last();
        let as0 = acks.drop_last();
        let rs0 = routes.drop_last();
        assert forall|i: int| #![trigger as0[i]] 0 <= i < as0.len() implies ack_step(hs0[i], hs0[i + 1], ts0[i], as0[i], rs0[i]) by {
            assert(acks[i] == as0[i]);
        }
        lemma_ack_run(hs0, ts0, as0, rs0);
        assert(acks[n] == acks.last());
        assert(hs0.last() == hs[n]);
        assert(routes[n] == routes.last());
        assert(topics[n] == topics.last());
    }
}

} // verus!
