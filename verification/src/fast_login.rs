//! The fast-login client of the client manager: tagged requests and
//! replies, its history, and the decisions of its connection loop.
use vstd::prelude::*;
use crate::msg::{CsMsg, ScMsg, CsFastLogin, ErrCode, err_code_of};
use crate::codec::CodecError;

verus! {

/// A reply, tagged with the client that received it.
#[derive(Debug, PartialEq, Eq)]
pub struct TagScMsg<T> {
    pub from: T,
    pub msg: ScMsg,
}

/// A request, for one client (`to`) or for every client (`None`).
#[derive(Debug, PartialEq, Eq)]
pub struct TagCsMsg<T> {
    pub to: Option<T>,
    pub msg: CsMsg,
}

impl Clone for TagCsMsg<u64> {
    fn clone(&self) -> (r: Self)
        ensures
            r == *self,
    {
        TagCsMsg { to: self.to, msg: self.msg.clone() }
    }
}

impl Clone for TagScMsg<u64> {
    fn clone(&self) -> (r: Self)
        ensures
            r == *self,
    {
        TagScMsg { from: self.from, msg: self.msg.clone() }
    }
}

/// The requests a client sent and the replies it received, oldest first.
#[derive(Debug)]
pub struct Histroy {
    pub cs: Vec<CsMsg>,
    pub sc: Vec<ScMsg>,
}

impl Histroy {
    /// An empty history.
    pub fn new() -> (r: Histroy)
        ensures
            r.cs@ == Seq::<CsMsg>::empty(),
            r.sc@ == Seq::<ScMsg>::empty(),
    {
        Histroy { cs: Vec::with_capacity(512), sc: Vec::with_capacity(512) }
    }
}

/// Why the fast login failed.
#[derive(Debug, PartialEq, Eq)]
pub enum FastLoginError {
    /// The gateway refused the login of this client.
    AuthFailed(u64, ErrCode),
    /// The gateway answered with another kind of message.
    Unexpected(ScMsg),
    /// The reply's frame did not decode.
    Codec(CodecError),
    /// The connection of this client closed.
    ConnectionClosed(u64),
}

/// What the loop does with a request.
#[derive(Debug, PartialEq, Eq)]
pub enum RequestStep {
    /// The request is for another client: skip it.
    Skip,
    /// Send this message to the gateway.
    Send(CsMsg),
}

/// What the connection loop does after an event.
#[derive(Debug, PartialEq, Eq)]
pub enum LoopStep {
    /// Hand this tagged reply to the manager.
    Forward(TagScMsg<u64>),
    /// Log this frame error and go on.
    LogFrameError(CodecError),
    /// Send this request to the gateway (and record it once sent).
    Send(CsMsg),
    /// Go on with nothing to do.
    Skip,
    /// Stop the loop with this outcome.
    Stop(Result<(), String>),
}

/// What the connection loop of client `id` does with one item read from
/// the connection, and what its receive log becomes (`before` to `after`):
/// a reply is recorded and forwarded with the client's id, a frame that
/// did not decode is logged and skipped, the end of the stream stops the
/// loop with the error `connection closed`.
pub open spec fn read_step(id: u64, before: Seq<ScMsg>, after: Seq<ScMsg>, item: Option<Result<ScMsg, CodecError>>, r: LoopStep) -> bool {
    match item {
        Some(Ok(f)) => r == LoopStep::Forward(TagScMsg { from: id, msg: f }) && after == before.push(f),
        Some(Err(e)) => r == LoopStep::LogFrameError(e) && after == before,
        None => (r matches LoopStep::Stop(Err(t)) && t@ == "connection closed"@) && after == before,
    }
}

/// The state of a fast-login client that its decisions depend on.
pub struct FastLoginClient {
    id: u64,
    history: Histroy,
}

impl FastLoginClient {
    /// The player the client plays.
    pub closed spec fn client_id(&self) -> u64 {
        self.id
    }

    /// The requests sent so far, oldest first.
    pub closed spec fn sent(&self) -> Seq<CsMsg> {
        self.history.cs@
    }

    /// The replies received so far, oldest first.
    pub closed spec fn received(&self) -> Seq<ScMsg> {
        self.history.sc@
    }

    /// A client for player `id` with an empty history.
    pub fn new(id: u64) -> (r: FastLoginClient)
        ensures
            r.client_id() == id,
            r.sent() == Seq::<CsMsg>::empty(),
            r.received() == Seq::<ScMsg>::empty(),
    {
        FastLoginClient { id, history: Histroy::new() }
    }

    /// The login request of this client.
    pub fn login_request(&self) -> (r: CsMsg)
        ensures
            r == CsMsg::CsFastLogin(CsFastLogin { player_id: self.client_id() as i64 }),
    {
        CsMsg::CsFastLogin(CsFastLogin { player_id: self.id as i64 })
    }

    /// Judges the reply to the login: a fast login reply with code `0`
    /// succeeds, another code fails, another message is unexpected.
    pub fn verify_auth(&self, reply: Option<Result<ScMsg, CodecError>>) -> (r: Result<(), FastLoginError>)
        ensures
            match reply {
                None => r == Err::<(), FastLoginError>(FastLoginError::ConnectionClosed(self.client_id())),
                Some(Err(e)) => r == Err::<(), FastLoginError>(FastLoginError::Codec(e)),
                Some(Ok(ScMsg::ScFastLogin(m))) => if m.err_code == 0 {
                    r is Ok
                } else {
                    r == Err::<(), FastLoginError>(FastLoginError::AuthFailed(self.client_id(), err_code_of(m.err_code)))
                },
                Some(Ok(other)) => r == Err::<(), FastLoginError>(FastLoginError::Unexpected(other)),
            },
    {
        match reply {
            None => Err(FastLoginError::ConnectionClosed(self.id)),
            Some(Err(e)) => Err(FastLoginError::Codec(e)),
            Some(Ok(ScMsg::ScFastLogin(m))) => match m.err_code() {
                ErrCode::Success => Ok(()),
                c => Err(FastLoginError::AuthFailed(self.id, c)),
            },
            Some(Ok(other)) => Err(FastLoginError::Unexpected(other)),
        }
    }

    /// A reply from the gateway: recorded, and tagged with the client's id for
    /// the manager.
    pub fn on_frame(&mut self, frame: ScMsg) -> (r: TagScMsg<u64>)
        ensures
            r.from == old(self).client_id(),
            r.msg == frame,
            final(self).client_id() == old(self).client_id(),
            final(self).received() == old(self).received().push(frame),
            final(self).sent() == old(self).sent(),
    {
        self.history.sc.push(frame.clone());
        TagScMsg { msg: frame, from: self.id }
    }

    /// A request from the manager: sent if it is for every client or for
    /// this one, skipped otherwise.
    pub fn on_request(&self, req: TagCsMsg<u64>) -> (r: RequestStep)
        ensures
            match req.to {
                Some(to) => if to != self.client_id() {
                    r == RequestStep::Skip
                } else {
                    r == RequestStep::Send(req.msg)
                },
                None => r == RequestStep::Send(req.msg),
            },
    {
        if let Some(to) = req.to {
            if self.id != to {
                return RequestStep::Skip;
            }
        }
        RequestStep::Send(req.msg)
    }

    /// What the connection gave: a reply is recorded and forwarded, a frame
    /// that did not decode is logged and skipped, and the end of the stream
    /// stops the loop with the error `connection closed`.
    pub fn on_read(&mut self, item: Option<Result<ScMsg, CodecError>>) -> (r: LoopStep)
        ensures
            final(self).client_id() == old(self).client_id(),
            final(self).sent() == old(self).sent(),
            read_step(old(self).client_id(), old(self).received(), final(self).received(), item, r),
    {
        match item {
            Some(Ok(f)) => LoopStep::Forward(self.on_frame(f)),
            Some(Err(e)) => LoopStep::LogFrameError(e),
            None => LoopStep::Stop(Err("connection closed".to_owned())),
        }
    }

    /// What the request channel gave: a request for this client (or for
    /// every client) is sent, one for another client skipped; a failed
    /// channel stops the loop with its error.
    pub fn on_request_item(&self, item: Result<TagCsMsg<u64>, String>) -> (r: LoopStep)
        ensures
            match item {
                Ok(req) => if req.to is Some && req.to.unwrap() != self.client_id() {
                    r == LoopStep::Skip
                } else {
                    r == LoopStep::Send(req.msg)
                },
                Err(e) => r == LoopStep::Stop(Err::<(), String>(e)),
            },
    {
        match item {
            Ok(req) => match self.on_request(req) {
                RequestStep::Skip => LoopStep::Skip,
                RequestStep::Send(m) => LoopStep::Send(m),
            },
            Err(e) => LoopStep::Stop(Err(e)),
        }
    }

    /// The close signal stops the loop successfully.
    pub fn on_close(&self) -> (r: LoopStep)
        ensures
            r == LoopStep::Stop(Ok::<(), String>(())),
    {
        LoopStep::Stop(Ok(()))
    }

    /// Records a request once it has been sent.
    pub fn on_sent(&mut self, msg: CsMsg)
        ensures
            final(self).client_id() == old(self).client_id(),
            final(self).sent() == old(self).sent().push(msg),
            final(self).received() == old(self).received(),
    {
        self.history.cs.push(msg);
    }

    /// The player the client plays.
    pub fn id(&self) -> (r: u64)
        ensures
            r == self.client_id(),
    {
        self.id
    }

    /// The history of the client.
    pub fn history(&self) -> (r: &Histroy)
        ensures
            r.cs@ == self.sent(),
            r.sc@ == self.received(),
    {
        &self.history
    }
}

/// The log after recording each of `items` in turn.
pub open spec fn recorded<T>(log: Seq<T>, items: Seq<T>) -> Seq<T>
    decreases items.len(),
{
    if items.len() == 0 {
        log
    } else {
        recorded(log, items.drop_last()).push(items.last())
    }
}

/// Recording replies one by one keeps every one of them, in arrival order.
pub proof fn lemma_recorded_in_order<T>(log: Seq<T>, items: Seq<T>)
    ensures
        recorded(log, items) == log + items,
    decreases items.len(),
{
    if items.len() > 0 {
        lemma_recorded_in_order(log, items.drop_last());
        assert(log + items =~= (log + items.drop_last()).push(items.last()));
    } else {
        assert(log + items =~= log);
    }
}


/// The replies among the items read from a connection, in order.
pub open spec fn decoded(items: Seq<Result<ScMsg, CodecError>>) -> Seq<ScMsg>
    decreases items.len(),
{
    if items.len() == 0 {
        Seq::empty()
    } else {
        match items.last() {
            Ok(f) => decoded(items.drop_last()).push(f),
            Err(_) => decoded(items.drop_last()),
        }
    }
}

/// Replies tagged with client `id`, in order.
pub open spec fn tagged(id: u64, frames: Seq<ScMsg>) -> Seq<TagScMsg<u64>>
    decreases frames.len(),
{
    if frames.len() == 0 {
        Seq::empty()
    } else {
        tagged(id, frames.drop_last()).push(TagScMsg { from: id, msg: frames.last() })
    }
}

/// The tagged replies a run of loop steps hands to the manager, in order.
pub open spec fn forwarded_replies(steps: Seq<LoopStep>) -> Seq<TagScMsg<u64>>
    decreases steps.len(),
{
    if steps.len() == 0 {
        Seq::empty()
    } else {
        match steps.last() {
            LoopStep::Forward(t) => forwarded_replies(steps.drop_last()).push(t),
            _ => forwarded_replies(steps.drop_last()),
        }
    }
}

/// Over a run of items read from the connection (the stream not ended), as
/// `FastLoginClient::on_read` handles them one after another: every reply
/// is recorded in arrival order and handed to the manager tagged with the
/// client's id, in the same order; frames that did not decode are skipped;
/// the loop does not stop.
pub proof fn lemma_read_run(id: u64, logs: Seq<Seq<ScMsg>>, items: Seq<Result<ScMsg, CodecError>>, steps: Seq<LoopStep>)
    requires
        logs.len() == items.len() + 1,
        steps.len() == items.len(),
        forall|i: int| #![trigger items[i]] 0 <= i < items.len() ==> read_step(id, logs[i], logs[i + 1], Some(items[i]), steps[i]),
    ensures
        logs.last() == logs[0] + decoded(items),
        forwarded_replies(steps) == tagged(id, decoded(items)),
        forall|i: int| 0 <= i < steps.len() ==> !(#[trigger] steps[i] is Stop),
    decreases items.len(),
{
    if items.len() > 0 {
        let n = items.len() - 1;
        let ls0 = logs.drop_last();
        let is0 = items.drop_last();
        let ss0 = steps.drop_last();
        assert forall|i: int| #![trigger is0[i]] 0 <= i < is0.len() implies read_step(id, ls0[i], ls0[i + 1], Some(is0[i]), ss0[i]) by {
            assert(items[i] == is0[i]);
        }
        lemma_read_run(id, ls0, is0, ss0);
        assert(items[n] == items.last());
        assert(ls0.last() == logs[n]);
        assert(steps[n] == steps.last());
        match items.last() {
            Ok(f) => {
                assert(logs[0] + decoded(items) =~= (logs[0] + decoded(is0)).push(f));
                assert(decoded(items).drop_last() =~= decoded(is0));
            },
            Err(_) => {},
        }
        assert forall|i: int| 0 <= i < steps.len() implies !(#[trigger] steps[i] is Stop) by {
            if i < n {
                assert(steps[i] == ss0[i]);
            }
        }
    } else {
        assert(logs[0] + decoded(items) =~= logs[0]);
    }
}

} // verus!
