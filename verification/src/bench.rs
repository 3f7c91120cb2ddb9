//! The benchmark of the console: a script of requests broadcast to many
//! fast-login clients, and the counters each client keeps.
use vstd::prelude::*;
use crate::msg::CsMsg;
use crate::misc::ClientInfo;
use crate::gclient::GClientBuilder;

verus! {

/// What a benchmark client does after an event.
#[derive(Debug, PartialEq, Eq)]
pub enum BenchAction {
    /// Send this request to the gateway.
    Send(CsMsg),
    /// The script is over: stop and report.
    Stop,
    /// Wait for the next event.
    Continue,
}

/// The counters of one benchmark client.
#[derive(Debug)]
pub struct Metrics {
    pub send_num: usize,
    pub recv_num: usize,
    pub duration_nanos: u64,
    pub errs: Vec<String>,
}

impl Default for Metrics {
    fn default() -> (r: Metrics)
        ensures
            r.send_num == 0,
            r.recv_num == 0,
            r.duration_nanos == 0,
            r.errs@ == Seq::<String>::empty(),
    {
        Metrics { send_num: 0, recv_num: 0, duration_nanos: 0, errs: Vec::new() }
    }
}

impl Metrics {
    /// An item of the broadcast script: a request is counted and sent, the
    /// end of the script stops the client, a broadcast error is recorded.
    pub fn on_script(&mut self, item: Result<Option<CsMsg>, String>) -> (r: BenchAction)
        requires
            old(self).send_num < usize::MAX,
        ensures
            final(self).recv_num == old(self).recv_num,
            final(self).duration_nanos == old(self).duration_nanos,
            match item {
                Ok(Some(m)) => r == BenchAction::Send(m) && final(self).send_num == old(self).send_num + 1
                    && final(self).errs@ == old(self).errs@,
                Ok(None) => r == BenchAction::Stop && final(self).send_num == old(self).send_num
                    && final(self).errs@ == old(self).errs@,
                Err(e) => r == BenchAction::Continue && final(self).send_num == old(self).send_num
                    && final(self).errs@ == old(self).errs@.push(e),
            },
    {
        match item {
            Ok(Some(m)) => {
                self.send_num = self.send_num + 1;
                BenchAction::Send(m)
            },
            Ok(None) => BenchAction::Stop,
            Err(e) => {
                self.errs.push(e);
                BenchAction::Continue
            },
        }
    }

    /// The outcome of sending a request: a failure is recorded.
    pub fn on_sent(&mut self, result: Result<(), String>)
        ensures
            final(self).send_num == old(self).send_num,
            final(self).recv_num == old(self).recv_num,
            final(self).duration_nanos == old(self).duration_nanos,
            match result {
                Ok(()) => final(self).errs@ == old(self).errs@,
                Err(e) => final(self).errs@ == old(self).errs@.push(e),
            },
    {
        if let Err(e) = result {
            self.errs.push(e);
        }
    }

    /// The outcome of waiting for a reply: a reply is counted, a failure
    /// recorded.
    pub fn on_recv<T>(&mut self, result: Result<T, String>)
        requires
            old(self).recv_num < usize::MAX,
        ensures
            final(self).send_num == old(self).send_num,
            final(self).duration_nanos == old(self).duration_nanos,
            match result {
                Ok(_) => final(self).recv_num == old(self).recv_num + 1 && final(self).errs@ == old(self).errs@,
                Err(e) => final(self).recv_num == old(self).recv_num && final(self).errs@ == old(self).errs@.push(e),
            },
    {
        match result {
            Ok(_) => {
                self.recv_num = self.recv_num + 1;
            },
            Err(e) => {
                self.errs.push(e);
            },
        }
    }

    /// Records how long the client ran.
    pub fn finish(&mut self, elapsed_nanos: u64)
        ensures
            final(self).send_num == old(self).send_num,
            final(self).recv_num == old(self).recv_num,
            final(self).errs@ == old(self).errs@,
            final(self).duration_nanos == elapsed_nanos,
    {
        self.duration_nanos = elapsed_nanos;
    }
}

/// The items broadcast for a script: each request, then the end marker.
pub open spec fn broadcast_of(script: Seq<CsMsg>) -> Seq<Option<CsMsg>> {
    script.map_values(|m: CsMsg| Some(m)).push(None)
}

/// The number of requests a client sends from a broadcast: those before
/// the first end marker.
pub open spec fn sends_before_stop(items: Seq<Option<CsMsg>>) -> nat
    decreases items.len(),
{
    if items.len() == 0 {
        0
    } else if items[0] is None {
        0
    } else {
        1 + sends_before_stop(items.drop_first())
    }
}

/// Every benchmark client sends each request of the script once, and stops
/// at the end of it.
pub proof fn lemma_bench_sends_script(script: Seq<CsMsg>)
    ensures
        sends_before_stop(broadcast_of(script)) == script.len(),
        broadcast_of(script).last() is None,
    decreases script.len(),
{
    if script.len() > 0 {
        assert(broadcast_of(script).drop_first() =~= broadcast_of(script.drop_first()));
        lemma_bench_sends_script(script.drop_first());
    } else {
        assert(broadcast_of(script) =~= seq![None::<CsMsg>]);
    }
}

/// The player ids of the benchmark clients: `1` to `count`.
pub open spec fn bench_ids(count: i64) -> Seq<i64> {
    Seq::new(if count > 0 { count as nat } else { 0 }, |k: int| (k + 1) as i64)
}

/// The benchmark: the gateway, the number of clients and the script.
pub struct Cmder {
    gate: String,
    iter: usize,
    count: usize,
    script: Vec<CsMsg>,
}

impl Cmder {
    /// The gateway the clients connect to.
    pub closed spec fn gate_addr(&self) -> Seq<char> {
        self.gate@
    }

    /// The number of iterations the benchmark was made with.
    pub closed spec fn iterations(&self) -> usize {
        self.iter
    }

    /// The number of clients.
    pub closed spec fn client_count(&self) -> usize {
        self.count
    }

    /// The requests of the script, in order.
    pub closed spec fn script(&self) -> Seq<CsMsg> {
        self.script@
    }

    /// A benchmark of `count` clients on `gate`, with an empty script.
    pub fn new(gate: String, iter: usize, count: usize) -> (r: Cmder)
        ensures
            r.gate_addr() == gate@,
            r.iterations() == iter,
            r.client_count() == count,
            r.script() == Seq::<CsMsg>::empty(),
    {
        Cmder { gate, iter, count, script: Vec::with_capacity(1024) }
    }

    /// How the clients are configured: client `k` logs in fast as player
    /// `k`, for `k` from `1` to the number of clients.
    pub fn client_builders(&self) -> (r: Vec<GClientBuilder<String>>)
        ensures
            r@.len() == bench_ids(self.client_count() as i64).len(),
            forall|k: int|
                0 <= k < r@.len() ==> ((#[trigger] r@[k]).gate_addr() matches Some(g) && g@ == self.gate_addr()
                    && r@[k].client_info() == Some(ClientInfo::FastLogin { player_id: bench_ids(self.client_count() as i64)[k] })),
    {
        let n: i64 = self.count as i64;
        let mut r: Vec<GClientBuilder<String>> = Vec::new();
        let mut k: i64 = 0;
        while k < n
            invariant
                n == self.count as i64,
                0 <= k,
                n > 0 ==> k <= n,
                n <= 0 ==> k == 0,
                r@.len() == k,
                forall|j: int|
                    0 <= j < r@.len() ==> ((#[trigger] r@[j]).gate_addr() matches Some(g) && g@ == self.gate@
                        && r@[j].client_info() == Some(ClientInfo::FastLogin { player_id: (j + 1) as i64 })),
            decreases n - k,
        {
            k = k + 1;
            let b = GClientBuilder::new().gate(self.gate.clone()).info(ClientInfo::FastLogin { player_id: k });
            r.push(b);
        }
        proof {
            if n > 0 {
                assert(k == n);
                assert(bench_ids(n).len() == n as nat);
            } else {
                assert(k == 0);
                assert(bench_ids(n).len() == 0);
            }
            assert(r@.len() == bench_ids(n).len());
            assert forall|j: int| 0 <= j < r@.len() implies bench_ids(n)[j] == (j + 1) as i64 by {}
        }
        r
    }

    /// Appends `count` copies of `cs` to the script.
    pub fn add_script(&mut self, cs: CsMsg, count: usize)
        ensures
            final(self).script() == old(self).script() + Seq::new(count as nat, |k: int| cs),
            final(self).gate_addr() == old(self).gate_addr(),
            final(self).iterations() == old(self).iterations(),
            final(self).client_count() == old(self).client_count(),
    {
        let mut i: usize = 0;
        while i < count
            invariant
                i <= count,
                self.gate@ == old(self).gate@,
                self.iter == old(self).iter,
                self.count == old(self).count,
                self.script@ == old(self).script@ + Seq::new(i as nat, |k: int| cs),
            decreases count - i,
        {
            self.script.push(cs.clone());
            assert(old(self).script@ + Seq::new((i + 1) as nat, |k: int| cs) =~= (old(self).script@ + Seq::new(i as nat, |k: int| cs)).push(cs));
            i = i + 1;
        }
    }

    /// The items to broadcast to the clients: each request of the script,
    /// then the end marker.
    pub fn broadcast_items(&self) -> (r: Vec<Option<CsMsg>>)
        ensures
            r@ == broadcast_of(self.script()),
    {
        let mut r: Vec<Option<CsMsg>> = Vec::new();
        let mut i: usize = 0;
        while i < self.script.len()
            invariant
                i <= self.script@.len(),
                r@ == self.script@.take(i as int).map_values(|m: CsMsg| Some(m)),
            decreases self.script@.len() - i,
        {
            r.push(Some(self.script[i].clone()));
            assert(self.script@.take(i + 1).map_values(|m: CsMsg| Some(m)) =~= self.script@.take(i as int).map_values(|m: CsMsg| Some(m)).push(Some(self.script@[i as int])));
            i = i + 1;
        }
        r.push(None);
        assert(self.script@.take(self.script@.len() as int) =~= self.script@);
        r
    }
}

} // verus!
