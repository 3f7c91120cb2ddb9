//! The agent manager of the first desktop tool: account agents by user
//! name, running gateway agents and stopped ones by player id.
use vstd::prelude::*;
use crate::pf::{PfAgent, FrontPfAgent, FrontAgentMgr};
use crate::desktop_agent::{GateAgent, FrontGateAgent};
use crate::text::str_eq;

verus! {

/// The map that a list of entries stands for: each key with the value of
/// its entry.
pub open spec fn entries_map<K, V>(s: Seq<(K, V)>) -> Map<K, V>
    decreases s.len(),
{
    if s.len() == 0 {
        Map::empty()
    } else {
        entries_map(s.drop_last()).insert(s.last().0, s.last().1)
    }
}

/// No key occurs in two entries.
pub open spec fn distinct_keys<K, V>(s: Seq<(K, V)>) -> bool {
    forall|i: int, j: int| 0 <= i < j < s.len() ==> s[i].0 != s[j].0
}

/// The keys of the entries, in order.
pub open spec fn entry_keys<K, V>(s: Seq<(K, V)>) -> Seq<K> {
    s.map_values(|e: (K, V)| e.0)
}

/// With distinct keys, the map holds exactly the entries' keys, each with
/// the value of its entry.
pub proof fn lemma_entries_lookup<K, V>(s: Seq<(K, V)>)
    requires
        distinct_keys(s),
    ensures
        forall|k: K| #[trigger] entries_map(s).contains_key(k) <==> exists|i: int| 0 <= i < s.len() && s[i].0 == k,
        forall|i: int| 0 <= i < s.len() ==> entries_map(s)[#[trigger] s[i].0] == s[i].1,
    decreases s.len(),
{
    if s.len() > 0 {
        let t = s.drop_last();
        let n = s.len() - 1;
        assert(distinct_keys(t)) by {
            assert forall|i: int, j: int| 0 <= i < j < t.len() implies t[i].0 != t[j].0 by {
                assert(s[i] == t[i] && s[j] == t[j]);
            }
        }
        lemma_entries_lookup(t);
        assert forall|k: K| #[trigger] entries_map(s).contains_key(k) <==> exists|i: int| 0 <= i < s.len() && s[i].0 == k by {
            if entries_map(s).contains_key(k) {
                if k == s.last().0 {
                    assert(s[n].0 == k);
                } else {
                    assert(entries_map(t).contains_key(k));
                    let i = choose|i: int| 0 <= i < t.len() && t[i].0 == k;
                    assert(s[i] == t[i]);
                }
            }
            if exists|i: int| 0 <= i < s.len() && s[i].0 == k {
                let i = choose|i: int| 0 <= i < s.len() && s[i].0 == k;
                if i < n {
                    assert(t[i] == s[i]);
                    assert(entries_map(t).contains_key(k));
                }
            }
        }
        assert forall|i: int| 0 <= i < s.len() implies entries_map(s)[#[trigger] s[i].0] == s[i].1 by {
            if i < n {
                assert(t[i] == s[i]);
                assert(s[i].0 != s[n].0);
                assert(entries_map(t)[t[i].0] == t[i].1);
            }
        }
    }
}

/// Replacing the value of entry `i` replaces the value of its key.
pub proof fn lemma_entries_update<K, V>(s: Seq<(K, V)>, i: int, v: V)
    requires
        distinct_keys(s),
        0 <= i < s.len(),
    ensures
        distinct_keys(s.update(i, (s[i].0, v))),
        entries_map(s.update(i, (s[i].0, v))) == entries_map(s).insert(s[i].0, v),
        entry_keys(s.update(i, (s[i].0, v))) == entry_keys(s),
{
    let u = s.update(i, (s[i].0, v));
    assert(distinct_keys(u)) by {
        assert forall|a: int, b: int| 0 <= a < b < u.len() implies u[a].0 != u[b].0 by {
            assert(u[a].0 == s[a].0 && u[b].0 == s[b].0);
        }
    }
    lemma_entries_lookup(s);
    lemma_entries_lookup(u);
    let m = entries_map(s).insert(s[i].0, v);
    assert forall|k: K| #[trigger] entries_map(u).contains_key(k) <==> m.contains_key(k) by {
        if m.contains_key(k) && k != s[i].0 {
            let j = choose|j: int| 0 <= j < s.len() && s[j].0 == k;
            assert(u[j].0 == k);
        }
        if entries_map(u).contains_key(k) {
            let j = choose|j: int| 0 <= j < u.len() && u[j].0 == k;
            assert(s[j].0 == k);
        }
        if k == s[i].0 {
            assert(u[i].0 == k);
        }
    }
    assert forall|k: K| #[trigger] entries_map(u).contains_key(k) implies entries_map(u)[k] == m[k] by {
        let j = choose|j: int| 0 <= j < u.len() && u[j].0 == k;
        assert(entries_map(u)[u[j].0] == u[j].1);
        if j != i {
            assert(s[j] == u[j]);
            assert(entries_map(s)[s[j].0] == s[j].1);
        }
    }
    assert(entries_map(u) =~= m);
    assert(entry_keys(u) =~= entry_keys(s));
}

/// Adding an entry with a new key adds that key with its value.
pub proof fn lemma_entries_push<K, V>(s: Seq<(K, V)>, k: K, v: V)
    requires
        distinct_keys(s),
        !entries_map(s).contains_key(k),
    ensures
        distinct_keys(s.push((k, v))),
        entries_map(s.push((k, v))) == entries_map(s).insert(k, v),
        entry_keys(s.push((k, v))) == entry_keys(s).push(k),
{
    let p = s.push((k, v));
    lemma_entries_lookup(s);
    assert(distinct_keys(p)) by {
        assert forall|a: int, b: int| 0 <= a < b < p.len() implies p[a].0 != p[b].0 by {
            assert(p[a] == s[a]);
            if b < s.len() {
                assert(p[b] == s[b]);
            } else {
                assert(s[a].0 != k);
            }
        }
    }
    assert(p.drop_last() =~= s);
    assert(entry_keys(p) =~= entry_keys(s).push(k));
}

/// Taking out entry `i` takes out its key.
pub proof fn lemma_entries_remove<K, V>(s: Seq<(K, V)>, i: int)
    requires
        distinct_keys(s),
        0 <= i < s.len(),
    ensures
        distinct_keys(s.remove(i)),
        entries_map(s.remove(i)) == entries_map(s).remove(s[i].0),
        entry_keys(s.remove(i)) == entry_keys(s).remove(i),
{
    let r = s.remove(i);
    assert(distinct_keys(r)) by {
        assert forall|a: int, b: int| 0 <= a < b < r.len() implies r[a].0 != r[b].0 by {
            let sa = if a < i { a } else { a + 1 };
            let sb = if b < i { b } else { b + 1 };
            assert(r[a] == s[sa] && r[b] == s[sb]);
        }
    }
    lemma_entries_lookup(s);
    lemma_entries_lookup(r);
    let m = entries_map(s).remove(s[i].0);
    assert forall|k: K| #[trigger] entries_map(r).contains_key(k) <==> m.contains_key(k) by {
        if m.contains_key(k) {
            let j = choose|j: int| 0 <= j < s.len() && s[j].0 == k;
            assert(j != i);
            if j < i {
                assert(r[j] == s[j]);
            } else {
                assert(r[j - 1] == s[j]);
            }
        }
        if entries_map(r).contains_key(k) {
            let j = choose|j: int| 0 <= j < r.len() && r[j].0 == k;
            let sj = if j < i { j } else { j + 1 };
            assert(r[j] == s[sj]);
            assert(s[sj].0 != s[i].0);
        }
    }
    assert forall|k: K| #[trigger] entries_map(r).contains_key(k) implies entries_map(r)[k] == m[k] by {
        let j = choose|j: int| 0 <= j < r.len() && r[j].0 == k;
        let sj = if j < i { j } else { j + 1 };
        assert(r[j] == s[sj]);
        assert(entries_map(r)[r[j].0] == r[j].1);
        assert(entries_map(s)[s[sj].0] == s[sj].1);
    }
    assert(entries_map(r) =~= m);
    assert(entry_keys(r) =~= entry_keys(s).remove(i));
}


/// With distinct keys, the keys in order name each key of the map once.
pub proof fn lemma_entry_keys<K, V>(s: Seq<(K, V)>)
    requires
        distinct_keys(s),
    ensures
        entry_keys(s).no_duplicates(),
        forall|k: K| entries_map(s).contains_key(k) <==> #[trigger] entry_keys(s).contains(k),
{
    lemma_entries_lookup(s);
    let ks = entry_keys(s);
    assert forall|a: int, b: int| 0 <= a < b < ks.len() implies ks[a] != ks[b] by {
        assert(ks[a] == s[a].0 && ks[b] == s[b].0);
    }
    assert forall|k: K| entries_map(s).contains_key(k) <==> #[trigger] ks.contains(k) by {
        if entries_map(s).contains_key(k) {
            let j = choose|j: int| 0 <= j < s.len() && s[j].0 == k;
            assert(ks[j] == k);
        }
        if ks.contains(k) {
            let j = choose|j: int| 0 <= j < ks.len() && ks[j] == k;
            assert(s[j].0 == k);
        }
    }
}

/// Account-agent entries as seen through their keys' text.
pub open spec fn pf_view(s: Seq<(String, PfAgent)>) -> Seq<(Seq<char>, PfAgent)> {
    s.map_values(|e: (String, PfAgent)| (e.0@, e.1))
}

/// The first entry whose key is `pid`.
fn find_pid<V>(s: &Vec<(i64, V)>, pid: i64) -> (r: Option<usize>)
    ensures
        match r {
            Some(i) => i < s@.len() && s@[i as int].0 == pid,
            None => forall|j: int| 0 <= j < s@.len() ==> s@[j].0 != pid,
        },
{
    let mut i: usize = 0;
    while i < s.len()
        invariant
            i <= s@.len(),
            forall|j: int| 0 <= j < i ==> s@[j].0 != pid,
        decreases s@.len() - i,
    {
        if s[i].0 == pid {
            return Some(i);
        }
        i = i + 1;
    }
    None
}

/// The first entry whose key reads `name`.
fn find_name<V>(s: &Vec<(String, V)>, name: &str) -> (r: Option<usize>)
    ensures
        match r {
            Some(i) => i < s@.len() && s@[i as int].0@ == name@,
            None => forall|j: int| 0 <= j < s@.len() ==> s@[j].0@ != name@,
        },
{
    let mut i: usize = 0;
    while i < s.len()
        invariant
            i <= s@.len(),
            forall|j: int| 0 <= j < i ==> s@[j].0@ != name@,
        decreases s@.len() - i,
    {
        if str_eq(s[i].0.as_str(), name) {
            return Some(i);
        }
        i = i + 1;
    }
    None
}

/// The agents of the desktop tool: account agents by user name, running
/// gateway agents (of type `G`) and stopped gateway agents by player id.
pub struct AgentMgr<G> {
    pfs: Vec<(String, PfAgent)>,
    gates: Vec<(i64, G)>,
    colds: Vec<(i64, GateAgent)>,
}

impl<G> AgentMgr<G> {
    /// No key occurs twice in any of the three tables.
    pub closed spec fn wf(&self) -> bool {
        &&& distinct_keys(pf_view(self.pfs@))
        &&& distinct_keys(self.gates@)
        &&& distinct_keys(self.colds@)
    }

    /// The account agents, by user name.
    pub closed spec fn pf_agents(&self) -> Map<Seq<char>, PfAgent> {
        entries_map(pf_view(self.pfs@))
    }

    /// The running gateway agents, by player id.
    pub closed spec fn gate_agents(&self) -> Map<i64, G> {
        entries_map(self.gates@)
    }

    /// The stopped gateway agents, by player id.
    pub closed spec fn cold_agents(&self) -> Map<i64, GateAgent> {
        entries_map(self.colds@)
    }

    /// The user names of the account agents, in the order they are listed.
    pub closed spec fn pf_names(&self) -> Seq<Seq<char>> {
        entry_keys(pf_view(self.pfs@))
    }

    /// The player ids of the running gateway agents, in the order they are
    /// listed.
    pub closed spec fn gate_pids(&self) -> Seq<i64> {
        entry_keys(self.gates@)
    }

    /// A manager without agents.
    pub fn new() -> (r: AgentMgr<G>)
        ensures
            r.wf(),
            r.pf_agents() == Map::<Seq<char>, PfAgent>::empty(),
            r.gate_agents() == Map::<i64, G>::empty(),
            r.cold_agents() == Map::<i64, GateAgent>::empty(),
    {
        let r = AgentMgr { pfs: Vec::new(), gates: Vec::new(), colds: Vec::new() };
        assert(pf_view(r.pfs@) =~= Seq::<(Seq<char>, PfAgent)>::empty());
        r
    }

    /// Records the agent of its account, in place of any earlier one.
    pub fn upsert_pf_agent(&mut self, agent: PfAgent)
        requires
            old(self).wf(),
        ensures
            final(self).wf(),
            final(self).pf_agents() == old(self).pf_agents().insert(agent.username@, agent),
            final(self).gate_agents() == old(self).gate_agents(),
            final(self).cold_agents() == old(self).cold_agents(),
    {
        let ghost s = self.pfs@;
        let ghost name = agent.username@;
        match find_name(&self.pfs, agent.username.as_str()) {
            Some(i) => {
                let key = self.pfs[i].0.clone();
                proof {
                    lemma_entries_update(pf_view(s), i as int, agent);
                    assert(pf_view(s.update(i as int, (key, agent))) =~= pf_view(s).update(
                        i as int,
                        (pf_view(s)[i as int].0, agent),
                    ));
                }
                self.pfs.set(i, (key, agent));
            },
            None => {
                let key = agent.username.clone();
                proof {
                    lemma_entries_lookup(pf_view(s));
                    if entries_map(pf_view(s)).contains_key(name) {
                        let j = choose|j: int| 0 <= j < pf_view(s).len() && pf_view(s)[j].0 == name;
                        assert(s[j].0@ == name);
                    }
                    lemma_entries_push(pf_view(s), name, agent);
                    assert(pf_view(s.push((key, agent))) =~= pf_view(s).push((name, agent)));
                }
                self.pfs.push((key, agent));
            },
        }
    }

    /// Records the running gateway agent of player `pid`, in place of any
    /// earlier one.
    pub fn upsert_gate_agent(&mut self, pid: i64, agent: G)
        requires
            old(self).wf(),
        ensures
            final(self).wf(),
            final(self).gate_agents() == old(self).gate_agents().insert(pid, agent),
            final(self).pf_agents() == old(self).pf_agents(),
            final(self).cold_agents() == old(self).cold_agents(),
    {
        let ghost s = self.gates@;
        match find_pid(&self.gates, pid) {
            Some(i) => {
                proof {
                    lemma_entries_update(s, i as int, agent);
                }
                self.gates.set(i, (pid, agent));
            },
            None => {
                proof {
                    lemma_entries_lookup(s);
                    lemma_entries_push(s, pid, agent);
                }
                self.gates.push((pid, agent));
            },
        }
    }

    /// Records a stopped gateway agent under its player id, in place of any
    /// earlier one.
    pub fn upsert_cold_agent(&mut self, agent: GateAgent)
        requires
            old(self).wf(),
        ensures
            final(self).wf(),
            final(self).cold_agents() == old(self).cold_agents().insert(agent.player(), agent),
            final(self).pf_agents() == old(self).pf_agents(),
            final(self).gate_agents() == old(self).gate_agents(),
    {
        let ghost s = self.colds@;
        let pid = agent.pid();
        match find_pid(&self.colds, pid) {
            Some(i) => {
                proof {
                    lemma_entries_update(s, i as int, agent);
                }
                self.colds.set(i, (pid, agent));
            },
            None => {
                proof {
                    lemma_entries_lookup(s);
                    lemma_entries_push(s, pid, agent);
                }
                self.colds.push((pid, agent));
            },
        }
    }

    /// Takes out the agent of account `username`, if there is one.
    pub fn remove_pf_agent(&mut self, username: &str) -> (r: Option<PfAgent>)
        requires
            old(self).wf(),
        ensures
            final(self).wf(),
            old(self).pf_agents().contains_key(username@) ==> r == Some(old(self).pf_agents()[username@]),
            !old(self).pf_agents().contains_key(username@) ==> r is None,
            final(self).pf_agents() == old(self).pf_agents().remove(username@),
            final(self).gate_agents() == old(self).gate_agents(),
            final(self).cold_agents() == old(self).cold_agents(),
    {
        let ghost s = self.pfs@;
        proof {
            lemma_entries_lookup(pf_view(s));
        }
        match find_name(&self.pfs, username) {
            Some(i) => {
                proof {
                    lemma_entries_remove(pf_view(s), i as int);
                    assert(pf_view(s.remove(i as int)) =~= pf_view(s).remove(i as int));
                    assert(pf_view(s)[i as int].0 == username@);
                }
                let (_, a) = self.pfs.remove(i);
                Some(a)
            },
            None => {
                proof {
                    if entries_map(pf_view(s)).contains_key(username@) {
                        let j = choose|j: int| 0 <= j < pf_view(s).len() && pf_view(s)[j].0 == username@;
                        assert(s[j].0@ == username@);
                    }
                    assert(entries_map(pf_view(s)).remove(username@) =~= entries_map(pf_view(s)));
                }
                None
            },
        }
    }

    /// Takes out the running gateway agent of player `pid`, if there is one.
    pub fn remove_gate_agent(&mut self, pid: i64) -> (r: Option<G>)
        requires
            old(self).wf(),
        ensures
            final(self).wf(),
            old(self).gate_agents().contains_key(pid) ==> r == Some(old(self).gate_agents()[pid]),
            !old(self).gate_agents().contains_key(pid) ==> r is None,
            final(self).gate_agents() == old(self).gate_agents().remove(pid),
            final(self).pf_agents() == old(self).pf_agents(),
            final(self).cold_agents() == old(self).cold_agents(),
    {
        let ghost s = self.gates@;
        proof {
            lemma_entries_lookup(s);
        }
        match find_pid(&self.gates, pid) {
            Some(i) => {
                proof {
                    lemma_entries_remove(s, i as int);
                }
                let (_, a) = self.gates.remove(i);
                Some(a)
            },
            None => {
                assert(entries_map(s).remove(pid) =~= entries_map(s));
                None
            },
        }
    }

    /// Takes out the stopped gateway agent of player `pid`, if there is one.
    pub fn remove_cold_agent(&mut self, pid: i64) -> (r: Option<GateAgent>)
        requires
            old(self).wf(),
        ensures
            final(self).wf(),
            old(self).cold_agents().contains_key(pid) ==> r == Some(old(self).cold_agents()[pid]),
            !old(self).cold_agents().contains_key(pid) ==> r is None,
            final(self).cold_agents() == old(self).cold_agents().remove(pid),
            final(self).pf_agents() == old(self).pf_agents(),
            final(self).gate_agents() == old(self).gate_agents(),
    {
        let ghost s = self.colds@;
        proof {
            lemma_entries_lookup(s);
        }
        match find_pid(&self.colds, pid) {
            Some(i) => {
                proof {
                    lemma_entries_remove(s, i as int);
                }
                let (_, a) = self.colds.remove(i);
                Some(a)
            },
            None => {
                assert(entries_map(s).remove(pid) =~= entries_map(s));
                None
            },
        }
    }

    /// The running gateway agent of player `pid`, to work with in place.
    pub fn get_gate_agent(&mut self, pid: i64) -> (r: Option<&mut G>)
        requires
            old(self).wf(),
        ensures
            match r {
                Some(a) => old(self).gate_agents().contains_key(pid) && *a == old(self).gate_agents()[pid]
                    && final(self).gate_agents() == old(self).gate_agents().insert(pid, *final(a)),
                None => !old(self).gate_agents().contains_key(pid) && final(self).gate_agents() == old(self).gate_agents(),
            },
            final(self).wf(),
            final(self).pf_agents() == old(self).pf_agents(),
            final(self).cold_agents() == old(self).cold_agents(),
    {
        let ghost s = self.gates@;
        proof {
            lemma_entries_lookup(s);
        }
        match find_pid(&self.gates, pid) {
            Some(i) => {
                proof {
                    assert forall|v: G| #[trigger] entries_map(s.update(i as int, (pid, v)))
                        == entries_map(s).insert(pid, v) && distinct_keys(s.update(i as int, (pid, v))) by {
                        lemma_entries_update(s, i as int, v);
                    }
                }
                Some(&mut self.gates[i].1)
            },
            None => None,
        }
    }

    /// The agent of account `username`, to work with in place.
    pub fn get_pf_agent(&mut self, username: &str) -> (r: Option<&mut PfAgent>)
        requires
            old(self).wf(),
        ensures
            match r {
                Some(a) => old(self).pf_agents().contains_key(username@) && *a == old(self).pf_agents()[username@]
                    && final(self).pf_agents() == old(self).pf_agents().insert(username@, *final(a)),
                None => !old(self).pf_agents().contains_key(username@) && final(self).pf_agents() == old(self).pf_agents(),
            },
            final(self).wf(),
            final(self).gate_agents() == old(self).gate_agents(),
            final(self).cold_agents() == old(self).cold_agents(),
    {
        let ghost s = self.pfs@;
        proof {
            lemma_entries_lookup(pf_view(s));
        }
        match find_name(&self.pfs, username) {
            Some(i) => {
                proof {
                    assert(pf_view(s)[i as int].0 == username@);
                    assert forall|v: PfAgent| #[trigger] pf_view(s.update(i as int, (s[i as int].0, v)))
                        == pf_view(s).update(i as int, (username@, v)) by {
                        assert(pf_view(s.update(i as int, (s[i as int].0, v))) =~= pf_view(s).update(i as int, (username@, v)));
                    }
                    assert forall|v: PfAgent| #[trigger] entries_map(pf_view(s).update(i as int, (username@, v)))
                        == entries_map(pf_view(s)).insert(username@, v) && distinct_keys(pf_view(s).update(i as int, (username@, v))) by {
                        lemma_entries_update(pf_view(s), i as int, v);
                    }
                }
                Some(&mut self.pfs[i].1)
            },
            None => {
                proof {
                    if entries_map(pf_view(s)).contains_key(username@) {
                        let j = choose|j: int| 0 <= j < pf_view(s).len() && pf_view(s)[j].0 == username@;
                        assert(s[j].0@ == username@);
                    }
                }
                None
            },
        }
    }

    /// The player ids of the running gateway agents, each once, as they are
    /// listed; a message for every running agent goes to each of them.
    pub fn gate_agent_pids(&self) -> (r: Vec<i64>)
        requires
            self.wf(),
        ensures
            r@ == self.gate_pids(),
            r@.no_duplicates(),
            forall|pid: i64| self.gate_agents().contains_key(pid) <==> r@.contains(pid),
    {
        let mut r: Vec<i64> = Vec::new();
        let mut i: usize = 0;
        while i < self.gates.len()
            invariant
                i <= self.gates@.len(),
                r@ == entry_keys(self.gates@).take(i as int),
            decreases self.gates@.len() - i,
        {
            r.push(self.gates[i].0);
            assert(entry_keys(self.gates@).take(i + 1) =~= entry_keys(self.gates@).take(i as int).push(self.gates@[i as int].0));
            i = i + 1;
        }
        proof {
            let s = self.gates@;
            assert(entry_keys(s).take(s.len() as int) =~= entry_keys(s));
            lemma_entry_keys(s);
        }
        r
    }

    /// Each account agent is listed once under its user name, and each
    /// running gateway agent once under its player id.
    pub proof fn lemma_listed_once(&self)
        requires
            self.wf(),
        ensures
            self.pf_names().no_duplicates(),
            forall|k: Seq<char>| self.pf_agents().contains_key(k) <==> #[trigger] self.pf_names().contains(k),
            self.gate_pids().no_duplicates(),
            forall|p: i64| self.gate_agents().contains_key(p) <==> #[trigger] self.gate_pids().contains(p),
    {
        lemma_entry_keys(pf_view(self.pfs@));
        lemma_entry_keys(self.gates@);
    }

    /// The agents as listed to the front end: the account agents and the
    /// running gateway agents, each as it is listed.
    pub fn to_front(&self) -> (r: FrontAgentMgr)
        requires
            self.wf(),
        ensures
            r.pfs@.len() == self.pf_names().len(),
            forall|i: int| 0 <= i < r.pfs@.len() ==> #[trigger] r.pfs@[i]._username@ == self.pf_agents()[self.pf_names()[i]].username@
                && r.pfs@[i]._players@ == self.pf_agents()[self.pf_names()[i]].players@,
            r.gates@.len() == self.gate_pids().len(),
            forall|i: int| 0 <= i < r.gates@.len() ==> #[trigger] r.gates@[i]._pid == self.gate_pids()[i],
    {
        let ghost ps = self.pfs@;
        proof {
            lemma_entries_lookup(pf_view(ps));
        }
        let mut pfs: Vec<FrontPfAgent> = Vec::new();
        let mut i: usize = 0;
        while i < self.pfs.len()
            invariant
                i <= self.pfs@.len(),
                ps == self.pfs@,
                pfs@.len() == i,
                forall|j: int| 0 <= j < i ==> #[trigger] pfs@[j]._username@ == ps[j].1.username@
                    && pfs@[j]._players@ == ps[j].1.players@,
            decreases self.pfs@.len() - i,
        {
            pfs.push(self.pfs[i].1.to_front());
            i = i + 1;
        }
        proof {
            assert forall|j: int| 0 <= j < pfs@.len() implies self.pf_agents()[self.pf_names()[j]] == ps[j].1 by {
                assert(pf_view(ps)[j] == (ps[j].0@, ps[j].1));
                assert(self.pf_names()[j] == pf_view(ps)[j].0);
            }
        }
        let mut gates: Vec<FrontGateAgent> = Vec::new();
        let mut k: usize = 0;
        while k < self.gates.len()
            invariant
                k <= self.gates@.len(),
                gates@.len() == k,
                forall|j: int| 0 <= j < k ==> #[trigger] gates@[j]._pid == self.gates@[j].0,
            decreases self.gates@.len() - k,
        {
            gates.push(FrontGateAgent { _pid: self.gates[k].0 });
            k = k + 1;
        }
        FrontAgentMgr { pfs, gates }
    }
}

} // verus!
