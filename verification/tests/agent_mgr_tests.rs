use admin::agent_mgr::AgentMgr;
use admin::desktop_agent::GateAgent;
use admin::pf::{AccountPlayer, PfAgent};

fn pf(name: &str, token: &str) -> PfAgent {
    PfAgent {
        username: name.to_string(),
        password: "pw".to_string(),
        token: token.to_string(),
        players: Vec::new(),
    }
}

#[test]
fn pf_agents_are_kept_by_name() {
    let mut m: AgentMgr<u32> = AgentMgr::new();
    m.upsert_pf_agent(pf("amy", "t1"));
    m.upsert_pf_agent(pf("bob", "t2"));
    m.upsert_pf_agent(pf("amy", "t3"));
    assert_eq!(m.get_pf_agent("amy").map(|a| a.token.clone()), Some("t3".to_string()));
    let front = m.to_front();
    let names: Vec<&str> = front.pfs.iter().map(|p| p._username.as_str()).collect();
    assert_eq!(names, vec!["amy", "bob"]);
    assert_eq!(m.remove_pf_agent("amy").map(|a| a.token), Some("t3".to_string()));
    assert!(m.remove_pf_agent("amy").is_none());
    assert!(m.get_pf_agent("amy").is_none());
    assert_eq!(m.to_front().pfs.len(), 1);
}

#[test]
fn pf_agent_changes_in_place() {
    let mut m: AgentMgr<u32> = AgentMgr::new();
    m.upsert_pf_agent(pf("amy", "t1"));
    if let Some(a) = m.get_pf_agent("amy") {
        a.players.push(AccountPlayer { pid: 7, name: "p7".to_string() });
    }
    let front = m.to_front();
    assert_eq!(front.pfs[0]._players, vec![AccountPlayer { pid: 7, name: "p7".to_string() }]);
}

#[test]
fn gate_agents_are_kept_by_player() {
    let mut m: AgentMgr<&str> = AgentMgr::new();
    m.upsert_gate_agent(5, "first");
    m.upsert_gate_agent(6, "other");
    m.upsert_gate_agent(5, "second");
    assert_eq!(m.get_gate_agent(5).map(|g| *g), Some("second"));
    assert_eq!(m.gate_agent_pids(), vec![5, 6]);
    let pids: Vec<i64> = m.to_front().gates.iter().map(|g| g._pid).collect();
    assert_eq!(pids, vec![5, 6]);
    if let Some(g) = m.get_gate_agent(6) {
        *g = "changed";
    }
    assert_eq!(m.remove_gate_agent(6), Some("changed"));
    assert_eq!(m.remove_gate_agent(6), None);
    assert!(m.get_gate_agent(6).is_none());
    assert_eq!(m.gate_agent_pids(), vec![5]);
}

#[test]
fn cold_agents_are_kept_by_player() {
    let mut m: AgentMgr<u8> = AgentMgr::new();
    m.upsert_cold_agent(GateAgent::new(9));
    m.upsert_cold_agent(GateAgent::new(9));
    assert_eq!(m.remove_cold_agent(9).map(|a| a.pid()), Some(9));
    assert!(m.remove_cold_agent(9).is_none());
}
