use admin::desktop_agent;
use admin::gate_agent::{AckRoute, AgentCtrl, AgentError, FrontHistoryData, GateAgent, History};
use admin::msg::{CsEcho, CsPing, ErrCode, Registry, ScEcho, ScFastLogin, ScLogin, ScPing};

fn echo(s: &str) -> Registry {
    Registry::CsEcho(CsEcho { content: s.to_string() })
}

#[test]
fn history_keeps_order_and_bound() {
    let mut h = History::new(3);
    for s in ["a", "b", "c"] {
        h.push_send(echo(s));
    }
    assert_eq!(h.get_send(10, false), vec![echo("a"), echo("b"), echo("c")]);
    assert_eq!(h.get_send(2, true), vec![echo("c"), echo("b")]);
    h.push_send(echo("d"));
    assert_eq!(h.get_send(10, false), vec![echo("a"), echo("b"), echo("d")]);
    assert!(h.get_recv(10, false).is_empty());
}

#[test]
fn history_of_capacity_zero_keeps_newest() {
    let mut h = History::new(0);
    h.push_recv(echo("x"));
    h.push_recv(echo("y"));
    assert_eq!(h.get_recv(5, false), vec![echo("y")]);
}

#[test]
fn front_history_entries() {
    let mut h = History::new(4);
    h.push_recv(Registry::ScEcho(ScEcho { reply: "r".to_string() }));
    let f = h.get_recv_front(1, false);
    assert_eq!(f.len(), 1);
    assert_eq!(f[0].msgid, 202);
    assert_eq!(f[0].name, "ScEcho");
    h.push_send(echo("s1"));
    h.push_send(echo("s2"));
    let f = h.get_send_front(5, true);
    assert_eq!(f.len(), 2);
    assert_eq!(*f[0].payload, echo("s2"));
    assert_eq!(f[1].name, "CsEcho");
    let m = echo("q");
    let d = FrontHistoryData::new(&m);
    assert_eq!((d.msgid, d.name), (201, "CsEcho"));
}

#[test]
fn agent_logs_in_then_starts() {
    let mut a = GateAgent::new(9);
    assert_eq!(a.start(), Err(AgentError::Unauthorized));
    assert_eq!(a.fast_login_request(), Registry::CsFastLogin(admin::msg::CsFastLogin { player_id: 9 }));
    assert_eq!(
        a.on_fast_login_ack(Registry::ScFastLogin(ScFastLogin { err_code: 5 })),
        Err(AgentError::AuthFailed(ErrCode::Failure(5)))
    );
    assert_eq!(a.start(), Err(AgentError::Unauthorized));
    assert_eq!(a.on_fast_login_ack(Registry::ScFastLogin(ScFastLogin { err_code: 0 })), Ok(()));
    assert_eq!(a.start(), Ok(()));
    assert_eq!(a.to_front()._pid, 9);
}

#[test]
fn agent_login_with_token() {
    let mut a = GateAgent::new(4);
    match a.login_request("tk") {
        Registry::CsLogin(m) => assert_eq!((m.token.as_str(), m.player_id), ("tk", 4)),
        other => panic!("unexpected {:?}", other),
    }
    assert_eq!(a.on_login_ack(Registry::ScLogin(ScLogin { err_code: 0 })), Ok(()));
    assert_eq!(a.start(), Ok(()));
}

#[test]
fn agent_loop_skips_pings_in_history() {
    let mut a = GateAgent::new(1);
    let mut his = History::new(8);
    assert_eq!(a.on_request(&mut his, Some(echo("m"))), Ok(echo("m")));
    let ping = Registry::CsPing(CsPing { seq: 1 });
    assert_eq!(a.on_request(&mut his, Some(ping.clone())), Ok(ping));
    assert_eq!(his.get_send(10, false), vec![echo("m")]);
    assert_eq!(a.on_request(&mut his, None), Err(AgentError::RequestChannelClosed));
    let pong = Registry::ScPing(ScPing { seq: 1 });
    assert_eq!(a.on_ack(&mut his, pong.clone()), AckRoute::Forward(pong));
    assert!(his.get_recv(10, false).is_empty());
    assert_eq!(a.on_ctrl(Some(AgentCtrl::ListenAck("psc-1".to_string()))), Ok(false));
    let r = Registry::ScEcho(ScEcho { reply: "x".to_string() });
    assert_eq!(a.on_ack(&mut his, r.clone()), AckRoute::Emit("psc-1".to_string(), r.clone()));
    assert_eq!(his.get_recv(10, false), vec![r.clone()]);
    assert_eq!(a.on_ctrl(Some(AgentCtrl::UnlistenAck)), Ok(false));
    assert_eq!(a.on_ack(&mut his, r.clone()), AckRoute::Forward(r));
    assert_eq!(a.on_ctrl(Some(AgentCtrl::Close)), Ok(true));
    assert_eq!(a.on_ctrl(None), Err(AgentError::CtrlChannelClosed));
}

#[test]
fn desktop_agent_records_everything() {
    let mut a = desktop_agent::GateAgent::new(2);
    let mut his = desktop_agent::History::new(4);
    assert_eq!(a.on_login_ack(Registry::ScLogin(ScLogin { err_code: 0 })), Ok(()));
    assert_eq!(a.start(), Ok(()));
    let ping = Registry::CsPing(CsPing { seq: 1 });
    assert_eq!(a.on_request(&mut his, Some(ping.clone())), Ok(ping.clone()));
    assert_eq!(his.get_send(4, false), vec![ping]);
    let pong = Registry::ScPing(ScPing { seq: 1 });
    let e = Registry::ScEcho(ScEcho { reply: "e".to_string() });
    assert_eq!(a.on_ack(&mut his, pong.clone()), pong.clone());
    assert_eq!(a.on_ack(&mut his, e.clone()), e.clone());
    assert_eq!(his.get_recv(1, true), vec![e.clone(), pong.clone()]);
    assert_eq!(his.get_recv(1, false), vec![pong]);
    assert_eq!(a.to_front()._pid, 2);
}

#[test]
fn agent_error_messages() {
    assert_eq!(AgentError::Unauthorized.message(), "unauthorized agent");
    assert_eq!(AgentError::AuthFailed(ErrCode::Failure(5)).message(), "fail to auth. Failure(5)");
    assert_eq!(AgentError::RequestChannelClosed.message(), "recv None from Request channel");
    assert_eq!(AgentError::CtrlChannelClosed.message(), "recv None from ctrl");
}

#[test]
fn unauthorized_start_says_so() {
    let a = GateAgent::new(7);
    assert_eq!(a.start().unwrap_err().message(), "unauthorized agent");
}
