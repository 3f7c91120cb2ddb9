use admin::bench::{BenchAction, Cmder, Metrics};
use admin::client_mgr::{fclient_request, ClientMgr, ClientMgrError};
use admin::console::{adaptor_login_request, adaptor_on_login_reply, echo_request, ClientCsMsg, ConsoleAdaptor, HandshakeError};
use admin::fast_login::{FastLoginClient, FastLoginError, Histroy, LoopStep, RequestStep, TagCsMsg, TagScMsg};
use admin::gclient::{auth_outcome, auth_request, AuthError, GClientBuilder};
use admin::legacy_cli::{console_prompt, SubCmds};
use admin::misc::{ClientInfo, Player};
use admin::msg::{CsEcho, CsFastLogin, CsLogin, CsMsg, ErrCode, Registry, ScEcho, ScFastLogin, ScLogin, ScMsg};
use admin::codec::CodecError;
use admin::pf::{api_data, AccountPlayer, ApiError, ApiReply, NClient, NClientError, PfAgent};

#[test]
fn builder_collects_gate_and_identity() {
    let b = GClientBuilder::<String>::new().gate("127.0.0.1:8001".to_string()).info(ClientInfo::FastLogin { player_id: 3 });
    assert!(!GClientBuilder::<String>::new().gate("x".to_string()).is_ready());
    assert!(b.is_ready());
    let (g, i) = b.into_parts();
    assert_eq!(g, "127.0.0.1:8001");
    assert_eq!(i, ClientInfo::FastLogin { player_id: 3 });
}

#[test]
fn gclient_login() {
    let fast = ClientInfo::FastLogin { player_id: 5 };
    let normal = ClientInfo::Normal { player_id: 6, token: "t".to_string() };
    assert_eq!(auth_request(&fast), Registry::CsFastLogin(CsFastLogin { player_id: 5 }));
    assert_eq!(auth_request(&normal), Registry::CsLogin(CsLogin { token: "t".to_string(), player_id: 6 }));
    assert_eq!(auth_outcome(&fast, Some(Registry::ScFastLogin(ScFastLogin { err_code: 0 }))), Ok(()));
    assert_eq!(
        auth_outcome(&fast, Some(Registry::ScFastLogin(ScFastLogin { err_code: 2 }))),
        Err(AuthError::Refused(ErrCode::Failure(2)))
    );
    assert_eq!(auth_outcome(&fast, Some(Registry::ScLogin(ScLogin { err_code: 0 }))), Err(AuthError::InvalidReply));
    assert_eq!(auth_outcome(&normal, Some(Registry::ScLogin(ScLogin { err_code: 0 }))), Ok(()));
    assert_eq!(auth_outcome(&normal, None), Err(AuthError::InvalidReply));
    assert_eq!(AuthError::Refused(ErrCode::Failure(2)).message(), "fail to auth. Failure(2)");
    assert_eq!(AuthError::InvalidReply.message(), "recv invalid reply");
}

#[test]
fn console_adaptor_filters_and_tags() {
    let a = ConsoleAdaptor::new(7);
    assert_eq!(a.login_request(), CsMsg::CsFastLogin(CsFastLogin { player_id: 7 }));
    let m = CsMsg::CsEcho(CsEcho { content: "x".to_string() });
    assert_eq!(a.accept(ClientCsMsg { ids: vec![1, 7], payload: m.clone() }), Some(m.clone()));
    assert_eq!(a.accept(ClientCsMsg { ids: vec![1, 2], payload: m.clone() }), None);
    let r = ScMsg::ScEcho(ScEcho { reply: "y".to_string() });
    let t = a.tag(r.clone());
    assert_eq!((t.id, t.payload), (7, r));
    assert_eq!(a.on_login_reply(Some(Ok(ScMsg::ScFastLogin(ScFastLogin { err_code: 0 })))), Ok(()));
    assert_eq!(
        a.on_login_reply(Some(Ok(ScMsg::ScFastLogin(ScFastLogin { err_code: 1 })))),
        Err(HandshakeError::AuthFailed(ErrCode::Failure(1)))
    );
    assert_eq!(a.on_login_reply(None), Err(HandshakeError::ConnectionClosed));
    assert_eq!(a.on_login_reply(Some(Err(CodecError::Decode))), Err(HandshakeError::Codec(CodecError::Decode)));
    let e = echo_request(4, "hi".to_string());
    assert_eq!(e.ids, vec![4]);
    assert_eq!(e.payload, CsMsg::CsEcho(CsEcho { content: "hi".to_string() }));
}

#[test]
fn client_adaptor_handshake() {
    let info = ClientInfo::Normal { player_id: 1, token: "k".to_string() };
    assert_eq!(adaptor_login_request(&info), CsMsg::CsLogin(CsLogin { token: "k".to_string(), player_id: 1 }));
    assert_eq!(adaptor_on_login_reply(&info, Some(Ok(ScMsg::ScLogin(ScLogin { err_code: 0 })))), Ok(()));
    let other = ScMsg::ScFastLogin(ScFastLogin { err_code: 0 });
    assert_eq!(adaptor_on_login_reply(&info, Some(Ok(other.clone()))), Err(HandshakeError::Unexpected(other)));
}

#[test]
fn fast_login_client_steps() {
    let mut c = FastLoginClient::new(3);
    assert_eq!(c.login_request(), CsMsg::CsFastLogin(CsFastLogin { player_id: 3 }));
    assert_eq!(c.verify_auth(Some(Ok(ScMsg::ScFastLogin(ScFastLogin { err_code: 0 })))), Ok(()));
    assert_eq!(
        c.verify_auth(Some(Ok(ScMsg::ScFastLogin(ScFastLogin { err_code: 9 })))),
        Err(FastLoginError::AuthFailed(3, ErrCode::Failure(9)))
    );
    assert_eq!(c.verify_auth(None), Err(FastLoginError::ConnectionClosed(3)));
    assert_eq!(c.verify_auth(Some(Err(CodecError::PayloadNone))), Err(FastLoginError::Codec(CodecError::PayloadNone)));
    let other = ScMsg::ScLogin(ScLogin { err_code: 0 });
    assert_eq!(c.verify_auth(Some(Ok(other.clone()))), Err(FastLoginError::Unexpected(other)));
    let m = CsMsg::CsEcho(CsEcho { content: "a".to_string() });
    assert_eq!(c.on_request(TagCsMsg { to: Some(4), msg: m.clone() }), RequestStep::Skip);
    assert_eq!(c.on_request(TagCsMsg { to: Some(3), msg: m.clone() }), RequestStep::Send(m.clone()));
    assert_eq!(c.on_request(TagCsMsg { to: None, msg: m.clone() }), RequestStep::Send(m.clone()));
    c.on_sent(m.clone());
    let r = ScMsg::ScEcho(ScEcho { reply: "b".to_string() });
    let tagged = c.on_frame(r.clone());
    assert_eq!((tagged.from, tagged.msg), (3, r.clone()));
    assert_eq!(c.history().cs, vec![m]);
    assert_eq!(c.history().sc, vec![r]);
    assert_eq!(c.id(), 3);
    assert!(Histroy::new().cs.is_empty());
    let r2 = ScMsg::ScEcho(ScEcho { reply: "c".to_string() });
    assert_eq!(c.on_read(Some(Ok(r2.clone()))), LoopStep::Forward(TagScMsg { from: 3, msg: r2.clone() }));
    assert_eq!(c.history().sc.len(), 2);
    assert_eq!(c.on_read(Some(Err(CodecError::Decode))), LoopStep::LogFrameError(CodecError::Decode));
    assert_eq!(c.on_read(None), LoopStep::Stop(Err("connection closed".to_string())));
    assert_eq!(c.on_request_item(Ok(TagCsMsg { to: Some(9), msg: CsMsg::CsPing(admin::msg::CsPing { seq: 0 }) })), LoopStep::Skip);
    assert_eq!(c.on_request_item(Err("lagged".to_string())), LoopStep::Stop(Err("lagged".to_string())));
    assert_eq!(c.on_close(), LoopStep::Stop(Ok(())));
}

#[test]
fn pf_agent_keeps_players() {
    let bad = ApiReply { code: 3, data: None::<String>, msg: "no".to_string() };
    match PfAgent::new("u".to_string(), "p".to_string(), bad) {
        Err(e) => assert_eq!(e, ApiError { code: 3, has_data: false, msg: "no".to_string() }),
        Ok(_) => panic!("accepted"),
    }
    let ok = ApiReply { code: 0, data: Some("tok".to_string()), msg: String::new() };
    let mut a = PfAgent::new("u".to_string(), "p".to_string(), ok).unwrap();
    assert_eq!(a.token, "tok");
    let p = a.create_player("Reco", ApiReply { code: 0, data: Some(11), msg: String::new() }).unwrap();
    assert_eq!(p, AccountPlayer { pid: 11, name: "Reco".to_string() });
    assert!(a.create_player("X", ApiReply { code: 0, data: None, msg: String::new() }).is_err());
    assert_eq!(a.to_front()._players, vec![p.clone()]);
    let listed = vec![AccountPlayer { pid: 1, name: "a".to_string() }];
    assert_eq!(a.list_players(ApiReply { code: 0, data: Some(listed.clone()), msg: String::new() }).unwrap(), listed);
    assert_eq!(a.players, listed);
    assert_eq!(a.to_front()._username, "u");
}

#[test]
fn pf_client_replies() {
    assert_eq!(api_data(ApiReply { code: 0, data: Some(5), msg: String::new() }), Ok(5));
    let e = api_data(ApiReply::<i64> { code: 401, data: None, msg: "denied".to_string() }).unwrap_err();
    assert_eq!(e.message(), "Api ErrCode: 401. Message: denied");
}

#[test]
fn nclient_uses_listed_player() {
    let mut c = NClient::new("gate:1".to_string(), "bob".to_string(), "pw".to_string());
    assert!(c.needs_auth());
    c.authorized("tok".to_string());
    assert!(!c.needs_auth());
    assert_eq!(c.token(), Some(&"tok".to_string()));
    let players = vec![Player { id: 1, name: "a".to_string() }, Player { id: 2, name: "b".to_string() }];
    let (p, info) = c.use_player(players.clone(), 2).unwrap();
    assert_eq!(p, players[1]);
    assert_eq!(info, ClientInfo::Normal { player_id: 2, token: "tok".to_string() });
    assert_eq!(c.game_prompt(&p), "[bob/b]");
    let e = c.use_player(players, 9).unwrap_err();
    assert_eq!(e, NClientError::PlayerNotFound(9));
    assert_eq!(e.message(), "player-9 not found");
    assert_eq!((c.username().as_str(), c.password().as_str(), c.gate().as_str()), ("bob", "pw", "gate:1"));
}

#[test]
fn bench_script_and_metrics() {
    let mut c = Cmder::new("g:1".to_string(), 1, 3);
    let hello = CsMsg::CsEcho(CsEcho { content: "hello".to_string() });
    c.add_script(hello.clone(), 2);
    let items = c.broadcast_items();
    assert_eq!(items, vec![Some(hello.clone()), Some(hello.clone()), None]);
    let builders = c.client_builders();
    assert_eq!(builders.len(), 3);
    let ids: Vec<ClientInfo> = builders.into_iter().map(|b| b.into_parts().1).collect();
    assert_eq!(ids[2], ClientInfo::FastLogin { player_id: 3 });
    let mut m = Metrics::default();
    for it in items {
        match m.on_script(Ok(it)) {
            BenchAction::Send(_) => m.on_sent(Ok(())),
            BenchAction::Stop => break,
            BenchAction::Continue => {}
        }
    }
    assert_eq!(m.send_num, 2);
    m.on_recv::<()>(Ok(()));
    m.on_recv::<()>(Err("lost".to_string()));
    assert_eq!(m.on_script(Err("lag".to_string())), BenchAction::Continue);
    m.finish(42);
    assert_eq!((m.recv_num, m.errs.len(), m.duration_nanos), (1, 2, 42));
}

#[test]
fn client_manager_registry() {
    let mut mgr: ClientMgr<&str> = ClientMgr::new();
    assert_eq!(mgr.check_absent(1), Ok(()));
    mgr.insert(1, "one");
    assert_eq!(mgr.check_absent(1), Err(ClientMgrError::DupFClient(1)));
    assert_eq!(mgr.get(1), Ok(&"one"));
    assert_eq!(mgr.remove(1), Ok("one"));
    assert_eq!(mgr.remove(1), Err(ClientMgrError::FClientNotFound(1)));
    assert_eq!(ClientMgrError::DupFClient(1).message(), "fclient-1 exist");
    assert_eq!(ClientMgrError::FClientNotFound(18446744073709551615).message(), "fclient-18446744073709551615 not found");
    assert_eq!(ClientMgrError::CloseSend.message(), "attempt to send to close channel");
    assert_eq!(ClientMgrError::close_failed(2).message(), "fail to send fclient-2 close signal");
}

#[test]
fn client_manager_requests() {
    let (name, req) = fclient_request("{ \"CsEcho\":{\"content\":\"hi\"}}", 5).unwrap();
    assert_eq!(name, "CsEcho");
    assert_eq!(req.to, Some(5));
    assert_eq!(req.msg, CsMsg::CsEcho(CsEcho { content: "hi".to_string() }));
    assert_eq!(fclient_request("[1]", 5).unwrap_err(), ClientMgrError::Serde("invalid message".to_string()));
    let serde_text = serde_json::from_str::<serde_json::Value>("{").unwrap_err().to_string();
    assert_eq!(fclient_request("{", 5).unwrap_err(), ClientMgrError::Serde(serde_text.clone()));
    assert_eq!(
        fclient_request("{", 5).unwrap_err().message(),
        format!("serde error: {}", serde_text)
    );
    let content = "{\"CsEcho\" : [\"x\"]}";
    assert_eq!(
        fclient_request(content, 5).unwrap_err(),
        ClientMgrError::Any(format!("invalid pb content {}. unable to capture pb name", content))
    );
    let (inner, _) = fclient_request("{\"CsEcho\" : {\"content\":\"x\"}}", 1).unwrap();
    assert_eq!(inner, "content");
    assert_eq!(ClientMgrError::Serde("bad".to_string()).message(), "serde error: bad");
    assert_eq!(ClientMgrError::DupNClient("amy".to_string()).message(), "nclient-amy exist");
    assert_eq!(ClientMgrError::JoinError("j".to_string()).message(), "tokio join error: j");
}

#[test]
fn legacy_console_prompts() {
    assert_eq!(console_prompt(&SubCmds::FClient { player_id: -4 }), Some("[fclient--4]".to_string()));
    assert_eq!(
        console_prompt(&SubCmds::Client { username: "amy".to_string(), password: "x".to_string() }),
        Some("[amy]".to_string())
    );
    assert_eq!(console_prompt(&SubCmds::GM), None);
}
