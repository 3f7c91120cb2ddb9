use admin::cmd::{AfterReply, AfterSend, ApiCmd, CmdError, GameCmd, GameStep, Report};
use admin::misc::Player;
use admin::num::IntError;
use admin::msg::{CsEcho, CsLogin, CsMsg, CsPing, Registry, ScEcho};

#[test]
fn foo() {
    let input = "send CsEcho {\"content\":\"hello\"}";
    let cmd: GameCmd = input.parse().unwrap();
    assert_eq!(
        cmd,
        GameCmd::Send(CsMsg::CsEcho(CsEcho {
            content: "hello".to_string()
        }))
    );
}

#[test]
fn game_cmd_words() {
    assert_eq!(GameCmd::from_str("help"), Ok(GameCmd::Help));
    assert_eq!(GameCmd::from_str("  logout  "), Ok(GameCmd::Logout));
    assert_eq!(GameCmd::from_str(""), Err(CmdError::InvalidInput));
    assert_eq!(GameCmd::from_str("send CsEcho"), Err(CmdError::SendUsage));
    let syntax = serde_json::from_str::<serde_json::Value>("{\"CsEcho\":{} extra}").unwrap_err().to_string();
    assert_eq!(GameCmd::from_str("send CsEcho {} extra"), Err(CmdError::JsonSyntax(syntax.clone())));
    assert_eq!(GameCmd::from_str("send CsEcho {} extra").unwrap_err().message(), syntax);
    assert_eq!(GameCmd::from_str("send CsEcho   "), Err(CmdError::SendUsage));
    assert_eq!(GameCmd::from_str("help me"), Ok(GameCmd::Help));
    assert_eq!(GameCmd::from_str("send Nope {}"), Err(CmdError::Json));
    let eof = serde_json::from_str::<serde_json::Value>("{\"CsEcho\":{}").unwrap_err().to_string();
    assert_eq!(GameCmd::from_str("send CsEcho {"), Err(CmdError::JsonSyntax(eof)));
    assert_eq!(CmdError::Json.message(), "invalid message payload");
    assert_eq!(GameCmd::from_str("quit"), Err(CmdError::UnknownCommand));
}

#[test]
fn game_cmd_help_example_parses() {
    let example = "send CsEcho {\"content\": \"hello world\"}";
    assert!(GameCmd::help_msg().contains(example));
    assert_eq!(
        example.parse::<GameCmd>(),
        Ok(GameCmd::Send(CsMsg::CsEcho(CsEcho { content: "hello world".to_string() })))
    );
}

#[test]
fn game_cmd_send_outcomes() {
    assert_eq!(GameCmd::Logout.outcome(), Err("logout"));
    assert_eq!(GameCmd::Help.outcome(), Ok(()));
    assert_eq!(GameCmd::Send(CsMsg::CsPing(CsPing { seq: 1 })).outcome(), Ok(()));
    assert_eq!(GameCmd::after_send(&Ok(())), AfterSend::AwaitReply);
    assert_eq!(
        GameCmd::after_send(&Err("broken".to_string())),
        AfterSend::Show(Report::Error("AdminClient::send error. broken\n".to_string()))
    );
    let r = Registry::ScEcho(ScEcho { reply: "x".to_string() });
    assert_eq!(GameCmd::after_reply(Ok(r.clone())), AfterReply::Print(r));
    assert_eq!(
        GameCmd::after_reply(Err("gone".to_string())),
        AfterReply::Show(Report::Error("AdminClient::recv error. gone\n".to_string()))
    );
}

#[test]
fn game_cmd_send_login_and_ping() {
    assert_eq!(
        GameCmd::from_str("send CsLogin {\"token\":\"t\",\"player_id\":-3}"),
        Ok(GameCmd::Send(CsMsg::CsLogin(CsLogin { token: "t".to_string(), player_id: -3 })))
    );
    assert_eq!(
        GameCmd::from_str("send CsPing {\"seq\":12}"),
        Ok(GameCmd::Send(CsMsg::CsPing(CsPing { seq: 12 })))
    );
}

#[test]
fn game_cmd_steps() {
    assert_eq!(GameCmd::Logout.step(), GameStep::Logout);
    match GameCmd::Help.step() {
        GameStep::Print(t) => assert_eq!(t, GameCmd::help_msg()),
        other => panic!("unexpected {:?}", other),
    }
    assert!(GameCmd::help_msg().contains("send <name> <payload>"));
    let m = CsMsg::CsPing(CsPing { seq: 1 });
    assert_eq!(GameCmd::Send(m.clone()).step(), GameStep::Send(m));
}

#[test]
fn api_cmd_words() {
    assert_eq!(ApiCmd::from_str("list"), Ok(ApiCmd::List));
    assert_eq!(ApiCmd::from_str("create 'Big Reco'"), Ok(ApiCmd::Create("Big Reco".to_string())));
    assert_eq!(ApiCmd::from_str("use 43534"), Ok(ApiCmd::Use(43534)));
    assert_eq!(ApiCmd::from_str("use -1"), Ok(ApiCmd::Use(-1)));
    assert_eq!(ApiCmd::from_str("help"), Ok(ApiCmd::Help));
    assert_eq!(ApiCmd::from_str(""), Err(CmdError::InvalidInput));
    assert_eq!(ApiCmd::from_str("create"), Err(CmdError::CreateUsage));
    assert_eq!(ApiCmd::from_str("use 1 2"), Err(CmdError::UseUsage));
    assert_eq!(ApiCmd::from_str("use x1"), Err(CmdError::ParseInt(IntError::InvalidDigit)));
    assert_eq!(ApiCmd::from_str("use 9223372036854775808"), Err(CmdError::ParseInt(IntError::PosOverflow)));
    assert_eq!(ApiCmd::from_str("use -9223372036854775809"), Err(CmdError::ParseInt(IntError::NegOverflow)));
    assert_eq!(ApiCmd::from_str("use ''"), Err(CmdError::ParseInt(IntError::Empty)));
    assert_eq!(ApiCmd::from_str("use -"), Err(CmdError::ParseInt(IntError::InvalidDigit)));
    assert_eq!(ApiCmd::from_str("use 99999999999999999999x"), Err(CmdError::ParseInt(IntError::PosOverflow)));
    assert_eq!(CmdError::ParseInt(IntError::Empty).message(), "cannot parse integer from empty string");
    assert_eq!(ApiCmd::from_str("use").unwrap_err().message(), "use <player_id>");
    assert_eq!(ApiCmd::from_str("create \"open"), Err(CmdError::Split));
    assert_eq!(ApiCmd::from_str("drop"), Err(CmdError::UnknownCommand));
    assert!(ApiCmd::help_msg().contains("use: login to gate with given player id"));
}

#[test]
fn cmd_error_messages() {
    assert_eq!(CmdError::InvalidInput.message(), "invalid input");
    assert_eq!(CmdError::UnknownCommand.message(), "unknown command, try 'help'");
}

#[test]
fn api_reports() {
    let ps = vec![
        Player { id: 1, name: "a".to_string() },
        Player { id: -2, name: "b".to_string() },
    ];
    assert_eq!(
        ApiCmd::list_report(&Ok(ps)),
        Report::Out("PLAYERS:\n\t1: a\n\t-2: b\n".to_string())
    );
    assert_eq!(
        ApiCmd::list_report(&Err("down".to_string())),
        Report::Error("fail to list player. down\n".to_string())
    );
    assert_eq!(
        ApiCmd::create_report(&Ok(Player { id: 7, name: "Reco".to_string() })),
        Report::Out("new player: 7: Reco\n".to_string())
    );
    assert_eq!(
        ApiCmd::create_report(&Err("x".to_string())),
        Report::Error("fail to create player. x\n".to_string())
    );
    assert_eq!(ApiCmd::use_report(&Ok(())), Report::Out("logout from gate client\n".to_string()));
    assert_eq!(
        ApiCmd::use_report(&Err("e".to_string())),
        Report::Error("error occur when run_game_client. e\n".to_string())
    );
}

#[test]
fn player_display() {
    let p = Player { id: -12, name: "Zed".to_string() };
    assert_eq!(p.to_display(), "-12: Zed");
}

#[test]
fn help_names_where_send_goes() {
    let h = GameCmd::help_msg();
    let i = h.find("send: send protocol to the ").unwrap();
    assert_eq!(&h[i + 27..i + 32], "gate\n");
}
