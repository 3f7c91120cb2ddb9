use admin::cmd::{ApiCmd, GameCmd};
use admin::hint::{payload_hint, shown_payload, CmdHints, Hint, PbHintError, PbHintState};
use admin::msg::Registry;

fn defaults() -> Vec<(String, String)> {
    vec![
        ("CsPing".to_string(), "{\"CsPing\":{\"seq\":0}}".to_string()),
        ("CsLogin".to_string(), "{\"CsLogin\":{\"token\":\"\",\"player_id\":0}}".to_string()),
        ("CsFastLogin".to_string(), "{\"CsFastLogin\":{\"player_id\":0}}".to_string()),
        ("CsEcho".to_string(), "{\"CsEcho\":{\"content\":\"\"}}".to_string()),
    ]
}

fn hints() -> CmdHints {
    CmdHints::new(defaults()).expect("hints")
}

#[test]
fn payload_hint_cuts_message_json() {
    assert_eq!(payload_hint("{\"CsPing\":{\"seq\":0}}"), Some("{\"seq\":0}".to_string()));
    assert_eq!(payload_hint("no colon"), None);
    assert_eq!(payload_hint("{\"a\":"), None);
}

#[test]
fn hints_need_every_request_kind() {
    let mut d = defaults();
    d.pop();
    assert!(CmdHints::new(d).is_none());
    let mut d = defaults();
    d.push(("Broken".to_string(), "nothing".to_string()));
    assert!(CmdHints::new(d).is_none());
}

#[test]
fn game_completion_of_nothing_lists_commands() {
    let h = hints();
    assert_eq!(GameCmd::auto_complete(String::new(), &h), vec!["send", "logout", "help"]);
}

#[test]
fn game_completion_of_a_command_prefix() {
    let h = hints();
    assert_eq!(GameCmd::auto_complete("l".to_string(), &h), vec!["logout"]);
    assert_eq!(GameCmd::auto_complete("x".to_string(), &h), Vec::<String>::new());
    assert_eq!(GameCmd::auto_complete("he".to_string(), &h), vec!["help"]);
}

#[test]
fn game_completion_of_send() {
    let h = hints();
    assert_eq!(
        GameCmd::auto_complete("send ".to_string(), &h),
        vec!["send CsEcho", "send CsFastLogin", "send CsLogin", "send CsPing"]
    );
    assert_eq!(
        GameCmd::auto_complete("send CsE".to_string(), &h),
        vec!["send CsEcho {\"content\":\"\"}"]
    );
    assert_eq!(
        GameCmd::auto_complete("send CsP".to_string(), &h),
        vec!["send CsPing {\"seq\":0}"]
    );
    assert_eq!(GameCmd::auto_complete("send Zz".to_string(), &h), vec!["send Zz"]);
    assert_eq!(
        GameCmd::auto_complete("send Cs".to_string(), &h),
        vec!["send CsEcho", "send CsFastLogin", "send CsLogin", "send CsPing"]
    );
    assert_eq!(GameCmd::auto_complete("help me".to_string(), &h), vec!["help me"]);
}

#[test]
fn game_completion_needs_words() {
    let h = hints();
    assert_eq!(GameCmd::try_auto_complete("   ".to_string(), &h), None);
    assert_eq!(GameCmd::try_auto_complete("send \"open".to_string(), &h), None);
    assert_eq!(GameCmd::try_auto_complete("s".to_string(), &h), Some(vec!["send".to_string()]));
}

#[test]
fn api_completion() {
    let h = hints();
    assert_eq!(ApiCmd::auto_complete("c".to_string(), &h), vec!["create"]);
    assert_eq!(ApiCmd::auto_complete(String::new(), &h), vec!["create", "help", "list", "use"]);
    assert_eq!(ApiCmd::auto_complete("z".to_string(), &h), Vec::<String>::new());
}

#[test]
fn registry_names_and_ids() {
    assert_eq!(
        Registry::names(),
        vec!["CsPing", "ScPing", "CsLogin", "ScLogin", "CsFastLogin", "ScFastLogin", "CsEcho", "ScEcho"]
    );
    assert_eq!(Registry::ids(), vec![1, 2, 101, 102, 103, 104, 201, 202]);
}

#[test]
fn desktop_hint_pairs() {
    let pretty = "{\n  \"CsPing\": {\n    \"seq\": 0\n  }\n}".to_string();
    assert_eq!(shown_payload(&pretty), Some(" {\n    \"seq\": 0\n  }\n".to_string()));
    let h = Hint::new(vec![("CsPing", pretty.clone())]).unwrap();
    assert_eq!(h.pair.len(), 1);
    assert_eq!(h.pair[0].name, "CsPing");
    assert_eq!(h.pair[0].payload, " {\n    \"seq\": 0\n  }\n");
    assert_eq!(h.name2payload, vec![("CsPing", pretty)]);
    assert!(Hint::new(vec![("X", "plain".to_string())]).is_none());
    let names = Registry::names();
    let ids = Registry::ids();
    let f = h.to_front(&names, &ids);
    assert_eq!(f.pbnames.len(), 8);
    assert_eq!(f.pbids[7], 202);
    assert_eq!(f.pairs.len(), 1);
}

#[test]
fn pb_hint_state() {
    let entries = vec![
        ("CsPing", "{\"CsPing\": {}}".to_string()),
        ("CsLogin", "{\"CsLogin\": {}}".to_string()),
        ("CsFastLogin", "{\"CsFastLogin\": {}}".to_string()),
        ("CsEcho", "{\"CsEcho\": {}}".to_string()),
    ];
    let st = PbHintState::new(entries);
    assert_eq!(st.get_options(), vec!["CsPing", "CsEcho"]);
    assert_eq!(st.try_hint("CsEcho").unwrap(), "{\"CsEcho\": {}}");
    match st.try_hint("Nope") {
        Err(e) => {
            assert_eq!(e, PbHintError::NotRecord("Nope".to_string()));
            assert_eq!(e.message(), "no hint found for Nope");
        }
        Ok(_) => panic!("found"),
    }
}
