//! The command language of the admin console.
use vstd::prelude::*;
use crate::msg::{CsMsg, MsgView, Registry};
use crate::json::{parse_json, cs_msg_from_json, serde_json_parse, spec_cs_msg_from_json};
use crate::text::{string_from_chars, push_str, str_eq, chars_eq, str_chars, skip_ws, first_word, after_first_word, first_word_at, skip_ws_from, sub_chars};
use crate::num::{parse_i64, spec_parse_i64, i64_text, IntError, int_error_message, int_error_kind, parse_i64_error};
use crate::misc::Player;

verus! {

/// Why a command line was refused.
#[derive(Debug, PartialEq, Eq)]
pub enum CmdError {
    /// No words at all.
    InvalidInput,
    /// `send` without exactly a name and a payload.
    SendUsage,
    /// `create` without exactly a name.
    CreateUsage,
    /// `use` without exactly a player id.
    UseUsage,
    /// The line has unbalanced quotes or a trailing escape.
    Split,
    /// The player id is not a decimal `i64`, for this reason.
    ParseInt(IntError),
    /// The request written out is not JSON; the JSON parser's text of why.
    JsonSyntax(String),
    /// The payload does not describe a request.
    Json,
    /// The first word is no command.
    UnknownCommand,
}

/// The abstract refusal: as `CmdError`, with the parser's text as characters.
pub enum CmdErrorView {
    InvalidInput,
    SendUsage,
    CreateUsage,
    UseUsage,
    Split,
    ParseInt(IntError),
    JsonSyntax(Seq<char>),
    Json,
    UnknownCommand,
}

impl View for CmdError {
    type V = CmdErrorView;

    open spec fn view(&self) -> CmdErrorView {
        match self {
            CmdError::InvalidInput => CmdErrorView::InvalidInput,
            CmdError::SendUsage => CmdErrorView::SendUsage,
            CmdError::CreateUsage => CmdErrorView::CreateUsage,
            CmdError::UseUsage => CmdErrorView::UseUsage,
            CmdError::Split => CmdErrorView::Split,
            CmdError::ParseInt(e) => CmdErrorView::ParseInt(*e),
            CmdError::JsonSyntax(t) => CmdErrorView::JsonSyntax(t@),
            CmdError::Json => CmdErrorView::Json,
            CmdError::UnknownCommand => CmdErrorView::UnknownCommand,
        }
    }
}

impl CmdError {
    /// The message shown for this error.
    pub fn message(&self) -> (r: String)
        ensures
            r@ == cmd_error_message(self@),
    {
        match self {
            CmdError::InvalidInput => "invalid input".to_owned(),
            CmdError::SendUsage => "send <cspb::CsMsg> <payload>".to_owned(),
            CmdError::CreateUsage => "create <name>".to_owned(),
            CmdError::UseUsage => "use <player_id>".to_owned(),
            CmdError::Split => "missing closing quote".to_owned(),
            CmdError::ParseInt(e) => e.message().to_owned(),
            CmdError::JsonSyntax(t) => t.clone(),
            CmdError::Json => "invalid message payload".to_owned(),
            CmdError::UnknownCommand => "unknown command, try 'help'".to_owned(),
        }
    }
}

/// The message shown for each error.
pub open spec fn cmd_error_message(e: CmdErrorView) -> Seq<char> {
    match e {
        CmdErrorView::InvalidInput => "invalid input"@,
        CmdErrorView::SendUsage => "send <cspb::CsMsg> <payload>"@,
        CmdErrorView::CreateUsage => "create <name>"@,
        CmdErrorView::UseUsage => "use <player_id>"@,
        CmdErrorView::Split => "missing closing quote"@,
        CmdErrorView::ParseInt(e) => int_error_message(e),
        CmdErrorView::JsonSyntax(t) => t,
        CmdErrorView::Json => "invalid message payload"@,
        CmdErrorView::UnknownCommand => "unknown command, try 'help'"@,
    }
}

/// A command of the game console.
#[derive(Debug, PartialEq)]
pub enum GameCmd {
    /// Send a request to the gateway.
    Send(CsMsg),
    /// Disconnect from the gateway.
    Logout,
    /// Show the help text.
    Help,
}

/// The abstract game command.
pub enum GameCmdView {
    Send(MsgView),
    Logout,
    Help,
}

impl View for GameCmd {
    type V = GameCmdView;

    open spec fn view(&self) -> GameCmdView {
        match self {
            GameCmd::Send(m) => GameCmdView::Send(m@),
            GameCmd::Logout => GameCmdView::Logout,
            GameCmd::Help => GameCmdView::Help,
        }
    }
}

/// The JSON text that `send <name> <payload>` stands for: an object whose
/// single member is named `name` and holds `payload`.
pub open spec fn send_json_text(name: Seq<char>, payload: Seq<char>) -> Seq<char> {
    "{\""@ + name + "\":"@ + payload + "}"@
}

/// The game command a line stands for: its first word names the command;
/// `send` takes a request name (its second word) and a JSON payload (the
/// rest of the line, spaces included), which together must describe a
/// request.
pub open spec fn spec_game_cmd(s: Seq<char>) -> Result<GameCmdView, CmdErrorView> {
    let w0 = first_word(s);
    let r1 = after_first_word(s);
    if w0.len() == 0 {
        Err(CmdErrorView::InvalidInput)
    } else if w0 == "help"@ {
        Ok(GameCmdView::Help)
    } else if w0 == "logout"@ {
        Ok(GameCmdView::Logout)
    } else if w0 == "send"@ {
        let name = first_word(r1);
        let payload = skip_ws(after_first_word(r1));
        if name.len() == 0 || payload.len() == 0 {
            Err(CmdErrorView::SendUsage)
        } else {
            match serde_json_parse(send_json_text(name, payload)) {
                Err(t) => Err(CmdErrorView::JsonSyntax(t)),
                Ok(v) => match spec_cs_msg_from_json(v) {
                    None => Err(CmdErrorView::Json),
                    Some(m) => Ok(GameCmdView::Send(m)),
                },
            }
        }
    } else {
        Err(CmdErrorView::UnknownCommand)
    }
}

fn word_is(w: &Vec<char>, lit: &str) -> (r: bool)
    ensures
        r == (w@ == lit@),
{
    let l = str_chars(lit);
    chars_eq(w, &l)
}

/// The help text of the game console.
pub open spec fn game_help_text() -> Seq<char> {
    "\nadmin client:\n    help: display this help message\n    send: send protocol to the \
gate\n        format: send <name> <payload>\n        example: send CsEcho {\"content\": \"hello world\"}\n    logout: disconnect from gate\n"@
}

impl GameCmd {
    /// The help text of the game console.
    pub fn help_msg() -> (r: &'static str)
        ensures
            r@ == game_help_text(),
    {
        "\nadmin client:\n    help: display this help message\n    send: send protocol to the \
gate\n        format: send <name> <payload>\n        example: send CsEcho {\"content\": \"hello world\"}\n    logout: disconnect from gate\n"
    }

    /// The command a line stands for.
    pub fn from_str(s: &str) -> (r: Result<GameCmd, CmdError>)
        ensures
            match r {
                Ok(c) => spec_game_cmd(s@) == Ok::<GameCmdView, CmdErrorView>(c@),
                Err(e) => spec_game_cmd(s@) == Err::<GameCmdView, CmdErrorView>(e@),
            },
    {
        let cs = str_chars(s);
        assert(cs@.skip(0) =~= cs@);
        let (a, b) = first_word_at(&cs, 0);
        if a == b {
            return Err(CmdError::InvalidInput);
        }
        let w0 = sub_chars(&cs, a, b);
        if word_is(&w0, "help") {
            Ok(GameCmd::Help)
        } else if word_is(&w0, "logout") {
            Ok(GameCmd::Logout)
        } else if word_is(&w0, "send") {
            let (c, d) = first_word_at(&cs, b);
            let e = skip_ws_from(&cs, d);
            if c == d || e == cs.len() {
                return Err(CmdError::SendUsage);
            }
            let name_chars = sub_chars(&cs, c, d);
            let payload_chars = sub_chars(&cs, e, cs.len());
            assert(payload_chars@ =~= cs@.skip(e as int));
            let mut text = String::new();
            push_str(&mut text, "{\"");
            let name = string_from_chars(&name_chars);
            push_str(&mut text, name.as_str());
            push_str(&mut text, "\":");
            let payload = string_from_chars(&payload_chars);
            push_str(&mut text, payload.as_str());
            push_str(&mut text, "}");
            assert(text@ =~= send_json_text(name_chars@, payload_chars@));
            match parse_json(text.as_str()) {
                Err(t) => Err(CmdError::JsonSyntax(t)),
                Ok(v) => match cs_msg_from_json(&v) {
                    None => Err(CmdError::Json),
                    Some(m) => Ok(GameCmd::Send(m)),
                },
            }
        } else {
            Err(CmdError::UnknownCommand)
        }
    }
}

impl std::str::FromStr for GameCmd {
    type Err = CmdError;

    fn from_str(s: &str) -> (r: Result<GameCmd, CmdError>)
        ensures
            match r {
                Ok(c) => spec_game_cmd(s@) == Ok::<GameCmdView, CmdErrorView>(c@),
                Err(e) => spec_game_cmd(s@) == Err::<GameCmdView, CmdErrorView>(e@),
            },
    {
        GameCmd::from_str(s)
    }
}


/// The words `shell_words::split` makes of `s` (quotes and escapes
/// resolved), or `None` when it fails.
pub uninterp spec fn shell_words_split(s: Seq<char>) -> Option<Seq<Seq<char>>>;

/// Calls `shell_words::split`, which splits a line into words as a POSIX
/// shell does; the words depend on the line alone.
#[verifier::external_body]
pub(crate) fn shell_split(s: &str) -> (r: Option<Vec<String>>)
    ensures
        match r {
            Some(v) => shell_words_split(s@) == Some(v@.map_values(|w: String| w@)),
            None => shell_words_split(s@) is None,
        },
{
    match shell_words::split(s) {
        Ok(v) => Some(v),
        Err(_) => None,
    }
}

/// A command of the platform (account) console.
#[derive(Debug, PartialEq, Eq)]
pub enum ApiCmd {
    /// List the players of the account.
    List,
    /// Create a player with this name.
    Create(String),
    /// Play the player with this id.
    Use(i64),
    /// Show the help text.
    Help,
}

/// The abstract platform command.
pub enum ApiCmdView {
    List,
    Create(Seq<char>),
    Use(i64),
    Help,
}

impl View for ApiCmd {
    type V = ApiCmdView;

    open spec fn view(&self) -> ApiCmdView {
        match self {
            ApiCmd::List => ApiCmdView::List,
            ApiCmd::Create(n) => ApiCmdView::Create(n@),
            ApiCmd::Use(i) => ApiCmdView::Use(*i),
            ApiCmd::Help => ApiCmdView::Help,
        }
    }
}

/// The platform command a line stands for, its words split as a shell
/// does: `list`, `help`, `create <name>` or `use <player id>`.
pub open spec fn spec_api_cmd(s: Seq<char>) -> Result<ApiCmdView, CmdErrorView> {
    match shell_words_split(s) {
        None => Err(CmdErrorView::Split),
        Some(ws) => if ws.len() == 0 {
            Err(CmdErrorView::InvalidInput)
        } else if ws[0] == "list"@ {
            Ok(ApiCmdView::List)
        } else if ws[0] == "create"@ {
            if ws.len() != 2 {
                Err(CmdErrorView::CreateUsage)
            } else {
                Ok(ApiCmdView::Create(ws[1]))
            }
        } else if ws[0] == "use"@ {
            if ws.len() != 2 {
                Err(CmdErrorView::UseUsage)
            } else {
                match spec_parse_i64(ws[1]) {
                    None => Err(CmdErrorView::ParseInt(int_error_kind(ws[1]))),
                    Some(n) => Ok(ApiCmdView::Use(n)),
                }
            }
        } else if ws[0] == "help"@ {
            Ok(ApiCmdView::Help)
        } else {
            Err(CmdErrorView::UnknownCommand)
        },
    }
}

impl ApiCmd {
    /// The help text of the platform console.
    pub fn help_msg() -> (r: &'static str)
        ensures
            r@ == "
admin client api:
    help: display this help message
    list: list all players of current account
    create: create a new player
        format: create <name>
        example: create Reco
    use: login to gate with given player id
        format: use <player id>
        example: use 43534
"@,
    {
        "
admin client api:
    help: display this help message
    list: list all players of current account
    create: create a new player
        format: create <name>
        example: create Reco
    use: login to gate with given player id
        format: use <player id>
        example: use 43534
"
    }

    /// The command a line stands for.
    pub fn from_str(s: &str) -> (r: Result<ApiCmd, CmdError>)
        ensures
            match r {
                Ok(c) => spec_api_cmd(s@) == Ok::<ApiCmdView, CmdErrorView>(c@),
                Err(e) => spec_api_cmd(s@) == Err::<ApiCmdView, CmdErrorView>(e@),
            },
    {
        let words = match shell_split(s) {
            None => return Err(CmdError::Split),
            Some(w) => w,
        };
        let ghost ws = shell_words_split(s@).unwrap();
        assert(words@.len() == ws.len());
        if words.len() == 0 {
            return Err(CmdError::InvalidInput);
        }
        assert(words@[0]@ == ws[0]);
        if str_eq(words[0].as_str(), "list") {
            Ok(ApiCmd::List)
        } else if str_eq(words[0].as_str(), "create") {
            if words.len() != 2 {
                return Err(CmdError::CreateUsage);
            }
            assert(words@[1]@ == ws[1]);
            Ok(ApiCmd::Create(words[1].clone()))
        } else if str_eq(words[0].as_str(), "use") {
            if words.len() != 2 {
                return Err(CmdError::UseUsage);
            }
            assert(words@[1]@ == ws[1]);
            match parse_i64(words[1].as_str()) {
                None => Err(CmdError::ParseInt(parse_i64_error(words[1].as_str()))),
                Some(n) => Ok(ApiCmd::Use(n)),
            }
        } else if str_eq(words[0].as_str(), "help") {
            Ok(ApiCmd::Help)
        } else {
            Err(CmdError::UnknownCommand)
        }
    }
}

impl std::str::FromStr for ApiCmd {
    type Err = CmdError;

    fn from_str(s: &str) -> (r: Result<ApiCmd, CmdError>)
        ensures
            match r {
                Ok(c) => spec_api_cmd(s@) == Ok::<ApiCmdView, CmdErrorView>(c@),
                Err(e) => spec_api_cmd(s@) == Err::<ApiCmdView, CmdErrorView>(e@),
            },
    {
        ApiCmd::from_str(s)
    }
}

/// What the game console does with a command.
#[derive(Debug, PartialEq)]
pub enum GameStep {
    /// Print this text.
    Print(&'static str),
    /// Send this request, then print the reply.
    Send(CsMsg),
    /// Leave the console.
    Logout,
}

impl GameCmd {
    /// What the console does with the command: print the help, send the
    /// request, or leave.
    pub fn step(&self) -> (r: GameStep)
        ensures
            match *self {
                GameCmd::Help => r matches GameStep::Print(t) && t@ == game_help_text(),
                GameCmd::Send(m) => r == GameStep::Send(m),
                GameCmd::Logout => r == GameStep::Logout,
            },
    {
        match self {
            GameCmd::Help => GameStep::Print(GameCmd::help_msg()),
            GameCmd::Send(m) => GameStep::Send(m.clone()),
            GameCmd::Logout => GameStep::Logout,
        }
    }
}

/// A text for the console: on standard output, or on standard error.
#[derive(Debug, PartialEq, Eq)]
pub enum Report {
    Out(String),
    Error(String),
}

/// A player's line in the list: a tab, `<id>: <name>`, a newline.
pub open spec fn player_line(p: Player) -> Seq<char> {
    seq!['\t'] + i64_text(p.id) + ": "@ + p.name@ + seq!['\n']
}

/// The lines of the players, in order.
pub open spec fn player_lines(ps: Seq<Player>) -> Seq<char>
    decreases ps.len(),
{
    if ps.len() == 0 {
        Seq::empty()
    } else {
        player_lines(ps.drop_last()) + player_line(ps.last())
    }
}

impl ApiCmd {
    /// What `list` prints: the players under a heading, or why they could
    /// not be listed.
    pub fn list_report(result: &Result<Vec<Player>, String>) -> (r: Report)
        ensures
            match *result {
                Ok(ps) => r matches Report::Out(t) && t@ == "PLAYERS:\n"@ + player_lines(ps@),
                Err(e) => r matches Report::Error(t) && t@ == "fail to list player. "@ + e@ + seq!['\n'],
            },
    {
        match result {
            Ok(ps) => {
                let mut t = String::new();
                push_str(&mut t, "PLAYERS:\n");
                let mut i: usize = 0;
                while i < ps.len()
                    invariant
                        i <= ps@.len(),
                        t@ == "PLAYERS:\n"@ + player_lines(ps@.take(i as int)),
                    decreases ps@.len() - i,
                {
                    push_str(&mut t, "\t");
                    let line = ps[i].to_display();
                    push_str(&mut t, line.as_str());
                    push_str(&mut t, "\n");
                    proof {
                        reveal_strlit("\t");
                        reveal_strlit("\n");
                        assert(ps@.take(i + 1).drop_last() =~= ps@.take(i as int));
                    }
                    i = i + 1;
                }
                assert(ps@.take(ps@.len() as int) =~= ps@);
                Report::Out(t)
            },
            Err(e) => {
                let mut t = String::new();
                push_str(&mut t, "fail to list player. ");
                push_str(&mut t, e.as_str());
                push_str(&mut t, "\n");
                proof {
                    reveal_strlit("\n");
                }
                Report::Error(t)
            },
        }
    }

    /// What `create` prints: the new player, or why it was not created.
    pub fn create_report(result: &Result<Player, String>) -> (r: Report)
        ensures
            match *result {
                Ok(p) => r matches Report::Out(t) && t@ == "new player: "@ + i64_text(p.id) + ": "@ + p.name@ + seq!['\n'],
                Err(e) => r matches Report::Error(t) && t@ == "fail to create player. "@ + e@ + seq!['\n'],
            },
    {
        let mut t = String::new();
        proof {
            reveal_strlit("\n");
        }
        match result {
            Ok(p) => {
                push_str(&mut t, "new player: ");
                let line = p.to_display();
                push_str(&mut t, line.as_str());
                push_str(&mut t, "\n");
                Report::Out(t)
            },
            Err(e) => {
                push_str(&mut t, "fail to create player. ");
                push_str(&mut t, e.as_str());
                push_str(&mut t, "\n");
                Report::Error(t)
            },
        }
    }

    /// What `use` prints once the game console is left.
    pub fn use_report(result: &Result<(), String>) -> (r: Report)
        ensures
            match *result {
                Ok(()) => r matches Report::Out(t) && t@ == "logout from gate client\n"@,
                Err(e) => r matches Report::Error(t) && t@ == "error occur when run_game_client. "@ + e@ + seq!['\n'],
            },
    {
        match result {
            Ok(()) => Report::Out("logout from gate client\n".to_owned()),
            Err(e) => {
                let mut t = String::new();
                push_str(&mut t, "error occur when run_game_client. ");
                push_str(&mut t, e.as_str());
                push_str(&mut t, "\n");
                proof {
                    reveal_strlit("\n");
                }
                Report::Error(t)
            },
        }
    }
}

/// What the game console does once a request has been sent.
#[derive(Debug, PartialEq, Eq)]
pub enum AfterSend {
    /// The request went out: wait for the reply.
    AwaitReply,
    /// It did not: show why, and wait for no reply.
    Show(Report),
}

/// What the game console does with the outcome of waiting for a reply.
#[derive(Debug, PartialEq, Eq)]
pub enum AfterReply {
    /// Print the reply (as its debug form).
    Print(Registry),
    /// Show why no reply came.
    Show(Report),
}

impl GameCmd {
    /// How the command ends for the console: `logout` leaves it with the
    /// error `logout`; every other command lets it go on, whatever sending
    /// or receiving gave.
    pub fn outcome(&self) -> (r: Result<(), &'static str>)
        ensures
            *self is Logout ==> (r matches Err(t) && t@ == "logout"@),
            !(*self is Logout) ==> r is Ok,
    {
        match self {
            GameCmd::Logout => Err("logout"),
            _ => Ok(()),
        }
    }

    /// After sending a request: wait for the reply only if the send
    /// succeeded; otherwise show the send error.
    pub fn after_send(sent: &Result<(), String>) -> (r: AfterSend)
        ensures
            match *sent {
                Ok(()) => r == AfterSend::AwaitReply,
                Err(e) => r matches AfterSend::Show(Report::Error(t))
                    && t@ == "AdminClient::send error. "@ + e@ + seq!['\n'],
            },
    {
        match sent {
            Ok(()) => AfterSend::AwaitReply,
            Err(e) => {
                let mut t = String::new();
                push_str(&mut t, "AdminClient::send error. ");
                push_str(&mut t, e.as_str());
                push_str(&mut t, "\n");
                proof {
                    reveal_strlit("\n");
                }
                AfterSend::Show(Report::Error(t))
            },
        }
    }

    /// After waiting for a reply: print it, or show the receive error.
    pub fn after_reply(reply: Result<Registry, String>) -> (r: AfterReply)
        ensures
            match reply {
                Ok(m) => r == AfterReply::Print(m),
                Err(e) => r matches AfterReply::Show(Report::Error(t))
                    && t@ == "AdminClient::recv error. "@ + e@ + seq!['\n'],
            },
    {
        match reply {
            Ok(m) => AfterReply::Print(m),
            Err(e) => {
                let mut t = String::new();
                push_str(&mut t, "AdminClient::recv error. ");
                push_str(&mut t, e.as_str());
                push_str(&mut t, "\n");
                proof {
                    reveal_strlit("\n");
                }
                AfterReply::Show(Report::Error(t))
            },
        }
    }
}

} // verus!
