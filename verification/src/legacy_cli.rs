//! The command line of the first admin console, as plain values (the
//! argument parser fills them).
use vstd::prelude::*;
use crate::text::push_str;
use crate::num::{push_i64, i64_text};

verus! {

/// The arguments of the first admin console.
#[derive(Debug, PartialEq, Eq)]
pub struct Args {
    pub gate: String,
    pub subcmd: SubCmds,
}

/// The subcommands of the first admin console.
#[derive(Debug, PartialEq, Eq)]
pub enum SubCmds {
    ServeHttp { port: u16 },
    FClient { player_id: i64 },
    Client { username: String, password: String },
    Bench { client: usize, iter: usize },
    GM,
}

/// The prompt of the console a subcommand opens: `[fclient-<id>]` for a
/// fast-login client, `[<username>]` for an account; the other subcommands
/// open none.
pub open spec fn console_prompt_of(cmd: SubCmds) -> Option<Seq<char>> {
    match cmd {
        SubCmds::FClient { player_id } => Some("[fclient-"@ + i64_text(player_id) + "]"@),
        SubCmds::Client { username, .. } => Some("["@ + username@ + "]"@),
        _ => None,
    }
}

/// The prompt of the console a subcommand opens, if it opens one.
pub fn console_prompt(cmd: &SubCmds) -> (r: Option<String>)
    ensures
        match console_prompt_of(*cmd) {
            Some(p) => r matches Some(s) && s@ == p,
            None => r is None,
        },
{
    match cmd {
        SubCmds::FClient { player_id } => {
            let mut s = String::new();
            push_str(&mut s, "[fclient-");
            push_i64(&mut s, *player_id);
            push_str(&mut s, "]");
            Some(s)
        },
        SubCmds::Client { username, .. } => {
            let mut s = String::new();
            push_str(&mut s, "[");
            push_str(&mut s, username.as_str());
            push_str(&mut s, "]");
            Some(s)
        },
        _ => None,
    }
}

} // verus!
