//! The command lines of the admin tools, as plain values (the argument
//! parser fills them).
use vstd::prelude::*;

verus! {

/// The arguments of the admin console.
#[derive(Debug, PartialEq, Eq)]
pub struct Args {
    pub gate: String,
    pub subcmd: SubCmds,
}

/// The subcommands of the admin console.
#[derive(Debug, PartialEq, Eq)]
pub enum SubCmds {
    ServeHttp { port: u16 },
    FClient { playerid: u64 },
    Client { username: String, password: String, register: bool },
    Bench,
    GM,
}

/// The commands of the interactive admin shell.
#[derive(Debug, PartialEq, Eq)]
pub enum RootCmd {
    Login { username: String, password: String },
    Flogin { playerid: u64 },
    Bench { count: u64 },
}

} // verus!
