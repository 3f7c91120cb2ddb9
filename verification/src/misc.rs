//! Client identities, the client interface and players.
use vstd::prelude::*;
use crate::msg::Registry;
use crate::num::{push_i64, i64_text};
use crate::text::push_str;

verus! {

/// How a client logs in to the gateway.
#[derive(Debug, PartialEq, Eq)]
pub enum ClientInfo {
    /// With the token the platform service issued for the account.
    Normal { player_id: i64, token: String },
    /// By player id alone.
    FastLogin { player_id: i64 },
}

impl Clone for ClientInfo {
    fn clone(&self) -> (r: Self)
        ensures
            r == *self,
    {
        match self {
            ClientInfo::Normal { player_id, token } => ClientInfo::Normal {
                player_id: *player_id,
                token: token.clone(),
            },
            ClientInfo::FastLogin { player_id } => ClientInfo::FastLogin { player_id: *player_id },
        }
    }
}

/// A client of the gateway: sends requests, receives replies.
pub trait AdminClient {
    /// Sends a request to the gateway.
    fn send(&mut self, msg: Registry) -> Result<(), String>;

    /// Waits for the next reply of the gateway.
    fn recv(&mut self) -> Result<Registry, String>;
}

/// A player of an account.
#[derive(Debug, PartialEq, Eq)]
pub struct Player {
    pub id: i64,
    pub name: String,
}

impl Clone for Player {
    fn clone(&self) -> (r: Self)
        ensures
            r == *self,
    {
        Player { id: self.id, name: self.name.clone() }
    }
}

impl Player {
    /// The player as shown: `<id>: <name>`.
    pub fn to_display(&self) -> (r: String)
        ensures
            r@ == i64_text(self.id) + ": "@ + self.name@,
    {
        let mut s = String::new();
        push_i64(&mut s, self.id);
        push_str(&mut s, ": ");
        push_str(&mut s, self.name.as_str());
        s
    }
}


} // verus!
