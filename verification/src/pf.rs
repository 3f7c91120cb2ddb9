//! The platform service as the admin tools see it: its replies, the
//! account agent that keeps the account's players, and the console client
//! that logs in with an account.
use vstd::prelude::*;
use crate::misc::{Player, ClientInfo};
use crate::desktop_agent::FrontGateAgent;
use crate::text::push_str;
use crate::num::{push_i64, i64_text};

verus! {

/// A reply of the platform's HTTP API: `code` is `0` on success, and `data`
/// then holds the result.
#[derive(Debug)]
pub struct ApiReply<T> {
    pub code: i32,
    pub data: Option<T>,
    pub msg: String,
}

/// A refused API call.
#[derive(Debug, PartialEq, Eq)]
pub struct ApiError {
    pub code: i32,
    pub has_data: bool,
    pub msg: String,
}

impl ApiError {
    /// The text of the error: `Api ErrCode: <code>. Message: <msg>`.
    pub fn message(&self) -> (r: String)
        ensures
            r@ == "Api ErrCode: "@ + i64_text(self.code as i64) + ". Message: "@ + self.msg@,
    {
        let mut s = String::new();
        push_str(&mut s, "Api ErrCode: ");
        push_i64(&mut s, self.code as i64);
        push_str(&mut s, ". Message: ");
        push_str(&mut s, self.msg.as_str());
        s
    }
}

/// The error that a refused reply makes.
pub open spec fn api_error_of<T>(reply: ApiReply<T>) -> ApiError {
    ApiError { code: reply.code, has_data: reply.data is Some, msg: reply.msg }
}

/// Whether the account agent accepts a reply: success, with a result.
pub open spec fn accepted<T>(reply: ApiReply<T>) -> bool {
    reply.code == 0 && reply.data is Some
}

fn refused<T>(reply: ApiReply<T>) -> (r: ApiError)
    ensures
        r == api_error_of(reply),
{
    let has_data = reply.data.is_some();
    ApiError { code: reply.code, has_data, msg: reply.msg }
}

/// The result of a reply for the console client: its data when the code is
/// `0` (a successful reply always carries data), the error otherwise.
pub fn api_data<T>(reply: ApiReply<T>) -> (r: Result<T, ApiError>)
    requires
        reply.code == 0 ==> reply.data is Some,
    ensures
        reply.code == 0 ==> r == Ok::<T, ApiError>(reply.data.unwrap()),
        reply.code != 0 ==> r == Err::<T, ApiError>(api_error_of(reply)),
{
    if reply.code != 0 {
        Err(refused(reply))
    } else {
        match reply.data {
            Some(d) => Ok(d),
            None => vstd::pervasive::unreached(),
        }
    }
}

/// A player of an account, as the desktop tool lists it.
#[derive(Debug, PartialEq, Eq)]
pub struct AccountPlayer {
    pub pid: i64,
    pub name: String,
}

impl Clone for AccountPlayer {
    fn clone(&self) -> (r: Self)
        ensures
            r == *self,
    {
        AccountPlayer { pid: self.pid, name: self.name.clone() }
    }
}

fn clone_players(v: &Vec<AccountPlayer>) -> (r: Vec<AccountPlayer>)
    ensures
        r@ == v@,
{
    let mut r: Vec<AccountPlayer> = Vec::with_capacity(v.len());
    let mut i: usize = 0;
    while i < v.len()
        invariant
            i <= v@.len(),
            r@ == v@.take(i as int),
        decreases v@.len() - i,
    {
        r.push(v[i].clone());
        assert(v@.take(i + 1) =~= v@.take(i as int).push(v@[i as int]));
        i = i + 1;
    }
    assert(v@.take(v@.len() as int) =~= v@);
    r
}

/// An account agent as listed to the front end.
pub struct FrontPfAgent {
    pub _username: String,
    pub _players: Vec<AccountPlayer>,
}

/// The reply to adding an account: its name and its players.
pub struct AddPfClientAck {
    pub username: String,
    pub players: Vec<AccountPlayer>,
}

/// The account agents and gate agents as listed to the front end.
pub struct FrontAgentMgr {
    pub pfs: Vec<FrontPfAgent>,
    pub gates: Vec<FrontGateAgent>,
}

/// The account agent: the account, the token the platform issued for it,
/// and the players last seen.
pub struct PfAgent {
    pub username: String,
    pub password: String,
    pub token: String,
    /// The players last seen, in the order the platform listed them.
    pub players: Vec<AccountPlayer>,
}

impl PfAgent {
    /// The agent of an account, from the platform's reply to its
    /// authentication (the token): refused unless the reply is a success
    /// with a token.
    pub fn new(username: String, password: String, reply: ApiReply<String>) -> (r: Result<PfAgent, ApiError>)
        ensures
            accepted(reply) ==> (r matches Ok(a) && a.username == username && a.password == password
                && a.token == reply.data.unwrap() && a.players@ == Seq::<AccountPlayer>::empty()),
            !accepted(reply) ==> r == Err::<PfAgent, ApiError>(api_error_of(reply)),
    {
        if reply.code != 0 || reply.data.is_none() {
            return Err(refused(reply));
        }
        match reply.data {
            Some(token) => Ok(PfAgent { username, password, token, players: Vec::with_capacity(4) }),
            None => vstd::pervasive::unreached(),
        }
    }

    /// The agent as listed to the front end.
    pub fn to_front(&self) -> (r: FrontPfAgent)
        ensures
            r._username == self.username,
            r._players@ == self.players@,
    {
        FrontPfAgent { _username: self.username.clone(), _players: clone_players(&self.players) }
    }

    /// Takes the platform's reply to creating the player `name` (the new
    /// player's id): the player is added to the list.
    pub fn create_player(&mut self, name: &str, reply: ApiReply<i64>) -> (r: Result<AccountPlayer, ApiError>)
        ensures
            final(self).username == old(self).username,
            final(self).password == old(self).password,
            final(self).token == old(self).token,
            accepted(reply) ==> {
                &&& r matches Ok(p) && p.pid == reply.data.unwrap() && p.name@ == name@
                &&& final(self).players@ == old(self).players@.push(r->Ok_0)
            },
            !accepted(reply) ==> r == Err::<AccountPlayer, ApiError>(api_error_of(reply))
                && final(self).players@ == old(self).players@,
    {
        if reply.code != 0 || reply.data.is_none() {
            return Err(refused(reply));
        }
        let pid = match reply.data {
            Some(p) => p,
            None => vstd::pervasive::unreached(),
        };
        let ret = AccountPlayer { pid, name: name.to_owned() };
        self.players.push(ret.clone());
        Ok(ret)
    }

    /// Takes the platform's reply to listing the account's players: the
    /// list replaces the one kept.
    pub fn list_players(&mut self, reply: ApiReply<Vec<AccountPlayer>>) -> (r: Result<Vec<AccountPlayer>, ApiError>)
        ensures
            final(self).username == old(self).username,
            final(self).password == old(self).password,
            final(self).token == old(self).token,
            accepted(reply) ==> (r matches Ok(v) && v@ == reply.data.unwrap()@
                && final(self).players@ == reply.data.unwrap()@),
            !accepted(reply) ==> r == Err::<Vec<AccountPlayer>, ApiError>(api_error_of(reply))
                && final(self).players@ == old(self).players@,
    {
        if reply.code != 0 || reply.data.is_none() {
            return Err(refused(reply));
        }
        let players = match reply.data {
            Some(p) => p,
            None => vstd::pervasive::unreached(),
        };
        self.players = players;
        Ok(clone_players(&self.players))
    }
}

/// The console client of an account: it logs in to the platform once, then
/// plays one of the account's players on the gateway.
pub struct NClient {
    username: String,
    password: String,
    gate: String,
    token: Option<String>,
}

/// Why a player could not be played.
#[derive(Debug, PartialEq, Eq)]
pub enum NClientError {
    /// The account has no player with this id.
    PlayerNotFound(i64),
}

impl NClientError {
    /// The text of the error: `player-<id> not found`.
    pub fn message(&self) -> (r: String)
        ensures
            match *self {
                NClientError::PlayerNotFound(id) => r@ == "player-"@ + i64_text(id) + " not found"@,
            },
    {
        match self {
            NClientError::PlayerNotFound(id) => {
                let mut s = String::new();
                push_str(&mut s, "player-");
                push_i64(&mut s, *id);
                push_str(&mut s, " not found");
                s
            },
        }
    }
}

/// The first player with id `id`.
pub open spec fn first_player(players: Seq<Player>, id: i64) -> Option<Player>
    decreases players.len(),
{
    if players.len() == 0 {
        None
    } else if players[0].id == id {
        Some(players[0])
    } else {
        first_player(players.drop_first(), id)
    }
}

impl NClient {
    /// The account's name.
    pub closed spec fn account(&self) -> Seq<char> {
        self.username@
    }

    /// The account's password.
    pub closed spec fn secret(&self) -> Seq<char> {
        self.password@
    }

    /// The gateway's address.
    pub closed spec fn gate_addr(&self) -> Seq<char> {
        self.gate@
    }

    /// The account's name.
    pub fn username(&self) -> (r: &String)
        ensures
            r@ == self.account(),
    {
        &self.username
    }

    /// The account's password.
    pub fn password(&self) -> (r: &String)
        ensures
            r@ == self.secret(),
    {
        &self.password
    }

    /// The gateway's address.
    pub fn gate(&self) -> (r: &String)
        ensures
            r@ == self.gate_addr(),
    {
        &self.gate
    }

    /// The token of the account, once logged in.
    pub closed spec fn session(&self) -> Option<String> {
        self.token
    }

    /// A client of the account, not logged in yet.
    pub fn new(gate: String, username: String, password: String) -> (r: NClient)
        ensures
            r.gate_addr() == gate@,
            r.account() == username@,
            r.secret() == password@,
            r.session() is None,
    {
        NClient { username, password, gate, token: None }
    }

    /// Whether the client must log in before calling the platform.
    pub fn needs_auth(&self) -> (r: bool)
        ensures
            r == self.session() is None,
    {
        self.token.is_none()
    }

    /// Keeps the token the platform issued.
    pub fn authorized(&mut self, token: String)
        ensures
            final(self).session() == Some(token),
            final(self).account() == old(self).account(),
            final(self).secret() == old(self).secret(),
            final(self).gate_addr() == old(self).gate_addr(),
    {
        self.token = Some(token);
    }

    /// The token, once logged in.
    pub fn token(&self) -> (r: Option<&String>)
        ensures
            match self.session() {
                Some(t) => r == Some(&t),
                None => r is None,
            },
    {
        match &self.token {
            Some(t) => Some(t),
            None => None,
        }
    }

    /// The player to play among the account's `players`, and the identity
    /// to log in to the gateway with.
    pub fn use_player(&self, players: Vec<Player>, id: i64) -> (r: Result<(Player, ClientInfo), NClientError>)
        requires
            self.session() is Some,
        ensures
            match first_player(players@, id) {
                Some(p) => r matches Ok((q, info)) && q == p
                    && info == ClientInfo::Normal { player_id: id, token: self.session().unwrap() },
                None => r == Err::<(Player, ClientInfo), NClientError>(NClientError::PlayerNotFound(id)),
            },
    {
        let mut i: usize = 0;
        assert(players@.skip(0) =~= players@);
        while i < players.len()
            invariant
                i <= players@.len(),
                self.session() is Some,
                first_player(players@, id) == first_player(players@.skip(i as int), id),
            decreases players@.len() - i,
        {
            assert(players@.skip(i as int).drop_first() =~= players@.skip(i + 1));
            if players[i].id == id {
                let token = match &self.token {
                    Some(t) => t.clone(),
                    None => vstd::pervasive::unreached(),
                };
                return Ok((players[i].clone(), ClientInfo::Normal { player_id: id, token }));
            }
            i = i + 1;
        }
        assert(players@.skip(i as int).len() == 0);
        Err(NClientError::PlayerNotFound(id))
    }

    /// The prompt of the game console of `player`: `[<username>/<name>]`.
    pub fn game_prompt(&self, player: &Player) -> (r: String)
        ensures
            r@ == "["@ + self.account() + "/"@ + player.name@ + "]"@,
    {
        let mut s = String::new();
        push_str(&mut s, "[");
        push_str(&mut s, self.username.as_str());
        push_str(&mut s, "/");
        push_str(&mut s, player.name.as_str());
        push_str(&mut s, "]");
        s
    }
}

} // verus!
