//! The client manager of the desktop tool: its fast-login clients by player
//! id, the errors of its commands, and how a request typed as JSON is
//! addressed.
use vstd::prelude::*;
use std::collections::HashMap;
use crate::msg::CsMsg;
use crate::fast_login::TagCsMsg;
use crate::json::{parse_json, cs_msg_from_json, serde_json_parse, spec_cs_msg_from_json};
use crate::text::push_str;
use crate::num::{push_u64, decimal};

verus! {

/// Why a command of the client manager failed.
#[derive(Debug, PartialEq, Eq)]
pub enum ClientMgrError {
    /// An I/O error, by its text.
    Io(String),
    /// A fast-login client of this player exists already.
    DupFClient(u64),
    /// No fast-login client of this player exists.
    FClientNotFound(u64),
    /// A client of this account exists already.
    DupNClient(String),
    /// No client of this account exists.
    NClientNotFound(String),
    /// An error of the desktop runtime, by its text.
    Tauri(String),
    /// The request is not the JSON of a client message.
    Serde(String),
    /// A client task failed, by the error's text.
    JoinError(String),
    /// Any other error, by its text.
    Any(String),
    /// The request channel is closed.
    CloseSend,
}

/// The text of an error of the client manager.
pub open spec fn client_mgr_error_text(e: ClientMgrError) -> Seq<char> {
    match e {
        ClientMgrError::Io(t) => t@,
        ClientMgrError::DupFClient(id) => "fclient-"@ + decimal(id as nat) + " exist"@,
        ClientMgrError::FClientNotFound(id) => "fclient-"@ + decimal(id as nat) + " not found"@,
        ClientMgrError::DupNClient(n) => "nclient-"@ + n@ + " exist"@,
        ClientMgrError::NClientNotFound(n) => "nclient-"@ + n@ + " not found"@,
        ClientMgrError::Tauri(t) => t@,
        ClientMgrError::Serde(t) => "serde error: "@ + t@,
        ClientMgrError::JoinError(t) => "tokio join error: "@ + t@,
        ClientMgrError::Any(t) => t@,
        ClientMgrError::CloseSend => "attempt to send to close channel"@,
    }
}

impl ClientMgrError {
    /// The text of the error.
    pub fn message(&self) -> (r: String)
        ensures
            r@ == client_mgr_error_text(*self),
    {
        let mut s = String::new();
        match self {
            ClientMgrError::Io(t) => push_str(&mut s, t.as_str()),
            ClientMgrError::DupFClient(id) => {
                push_str(&mut s, "fclient-");
                push_u64(&mut s, *id);
                push_str(&mut s, " exist");
            },
            ClientMgrError::FClientNotFound(id) => {
                push_str(&mut s, "fclient-");
                push_u64(&mut s, *id);
                push_str(&mut s, " not found");
            },
            ClientMgrError::DupNClient(n) => {
                push_str(&mut s, "nclient-");
                push_str(&mut s, n.as_str());
                push_str(&mut s, " exist");
            },
            ClientMgrError::NClientNotFound(n) => {
                push_str(&mut s, "nclient-");
                push_str(&mut s, n.as_str());
                push_str(&mut s, " not found");
            },
            ClientMgrError::Tauri(t) => push_str(&mut s, t.as_str()),
            ClientMgrError::Serde(t) => {
                push_str(&mut s, "serde error: ");
                push_str(&mut s, t.as_str());
            },
            ClientMgrError::JoinError(t) => {
                push_str(&mut s, "tokio join error: ");
                push_str(&mut s, t.as_str());
            },
            ClientMgrError::Any(t) => push_str(&mut s, t.as_str()),
            ClientMgrError::CloseSend => push_str(&mut s, "attempt to send to close channel"),
        }
        s
    }

    /// The error of a close signal that could not be sent to the client of
    /// player `id`.
    pub fn close_failed(id: u64) -> (r: ClientMgrError)
        ensures
            r matches ClientMgrError::Any(t) && t@ == "fail to send fclient-"@ + decimal(id as nat) + " close signal"@,
    {
        let mut s = String::new();
        push_str(&mut s, "fail to send fclient-");
        push_u64(&mut s, id);
        push_str(&mut s, " close signal");
        ClientMgrError::Any(s)
    }
}

/// The clients of the manager, by player id.
pub struct ClientMgr<P> {
    clients: HashMap<u64, P>,
}

impl<P> ClientMgr<P> {
    /// The clients, by player id.
    pub closed spec fn clients(&self) -> Map<u64, P> {
        self.clients@
    }

    /// A manager without clients.
    pub fn new() -> (r: ClientMgr<P>)
        ensures
            r.clients() == Map::<u64, P>::empty(),
    {
        ClientMgr { clients: HashMap::new() }
    }

    /// Refuses a second client of player `id`.
    pub fn check_absent(&self, id: u64) -> (r: Result<(), ClientMgrError>)
        ensures
            self.clients().contains_key(id) ==> r == Err::<(), ClientMgrError>(ClientMgrError::DupFClient(id)),
            !self.clients().contains_key(id) ==> r is Ok,
    {
        broadcast use vstd::std_specs::hash::group_hash_axioms;
        if self.clients.contains_key(&id) {
            Err(ClientMgrError::DupFClient(id))
        } else {
            Ok(())
        }
    }

    /// Records the client of player `id`.
    pub fn insert(&mut self, id: u64, client: P)
        ensures
            final(self).clients() == old(self).clients().insert(id, client),
    {
        broadcast use vstd::std_specs::hash::group_hash_axioms;
        self.clients.insert(id, client);
    }

    /// Takes out the client of player `id`.
    pub fn remove(&mut self, id: u64) -> (r: Result<P, ClientMgrError>)
        ensures
            old(self).clients().contains_key(id) ==> r == Ok::<P, ClientMgrError>(old(self).clients()[id])
                && final(self).clients() == old(self).clients().remove(id),
            !old(self).clients().contains_key(id) ==> r == Err::<P, ClientMgrError>(ClientMgrError::FClientNotFound(id))
                && final(self).clients() == old(self).clients(),
    {
        broadcast use vstd::std_specs::hash::group_hash_axioms;
        match self.clients.remove(&id) {
            Some(c) => Ok(c),
            None => {
                assert(final(self).clients() =~= old(self).clients());
                Err(ClientMgrError::FClientNotFound(id))
            },
        }
    }

    /// The client of player `id`.
    pub fn get(&self, id: u64) -> (r: Result<&P, ClientMgrError>)
        ensures
            self.clients().contains_key(id) ==> r == Ok::<&P, ClientMgrError>(&self.clients()[id]),
            !self.clients().contains_key(id) ==> r == Err::<&P, ClientMgrError>(ClientMgrError::FClientNotFound(id)),
    {
        broadcast use vstd::std_specs::hash::group_hash_axioms;
        match self.clients.get(&id) {
            Some(c) => Ok(c),
            None => Err(ClientMgrError::FClientNotFound(id)),
        }
    }
}

/// Whether `regex::Regex::new` accepts `pattern`.
pub uninterp spec fn regex_pattern_valid(pattern: Seq<char>) -> bool;

/// Calls `regex::Regex::new` and tells whether it accepted `pattern`; the
/// answer depends on the pattern alone.
#[verifier::external_body]
fn regex_compiles(pattern: &str) -> (r: bool)
    ensures
        r == regex_pattern_valid(pattern@),
{
    regex::Regex::new(pattern).is_ok()
}

/// The text that the group named `group` takes in the leftmost match of
/// `pattern` in `content`; `None` where the pattern matches nowhere or the
/// group takes no part in that match.
pub uninterp spec fn regex_group_capture(pattern: Seq<char>, content: Seq<char>, group: Seq<char>) -> Option<Seq<char>>;

/// Compiles `pattern` with `regex::Regex::new` (which accepts it), searches
/// `content` with `Regex::captures` and takes the group named `group` of the
/// leftmost match with `Captures::name`; the result depends on the three
/// texts alone.
#[verifier::external_body]
fn regex_capture(pattern: &str, content: &str, group: &str) -> (r: Option<String>)
    requires
        regex_pattern_valid(pattern@),
    ensures
        match r {
            Some(n) => regex_group_capture(pattern@, content@, group@) == Some(n@),
            None => regex_group_capture(pattern@, content@, group@) is None,
        },
{
    let re = regex::Regex::new(pattern).unwrap();
    re.captures(content).and_then(|c| c.name(group)).map(|m| m.as_str().to_string())
}

/// The pattern whose group `pbName` names the message of a request typed as
/// JSON: the first key of the outermost object.
pub open spec fn pb_name_pattern() -> Seq<char> {
    "\\{\\s*\"(?P<pbName>\\w+)\":"@
}

/// The group of `pb_name_pattern` that holds the message's name.
pub open spec fn pb_name_group() -> Seq<char> {
    "pbName"@
}

/// What a request typed as JSON becomes: the client message it describes,
/// addressed to player `player_id`, and the message's name as written.
pub open spec fn fclient_request_outcome(content: Seq<char>, player_id: u64, r: Result<(String, TagCsMsg<u64>), ClientMgrError>) -> bool {
    match serde_json_parse(content) {
        Ok(v) => match spec_cs_msg_from_json(v) {
            Some(m) => if !regex_pattern_valid(pb_name_pattern()) {
                r matches Err(ClientMgrError::Any(t)) && t@ == "invalid pb name pattern"@
            } else {
                match regex_group_capture(pb_name_pattern(), content, pb_name_group()) {
                    Some(name) => r matches Ok((n, req)) && n@ == name && req.to == Some(player_id) && req.msg@ == m,
                    None => r matches Err(ClientMgrError::Any(t))
                        && t@ == "invalid pb content "@ + content + ". unable to capture pb name"@,
                }
            },
            None => r matches Err(ClientMgrError::Serde(t)) && t@ == "invalid message"@,
        },
        Err(e) => r matches Err(ClientMgrError::Serde(t)) && t@ == e,
    }
}

/// A request typed as JSON for the client of player `player_id`: the
/// request to broadcast and the message's name, or why it is refused.
pub fn fclient_request(content: &str, player_id: u64) -> (r: Result<(String, TagCsMsg<u64>), ClientMgrError>)
    ensures
        fclient_request_outcome(content@, player_id, r),
{
    let v = match parse_json(content) {
        Ok(v) => v,
        Err(e) => return Err(ClientMgrError::Serde(e)),
    };
    let msg = match cs_msg_from_json(&v) {
        Some(m) => m,
        None => return Err(ClientMgrError::Serde("invalid message".to_owned())),
    };
    let pattern = "\\{\\s*\"(?P<pbName>\\w+)\":";
    let group = "pbName";
    if !regex_compiles(pattern) {
        return Err(ClientMgrError::Any("invalid pb name pattern".to_owned()));
    }
    match regex_capture(pattern, content, group) {
        Some(name) => Ok((name, TagCsMsg { msg, to: Some(player_id) })),
        None => {
            let mut t = String::new();
            push_str(&mut t, "invalid pb content ");
            push_str(&mut t, content);
            push_str(&mut t, ". unable to capture pb name");
            Err(ClientMgrError::Any(t))
        },
    }
}

} // verus!
