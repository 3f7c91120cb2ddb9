//! Admin tooling for the gsvr game server: the message schema, its wire
//! codecs, the command language of the admin console and the bookkeeping of
//! the gateway agents.
pub mod msgid;
pub mod text;
pub mod msg;
pub mod varint;
pub mod wire;
pub mod frame;
pub mod codec;
pub mod legacy_codec;
pub mod line_decoder;
pub mod gate_agent;
pub mod json;
pub mod num;
pub mod cmd;
pub mod misc;
pub mod hint;
pub mod gclient;
pub mod console;
pub mod fast_login;
pub mod pf;
pub mod bench;
pub mod cli;
pub mod legacy_cli;
pub mod desktop_agent;
pub mod client_mgr;
pub mod agent_mgr;
