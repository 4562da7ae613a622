//! Session protocol and game rules of a two-player networked shooter: the
//! packet format, the per-connection inbox, axis-separated collision against
//! static boxes, the replicated player record, and the server and client
//! session state machines.
pub mod arena;
pub mod channel;
pub mod client;
pub mod collision;
pub mod player;
pub mod server;
pub mod wire;
