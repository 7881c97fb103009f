//! Update-delivery core of a bot that relays web messages to chats.
//!
//! The library holds the verified logic: the session table that binds bearer
//! tokens to chats, the command table and parser, the update dispatcher, the
//! delivery-mode coordinator, the long-poll state machine and the relay
//! decisions. Network, storage and timer work is done by the caller.
use vstd::prelude::*;

pub mod api;
pub mod bot;
pub mod command;
pub mod dispatch;
pub mod encoding;
pub mod error;
pub mod mode;
pub mod poll;
pub mod random;
pub mod relay;
pub mod session;
pub mod state;
pub mod time;

verus! {

} // verus!
