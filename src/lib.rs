//! Client library for remote stateful actors: protocol frames, the persistent
//! connection state machine, its reconnect supervisor, transport decisions and
//! the requests made against the manager HTTP API.

pub mod backoff;
pub mod client;
pub mod common;
pub mod connection;
pub mod drivers;
pub mod laws;
pub mod protocol;
pub mod requests;
pub mod supervisor;
