//! Frames exchanged with the actor and the queries that select an actor.
//! Argument and output values are carried as JSON values and never inspected.

pub mod json;
pub mod query;
pub mod to_client;
pub mod to_server;
