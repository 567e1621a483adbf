use vstd::prelude::*;

verus! {

/// Handshake reply: the actor, the connection and its token.
#[derive(Debug, Clone)]
pub struct Init {
    /// Actor id.
    pub ai: String,
    /// Connection id.
    pub ci: String,
    /// Connection token.
    pub ct: String,
}

/// An error; with `ai` it answers that action, without it concerns the connection.
#[derive(Debug, Clone)]
pub struct Error {
    /// Code.
    pub c: String,
    /// Message.
    pub m: String,
    /// Metadata.
    pub md: Option<serde_json::Value>,
    /// Action id.
    pub ai: Option<i64>,
}

#[derive(Debug, Clone)]
pub struct ActionResponse {
    /// Action id.
    pub i: i64,
    /// Output.
    pub o: serde_json::Value,
}

#[derive(Debug, Clone)]
pub struct Event {
    /// Event name.
    pub n: String,
    /// Event arguments.
    pub a: Vec<serde_json::Value>,
}

#[derive(Debug, Clone)]
pub enum ToClientBody {
    Init { i: Init },
    Error { e: Error },
    ActionResponse { ar: ActionResponse },
    EventMessage { ev: Event },
}

#[derive(Debug, Clone)]
pub struct ToClient {
    pub b: ToClientBody,
}

impl ToClient {
    /// Whether this frame completes the handshake.
    pub fn is_init(&self) -> (r: bool)
        ensures
            r == (self.b is Init),
    {
        match &self.b {
            ToClientBody::Init { .. } => true,
            _ => false,
        }
    }
}

} // verus!
