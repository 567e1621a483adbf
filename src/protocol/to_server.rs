use vstd::prelude::*;

verus! {

/// First frame on the bidirectional transport, with the connection parameters.
#[derive(Debug, Clone)]
pub struct Init {
    pub p: Option<serde_json::Value>,
}

#[derive(Debug, Clone)]
pub struct ActionRequest {
    /// Action id.
    pub i: i64,
    /// Action name.
    pub n: String,
    /// Arguments.
    pub a: Vec<serde_json::Value>,
}

#[derive(Debug, Clone, PartialEq, Eq)]
pub struct SubscriptionRequest {
    /// Event name.
    pub e: String,
    /// Subscribe (true) or unsubscribe (false).
    pub s: bool,
}

#[derive(Debug, Clone)]
pub enum ToServerBody {
    Init { i: Init },
    ActionRequest { ar: ActionRequest },
    SubscriptionRequest { sr: SubscriptionRequest },
}

#[derive(Debug, Clone)]
pub struct ToServer {
    pub b: ToServerBody,
}

/// The frame that asks for the events of `name` (or stops them).
pub open spec fn subscription_frame(name: String, subscribe: bool) -> ToServer {
    ToServer { b: ToServerBody::SubscriptionRequest { sr: SubscriptionRequest { e: name, s: subscribe } } }
}

/// The frame that invokes action `name` under id `id`.
pub open spec fn action_frame(id: i64, name: String, args: Vec<serde_json::Value>) -> ToServer {
    ToServer { b: ToServerBody::ActionRequest { ar: ActionRequest { i: id, n: name, a: args } } }
}

/// The opening frame that carries the connection parameters.
pub open spec fn init_frame(params: Option<serde_json::Value>) -> ToServer {
    ToServer { b: ToServerBody::Init { i: Init { p: params } } }
}

impl ToServer {
    pub fn subscription(name: String, subscribe: bool) -> (r: ToServer)
        ensures
            r == subscription_frame(name, subscribe),
    {
        ToServer { b: ToServerBody::SubscriptionRequest { sr: SubscriptionRequest { e: name, s: subscribe } } }
    }

    pub fn action(id: i64, name: String, args: Vec<serde_json::Value>) -> (r: ToServer)
        ensures
            r == action_frame(id, name, args),
    {
        ToServer { b: ToServerBody::ActionRequest { ar: ActionRequest { i: id, n: name, a: args } } }
    }

    pub fn init(params: Option<serde_json::Value>) -> (r: ToServer)
        ensures
            r == init_frame(params),
    {
        ToServer { b: ToServerBody::Init { i: Init { p: params } } }
    }
}

} // verus!
