use vstd::prelude::*;

use crate::protocol::json::{clone_opt_string, clone_opt_value, clone_strings};

verus! {

/// Identity-forming tuple for name-based lookup; each element is at most
/// 128 bytes long.
pub type ActorKey = Vec<String>;

#[derive(Debug, Clone)]
pub struct CreateRequest {
    pub name: String,
    pub key: ActorKey,
    pub input: Option<serde_json::Value>,
    pub region: Option<String>,
}

#[derive(Debug, Clone)]
pub struct GetForKeyRequest {
    pub name: String,
    pub key: ActorKey,
}

#[derive(Debug, Clone)]
pub struct GetForIdRequest {
    pub actor_id: String,
}

#[derive(Debug, Clone)]
pub struct GetOrCreateRequest {
    pub name: String,
    pub key: ActorKey,
    pub input: Option<serde_json::Value>,
    pub region: Option<String>,
}

/// How an actor is selected.
#[derive(Debug, Clone)]
pub enum ActorQuery {
    GetForId { get_for_id: GetForIdRequest },
    GetForKey { get_for_key: GetForKeyRequest },
    GetOrCreateForKey { get_or_create_for_key: GetOrCreateRequest },
    Create { create: CreateRequest },
}

/// Two queries select the same actor in the same way: equal fields, keys
/// compared element by element.
pub open spec fn same_query(a: ActorQuery, b: ActorQuery) -> bool {
    match (a, b) {
        (ActorQuery::GetForId { get_for_id: x }, ActorQuery::GetForId { get_for_id: y }) => x == y,
        (ActorQuery::GetForKey { get_for_key: x }, ActorQuery::GetForKey { get_for_key: y }) => {
            x.name == y.name && x.key@ == y.key@
        },
        (
            ActorQuery::GetOrCreateForKey { get_or_create_for_key: x },
            ActorQuery::GetOrCreateForKey { get_or_create_for_key: y },
        ) => x.name == y.name && x.key@ == y.key@ && x.input == y.input && x.region == y.region,
        (ActorQuery::Create { create: x }, ActorQuery::Create { create: y }) => {
            x.name == y.name && x.key@ == y.key@ && x.input == y.input && x.region == y.region
        },
        _ => false,
    }
}

impl ActorQuery {
    /// A query by actor id.
    pub fn for_id(actor_id: String) -> (r: ActorQuery)
        ensures
            r == (ActorQuery::GetForId { get_for_id: GetForIdRequest { actor_id } }),
    {
        ActorQuery::GetForId { get_for_id: GetForIdRequest { actor_id } }
    }

    /// A field-by-field copy.
    pub fn duplicate(&self) -> (r: ActorQuery)
        ensures
            same_query(r, *self),
    {
        match self {
            ActorQuery::GetForId { get_for_id } => ActorQuery::GetForId {
                get_for_id: GetForIdRequest { actor_id: get_for_id.actor_id.clone() },
            },
            ActorQuery::GetForKey { get_for_key } => ActorQuery::GetForKey {
                get_for_key: GetForKeyRequest {
                    name: get_for_key.name.clone(),
                    key: clone_strings(&get_for_key.key),
                },
            },
            ActorQuery::GetOrCreateForKey { get_or_create_for_key: q } => {
                ActorQuery::GetOrCreateForKey {
                    get_or_create_for_key: GetOrCreateRequest {
                        name: q.name.clone(),
                        key: clone_strings(&q.key),
                        input: clone_opt_value(&q.input),
                        region: clone_opt_string(&q.region),
                    },
                }
            },
            ActorQuery::Create { create: q } => ActorQuery::Create {
                create: CreateRequest {
                    name: q.name.clone(),
                    key: clone_strings(&q.key),
                    input: clone_opt_value(&q.input),
                    region: clone_opt_string(&q.region),
                },
            },
        }
    }
}

} // verus!
