//! The client façade: it mints handles for the four ways of selecting an
//! actor. A handle bundles the stateless actions of its query with what a
//! persistent connection to the actor is opened with.

use vstd::prelude::*;

use crate::common::{EncodingKind, TransportKind};
use crate::drivers::DriverConnectArgs;
use crate::protocol::json::clone_opt_value;
use crate::protocol::query::{
    same_query, ActorKey, ActorQuery, CreateRequest, GetForIdRequest, GetForKeyRequest,
    GetOrCreateRequest,
};
use crate::requests::ActorHandleStateless;

verus! {

pub struct GetWithIdOptions {
    pub params: Option<serde_json::Value>,
}

pub struct GetOptions {
    pub params: Option<serde_json::Value>,
}

pub struct GetOrCreateOptions {
    pub params: Option<serde_json::Value>,
    pub create_in_region: Option<String>,
    pub create_with_input: Option<serde_json::Value>,
}

pub struct CreateOptions {
    pub params: Option<serde_json::Value>,
    pub region: Option<String>,
    pub input: Option<serde_json::Value>,
}

impl Default for GetWithIdOptions {
    fn default() -> (r: Self)
        ensures
            r.params is None,
    {
        GetWithIdOptions { params: None }
    }
}

impl Default for GetOptions {
    fn default() -> (r: Self)
        ensures
            r.params is None,
    {
        GetOptions { params: None }
    }
}

impl Default for GetOrCreateOptions {
    fn default() -> (r: Self)
        ensures
            r.params is None,
            r.create_in_region is None,
            r.create_with_input is None,
    {
        GetOrCreateOptions { params: None, create_in_region: None, create_with_input: None }
    }
}

impl Default for CreateOptions {
    fn default() -> (r: Self)
        ensures
            r.params is None,
            r.region is None,
            r.input is None,
    {
        CreateOptions { params: None, region: None, input: None }
    }
}

/// A query, its endpoint and parameters. Only `connect` opens a connection.
pub struct ActorHandle {
    handle: ActorHandleStateless,
    endpoint: String,
    params: Option<serde_json::Value>,
    query: ActorQuery,
    transport_kind: TransportKind,
    encoding_kind: EncodingKind,
}

impl ActorHandle {
    pub closed spec fn spec_endpoint(&self) -> Seq<char> {
        self.endpoint@
    }

    pub closed spec fn spec_params(&self) -> Option<serde_json::Value> {
        self.params
    }

    pub closed spec fn spec_query(&self) -> ActorQuery {
        self.query
    }

    pub closed spec fn spec_transport(&self) -> TransportKind {
        self.transport_kind
    }

    pub closed spec fn spec_encoding(&self) -> EncodingKind {
        self.encoding_kind
    }

    pub closed spec fn spec_stateless(&self) -> ActorHandleStateless {
        self.handle
    }

    /// The stateless part shares the endpoint, parameters, encoding and query.
    pub open spec fn handle_wf(&self) -> bool {
        &&& self.spec_stateless().spec_endpoint() == self.spec_endpoint()
        &&& self.spec_stateless().spec_params() == self.spec_params()
        &&& self.spec_stateless().spec_encoding() == self.spec_encoding()
        &&& same_query(self.spec_stateless().spec_query(), self.spec_query())
    }

    pub fn new(
        endpoint: &str,
        params: Option<serde_json::Value>,
        query: ActorQuery,
        transport_kind: TransportKind,
        encoding_kind: EncodingKind,
    ) -> (r: Self)
        ensures
            r.handle_wf(),
            r.spec_endpoint() == endpoint@,
            r.spec_params() == params,
            r.spec_query() == query,
            r.spec_transport() == transport_kind,
            r.spec_encoding() == encoding_kind,
    {
        let handle = ActorHandleStateless::new(
            endpoint,
            clone_opt_value(&params),
            encoding_kind,
            query.duplicate(),
        );
        ActorHandle {
            handle,
            endpoint: String::from_str(endpoint),
            params,
            query,
            transport_kind,
            encoding_kind,
        }
    }

    /// The stateless actions of this handle.
    pub fn stateless(&self) -> (r: &ActorHandleStateless)
        ensures
            *r == self.spec_stateless(),
    {
        &self.handle
    }

    pub fn stateless_mut(&mut self) -> (r: &mut ActorHandleStateless)
        ensures
            *r == old(self).spec_stateless(),
            final(self).spec_stateless() == *final(r),
            final(self).spec_endpoint() == old(self).spec_endpoint(),
            final(self).spec_params() == old(self).spec_params(),
            final(self).spec_query() == old(self).spec_query(),
            final(self).spec_transport() == old(self).spec_transport(),
            final(self).spec_encoding() == old(self).spec_encoding(),
    {
        &mut self.handle
    }

    pub fn transport_kind(&self) -> (r: TransportKind)
        ensures
            r == self.spec_transport(),
    {
        self.transport_kind
    }

    /// What a connection to this actor opens its drivers with.
    pub fn connect_args(&self) -> (r: DriverConnectArgs)
        ensures
            r.endpoint@ == self.spec_endpoint(),
            r.encoding_kind == self.spec_encoding(),
            same_query(r.query, self.spec_query()),
            r.parameters == self.spec_params(),
    {
        DriverConnectArgs {
            endpoint: self.endpoint.clone(),
            encoding_kind: self.encoding_kind,
            query: self.query.duplicate(),
            parameters: clone_opt_value(&self.params),
        }
    }
}

/// Mints handles that share an endpoint, a transport and an encoding.
pub struct Client {
    manager_endpoint: String,
    encoding_kind: EncodingKind,
    transport_kind: TransportKind,
}

impl Client {
    pub closed spec fn spec_endpoint(&self) -> Seq<char> {
        self.manager_endpoint@
    }

    pub closed spec fn spec_transport(&self) -> TransportKind {
        self.transport_kind
    }

    pub closed spec fn spec_encoding(&self) -> EncodingKind {
        self.encoding_kind
    }

    /// A handle of this client: its endpoint, transport and encoding.
    pub open spec fn minted(&self, h: ActorHandle, params: Option<serde_json::Value>, q: ActorQuery) -> bool {
        &&& h.handle_wf()
        &&& h.spec_endpoint() == self.spec_endpoint()
        &&& h.spec_transport() == self.spec_transport()
        &&& h.spec_encoding() == self.spec_encoding()
        &&& h.spec_params() == params
        &&& h.spec_query() == q
    }

    pub fn new(manager_endpoint: &str, transport_kind: TransportKind, encoding_kind: EncodingKind) -> (r:
        Self)
        ensures
            r.spec_endpoint() == manager_endpoint@,
            r.spec_transport() == transport_kind,
            r.spec_encoding() == encoding_kind,
    {
        Client { manager_endpoint: String::from_str(manager_endpoint), encoding_kind, transport_kind }
    }

    pub fn endpoint(&self) -> (r: &str)
        ensures
            r@ == self.spec_endpoint(),
    {
        self.manager_endpoint.as_str()
    }

    pub fn encoding_kind(&self) -> (r: EncodingKind)
        ensures
            r == self.spec_encoding(),
    {
        self.encoding_kind
    }

    fn create_handle(&self, params: Option<serde_json::Value>, query: ActorQuery) -> (r: ActorHandle)
        ensures
            self.minted(r, params, query),
    {
        ActorHandle::new(
            self.manager_endpoint.as_str(),
            params,
            query,
            self.transport_kind,
            self.encoding_kind,
        )
    }

    /// A handle on the actor with this name and key.
    pub fn get(&self, name: &str, key: ActorKey, opts: GetOptions) -> (r: ActorHandle)
        ensures
            self.minted(
                r,
                opts.params,
                ActorQuery::GetForKey { get_for_key: GetForKeyRequest { name: r.spec_query()->get_for_key.name, key } },
            ),
            r.spec_query()->get_for_key.name@ == name@,
    {
        let query = ActorQuery::GetForKey {
            get_for_key: GetForKeyRequest { name: String::from_str(name), key },
        };
        self.create_handle(opts.params, query)
    }

    /// A handle on the actor with this id.
    pub fn get_for_id(&self, actor_id: &str, opts: GetOptions) -> (r: ActorHandle)
        ensures
            self.minted(
                r,
                opts.params,
                ActorQuery::GetForId { get_for_id: GetForIdRequest { actor_id: r.spec_query()->get_for_id.actor_id } },
            ),
            r.spec_query()->get_for_id.actor_id@ == actor_id@,
    {
        let query = ActorQuery::GetForId {
            get_for_id: GetForIdRequest { actor_id: String::from_str(actor_id) },
        };
        self.create_handle(opts.params, query)
    }

    /// A handle on the actor with this name and key, created on first use
    /// with the input and in the region of the options.
    pub fn get_or_create(&self, name: &str, key: ActorKey, opts: GetOrCreateOptions) -> (r: ActorHandle)
        ensures
            self.minted(
                r,
                opts.params,
                ActorQuery::GetOrCreateForKey {
                    get_or_create_for_key: GetOrCreateRequest {
                        name: r.spec_query()->get_or_create_for_key.name,
                        key,
                        input: opts.create_with_input,
                        region: opts.create_in_region,
                    },
                },
            ),
            r.spec_query()->get_or_create_for_key.name@ == name@,
    {
        let query = ActorQuery::GetOrCreateForKey {
            get_or_create_for_key: GetOrCreateRequest {
                name: String::from_str(name),
                key,
                input: opts.create_with_input,
                region: opts.create_in_region,
            },
        };
        self.create_handle(opts.params, query)
    }

    /// The query that `create` resolves: a new actor with this name and key.
    pub fn create_query(&self, name: &str, key: ActorKey, opts: &CreateOptions) -> (r: ActorQuery)
        ensures
            r matches ActorQuery::Create { create } && create.name@ == name@ && create.key == key
                && create.input == opts.input && create.region == opts.region,
    {
        ActorQuery::Create {
            create: CreateRequest {
                name: String::from_str(name),
                key,
                input: clone_opt_value(&opts.input),
                region: crate::protocol::json::clone_opt_string(&opts.region),
            },
        }
    }

    /// The handle `create` returns once the manager gave the new actor's id:
    /// it selects the actor by that id, so reconnects never create again.
    pub fn created(&self, actor_id: String, opts: CreateOptions) -> (r: ActorHandle)
        ensures
            self.minted(r, opts.params, ActorQuery::GetForId { get_for_id: GetForIdRequest { actor_id } }),
    {
        self.create_handle(opts.params, ActorQuery::for_id(actor_id))
    }
}

} // verus!
