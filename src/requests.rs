//! Requests to the manager HTTP API: the resolver, which turns a query into
//! an actor id, and the stateless handle, which runs one action per request.
//! Bodies and queries travel as JSON text serialized by the caller.

use vstd::prelude::*;

use crate::common::{
    encoding_name, header, join, url_encode, url_encoded, EncodingKind, HttpRequest,
    HEADER_ACTOR_QUERY, HEADER_CONN_PARAMS, HEADER_ENCODING, USER_AGENT_VALUE,
};
use crate::drivers::header_view_eq;
use crate::protocol::json::clone_opt_value;
use crate::protocol::query::{same_query, ActorQuery, GetForIdRequest};

verus! {

/// Why a request could not be made or failed.
#[derive(Debug, Clone, Copy, PartialEq, Eq, Structural)]
pub enum RequestError {
    /// A POST or PUT without a body.
    MissingBody,
    /// The server answered with a status outside 200..=299.
    Status { code: u16 },
}

/// The content type of a body in `encoding`.
pub open spec fn content_type_spec(encoding: EncodingKind) -> Seq<char> {
    match encoding {
        EncodingKind::Json => "application/json"@,
        EncodingKind::Cbor => "application/octet-stream"@,
    }
}

pub fn content_type(encoding: EncodingKind) -> (r: &'static str)
    ensures
        r@ == content_type_spec(encoding),
{
    match encoding {
        EncodingKind::Json => {
            proof {
                reveal_strlit("application/json");
            }
            "application/json"
        },
        EncodingKind::Cbor => {
            proof {
                reveal_strlit("application/octet-stream");
            }
            "application/octet-stream"
        },
    }
}

/// Whether the method carries a body.
pub open spec fn needs_body(method: Seq<char>) -> bool {
    method == "POST"@ || method == "PUT"@
}

fn str_eq(a: &str, b: &str) -> (r: bool)
    ensures
        r == (a@ == b@),
{
    String::from_str(a) == String::from_str(b)
}

/// The headers of a request: those given, in order, then the content type
/// where the method carries a body, then the user agent.
pub open spec fn request_headers_ok(
    method: Seq<char>,
    given: Seq<(String, String)>,
    all: Seq<(String, String)>,
    encoding: EncodingKind,
) -> bool {
    &&& all.len() == given.len() + (if needs_body(method) { 2int } else { 1int })
    &&& all.take(given.len() as int) == given
    &&& needs_body(method) ==> header_view_eq(all[given.len() as int], "Content-Type"@, content_type_spec(encoding))
    &&& header_view_eq(all.last(), "User-Agent"@, USER_AGENT_VALUE@)
}

fn assemble(method: &str, url: &str, headers: Vec<(String, String)>, encoding: EncodingKind) -> (r:
    HttpRequest)
    ensures
        r.method@ == method@,
        r.url@ == url@,
        request_headers_ok(method@, headers@, r.headers@, encoding),
{
    proof {
        reveal_strlit("POST");
        reveal_strlit("PUT");
    }
    let with_body = str_eq(method, "POST") || str_eq(method, "PUT");
    let ghost given = headers@;
    let mut headers = headers;
    if with_body {
        headers.push(header("Content-Type", content_type(encoding)));
    }
    headers.push(header("User-Agent", USER_AGENT_VALUE));
    proof {
        assert(headers@.take(given.len() as int) =~= given);
    }
    HttpRequest { method: String::from_str(method), url: String::from_str(url), headers }
}

/// A request with its headers in order, then the content type where the
/// method carries a body, then the user agent. A POST or PUT without a body
/// is refused.
pub fn build_http_request(
    method: &str,
    url: &str,
    headers: Vec<(String, String)>,
    has_body: bool,
    encoding: EncodingKind,
) -> (r: Result<HttpRequest, RequestError>)
    ensures
        needs_body(method@) && !has_body <==> r is Err,
        r is Err ==> r == Err::<HttpRequest, RequestError>(RequestError::MissingBody),
        r matches Ok(req) ==> req.method@ == method@ && req.url@ == url@ && request_headers_ok(
            method@,
            headers@,
            req.headers@,
            encoding,
        ),
{
    proof {
        reveal_strlit("POST");
        reveal_strlit("PUT");
    }
    if (str_eq(method, "POST") || str_eq(method, "PUT")) && !has_body {
        return Err(RequestError::MissingBody);
    }
    Ok(assemble(method, url, headers, encoding))
}

/// Statuses 200 to 299 succeed.
pub fn check_status(code: u16) -> (r: Result<(), RequestError>)
    ensures
        r is Ok <==> 200 <= code <= 299,
        r is Err ==> r == Err::<(), RequestError>(RequestError::Status { code }),
{
    if 200 <= code && code <= 299 {
        Ok(())
    } else {
        Err(RequestError::Status { code })
    }
}

/// `POST <endpoint>/actors/resolve` with the encoding and the query, as JSON,
/// in headers; its body is `{}`.
pub fn resolve_request(manager_endpoint: &str, encoding: EncodingKind, query_json: &str) -> (r:
    HttpRequest)
    ensures
        r.method@ == "POST"@,
        r.url@ == manager_endpoint@ + "/actors/resolve"@,
        r.headers@.len() == 4,
        header_view_eq(r.headers@[0], HEADER_ENCODING@, encoding_name(encoding)),
        header_view_eq(r.headers@[1], HEADER_ACTOR_QUERY@, query_json@),
        header_view_eq(r.headers@[2], "Content-Type"@, content_type_spec(encoding)),
        header_view_eq(r.headers@[3], "User-Agent"@, USER_AGENT_VALUE@),
{
    proof {
        reveal_strlit("POST");
    }
    let mut headers: Vec<(String, String)> = Vec::new();
    headers.push(header(HEADER_ENCODING, encoding.as_str()));
    headers.push(header(HEADER_ACTOR_QUERY, query_json));
    let url = join(manager_endpoint, "/actors/resolve");
    let req = assemble("POST", url.as_str(), headers, encoding);
    proof {
        assert(req.headers@[0] == req.headers@.take(2)[0]);
        assert(req.headers@[1] == req.headers@.take(2)[1]);
    }
    req
}

/// `<endpoint>/actors/actions/<percent-encoded name>`.
pub open spec fn action_url_spec(endpoint: Seq<char>, name: Seq<char>) -> Seq<char> {
    endpoint + "/actors/actions/"@ + url_encoded(name)
}

/// Runs one action without a connection: `POST` to the action's address, with
/// the encoding, the query and, when given, the connection parameters as
/// JSON in headers; the body is `{a: args}`.
pub fn action_request(
    endpoint: &str,
    encoding: EncodingKind,
    query_json: &str,
    params_json: Option<&str>,
    name: &str,
) -> (r: HttpRequest)
    ensures
        r.method@ == "POST"@,
        r.url@ == action_url_spec(endpoint@, name@),
        r.headers@.len() == (if params_json is Some { 5int } else { 4int }),
        header_view_eq(r.headers@[0], HEADER_ENCODING@, encoding_name(encoding)),
        header_view_eq(r.headers@[1], HEADER_ACTOR_QUERY@, query_json@),
        params_json matches Some(p) ==> header_view_eq(r.headers@[2], HEADER_CONN_PARAMS@, p@),
        header_view_eq(r.headers@[r.headers@.len() - 2], "Content-Type"@, content_type_spec(encoding)),
        header_view_eq(r.headers@.last(), "User-Agent"@, USER_AGENT_VALUE@),
{
    proof {
        reveal_strlit("POST");
    }
    let mut headers: Vec<(String, String)> = Vec::new();
    headers.push(header(HEADER_ENCODING, encoding.as_str()));
    headers.push(header(HEADER_ACTOR_QUERY, query_json));
    if let Some(p) = params_json {
        headers.push(header(HEADER_CONN_PARAMS, p));
    }
    let ghost given = headers@;
    let base = join(endpoint, "/actors/actions/");
    let encoded = url_encode(name);
    let url = join(base.as_str(), encoded.as_str());
    let req = assemble("POST", url.as_str(), headers, encoding);
    proof {
        assert(req.headers@[0] == req.headers@.take(given.len() as int)[0]);
        assert(req.headers@[1] == req.headers@.take(given.len() as int)[1]);
        if params_json is Some {
            assert(req.headers@[2] == req.headers@.take(given.len() as int)[2]);
        }
    }
    req
}

/// What `resolve` does with the current query.
#[derive(Debug, Clone)]
pub enum ResolveStep {
    /// The query already names the actor.
    Known { actor_id: String },
    /// A create query cannot be resolved without creating a new actor.
    Refused,
    /// Ask the manager with this query.
    Ask { query: ActorQuery },
}

/// Actions over HTTP on the actor a query selects; no connection state.
#[derive(Debug, Clone)]
pub struct ActorHandleStateless {
    endpoint: String,
    params: Option<serde_json::Value>,
    encoding_kind: EncodingKind,
    query: ActorQuery,
}

impl ActorHandleStateless {
    pub closed spec fn spec_endpoint(&self) -> Seq<char> {
        self.endpoint@
    }

    pub closed spec fn spec_params(&self) -> Option<serde_json::Value> {
        self.params
    }

    pub closed spec fn spec_encoding(&self) -> EncodingKind {
        self.encoding_kind
    }

    pub closed spec fn spec_query(&self) -> ActorQuery {
        self.query
    }

    pub fn new(
        endpoint: &str,
        params: Option<serde_json::Value>,
        encoding_kind: EncodingKind,
        query: ActorQuery,
    ) -> (r: Self)
        ensures
            r.spec_endpoint() == endpoint@,
            r.spec_params() == params,
            r.spec_encoding() == encoding_kind,
            r.spec_query() == query,
    {
        ActorHandleStateless { endpoint: String::from_str(endpoint), params, encoding_kind, query }
    }

    pub fn endpoint(&self) -> (r: &str)
        ensures
            r@ == self.spec_endpoint(),
    {
        self.endpoint.as_str()
    }

    pub fn params(&self) -> (r: &Option<serde_json::Value>)
        ensures
            *r == self.spec_params(),
    {
        &self.params
    }

    pub fn encoding_kind(&self) -> (r: EncodingKind)
        ensures
            r == self.spec_encoding(),
    {
        self.encoding_kind
    }

    /// The query that selects the actor now.
    pub fn query(&self) -> (r: &ActorQuery)
        ensures
            *r == self.spec_query(),
    {
        &self.query
    }

    /// The request for action `name`, given the query and parameters as JSON.
    pub fn action_request(&self, name: &str, query_json: &str, params_json: Option<&str>) -> (r:
        HttpRequest)
        ensures
            r.method@ == "POST"@,
            r.url@ == action_url_spec(self.spec_endpoint(), name@),
            r.headers@.len() == (if params_json is Some { 5int } else { 4int }),
            header_view_eq(r.headers@[0], HEADER_ENCODING@, encoding_name(self.spec_encoding())),
            header_view_eq(r.headers@[1], HEADER_ACTOR_QUERY@, query_json@),
            params_json matches Some(p) ==> header_view_eq(r.headers@[2], HEADER_CONN_PARAMS@, p@),
    {
        action_request(self.endpoint.as_str(), self.encoding_kind, query_json, params_json, name)
    }

    /// Where `resolve` starts: an id query answers at once, a create query is
    /// refused, any other is asked of the manager.
    pub fn resolve_step(&self) -> (r: ResolveStep)
        ensures
            match self.spec_query() {
                ActorQuery::GetForId { get_for_id } => r matches ResolveStep::Known { actor_id }
                    && actor_id == get_for_id.actor_id,
                ActorQuery::Create { .. } => r is Refused,
                _ => r matches ResolveStep::Ask { query } && same_query(query, self.spec_query()),
            },
    {
        match &self.query {
            ActorQuery::GetForId { get_for_id } => ResolveStep::Known {
                actor_id: get_for_id.actor_id.clone(),
            },
            ActorQuery::Create { .. } => ResolveStep::Refused,
            _ => ResolveStep::Ask { query: self.query.duplicate() },
        }
    }

    /// The manager resolved the query: later actions pin to that actor.
    pub fn resolved(&mut self, actor_id: String)
        ensures
            final(self).spec_query() == (ActorQuery::GetForId {
                get_for_id: GetForIdRequest { actor_id },
            }),
            final(self).spec_endpoint() == old(self).spec_endpoint(),
            final(self).spec_params() == old(self).spec_params(),
            final(self).spec_encoding() == old(self).spec_encoding(),
    {
        self.query = ActorQuery::for_id(actor_id);
    }

    /// A copy with the same fields.
    pub fn duplicate(&self) -> (r: Self)
        ensures
            r.spec_endpoint() == self.spec_endpoint(),
            r.spec_params() == self.spec_params(),
            r.spec_encoding() == self.spec_encoding(),
            same_query(r.spec_query(), self.spec_query()),
    {
        ActorHandleStateless {
            endpoint: self.endpoint.clone(),
            params: clone_opt_value(&self.params),
            encoding_kind: self.encoding_kind,
            query: self.query.duplicate(),
        }
    }
}

} // verus!
