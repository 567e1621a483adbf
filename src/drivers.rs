//! Transport drivers: what each of them decides on every event of its socket
//! or stream, the addresses and headers they connect with, and the reason a
//! driver stopped.

use vstd::prelude::*;
use vstd::string::StringSliceAdditionalSpecFns;
use vstd::utf8::encode_utf8;

use crate::common::{
    encoding_name, has_prefix, header, join, url_encode, url_encoded,
    EncodingKind, HttpRequest, HEADER_ACTOR_ID, HEADER_ACTOR_QUERY, HEADER_CONN_ID,
    HEADER_CONN_PARAMS, HEADER_CONN_TOKEN, HEADER_ENCODING, USER_AGENT_VALUE,
};
use crate::protocol::query::ActorQuery;
use crate::protocol::to_client::{ToClient, ToClientBody};

verus! {

/// What a driver connects with.
pub struct DriverConnectArgs {
    pub endpoint: String,
    pub encoding_kind: EncodingKind,
    pub query: ActorQuery,
    pub parameters: Option<serde_json::Value>,
}

/// Why a driver stopped.
#[derive(Debug, Clone, Copy, PartialEq, Eq, Structural)]
pub enum DriverStopReason {
    UserAborted,
    ServerDisconnect,
    ServerError,
    TaskError,
}

/// How the task that ran a driver ended.
#[derive(Debug, Clone, Copy, PartialEq, Eq, Structural)]
pub enum TaskEnd {
    Finished { reason: DriverStopReason },
    Cancelled,
    Failed,
}

/// The stop reason of a driver task: its own, `UserAborted` when it was
/// cancelled, `TaskError` when it failed.
pub fn stop_reason(end: TaskEnd) -> (r: DriverStopReason)
    ensures
        r == match end {
            TaskEnd::Finished { reason } => reason,
            TaskEnd::Cancelled => DriverStopReason::UserAborted,
            TaskEnd::Failed => DriverStopReason::TaskError,
        },
{
    match end {
        TaskEnd::Finished { reason } => reason,
        TaskEnd::Cancelled => DriverStopReason::UserAborted,
        TaskEnd::Failed => DriverStopReason::TaskError,
    }
}

/// One connection attempt: whether Init was seen, and how it ended.
#[derive(Debug, Clone, Copy, PartialEq, Eq, Structural)]
pub struct ConnectionAttempt {
    pub did_open: bool,
    pub task_end_reason: DriverStopReason,
}

impl ConnectionAttempt {
    /// The driver could not be connected at all.
    pub fn failed() -> (r: ConnectionAttempt)
        ensures
            r == (ConnectionAttempt { did_open: false, task_end_reason: DriverStopReason::TaskError }),
    {
        ConnectionAttempt { did_open: false, task_end_reason: DriverStopReason::TaskError }
    }

    /// A running attempt, before any frame.
    pub fn started() -> (r: ConnectionAttempt)
        ensures
            r == (ConnectionAttempt { did_open: false, task_end_reason: DriverStopReason::UserAborted }),
    {
        ConnectionAttempt { did_open: false, task_end_reason: DriverStopReason::UserAborted }
    }

    /// A frame arrived; Init opens the connection.
    pub fn record(&mut self, msg: &ToClient)
        ensures
            final(self).did_open == (old(self).did_open || msg.b is Init),
            final(self).task_end_reason == old(self).task_end_reason,
    {
        if msg.is_init() {
            self.did_open = true;
        }
    }

    /// The driver ended with `reason`.
    pub fn end(&mut self, reason: DriverStopReason)
        ensures
            final(self).did_open == old(self).did_open,
            final(self).task_end_reason == reason,
    {
        self.task_end_reason = reason;
    }
}

/// What a driver does with one event.
#[derive(Debug, Clone, PartialEq, Eq)]
pub enum DriverStep {
    /// Decode these bytes in the connection's encoding and pass the frame on;
    /// a frame that does not decode is skipped.
    Decode { payload: Vec<u8> },
    /// Nothing to do.
    Continue,
    /// The driver stops.
    Stop { reason: DriverStopReason },
}

/// How a frame goes out on the socket.
#[derive(Debug, Clone, Copy, PartialEq, Eq, Structural)]
pub enum WsMessageKind {
    Text,
    Binary,
}

/// JSON goes out as text, CBOR as binary.
pub fn ws_outbound_kind(encoding: EncodingKind) -> (r: WsMessageKind)
    ensures
        r == (match encoding {
            EncodingKind::Json => WsMessageKind::Text,
            EncodingKind::Cbor => WsMessageKind::Binary,
        }),
{
    match encoding {
        EncodingKind::Json => WsMessageKind::Text,
        EncodingKind::Cbor => WsMessageKind::Binary,
    }
}

/// An event of the WebSocket driver.
#[derive(Debug, Clone, PartialEq, Eq)]
pub enum WsEvent {
    /// The connection dropped its side of the outbound channel.
    OutboundClosed,
    Text { text: String },
    Binary { data: Vec<u8> },
    Close,
    /// Ping, pong or another frame without a payload for the protocol.
    Control,
    SocketError,
    /// The socket's stream ended.
    StreamEnded,
    /// A decoded frame could not be handed to the connection.
    DeliveryFailed,
}

/// The bytes of `s` in UTF-8.
pub fn utf8_bytes(s: &str) -> (r: Vec<u8>)
    ensures
        r@ == s.spec_bytes(),
{
    s.as_bytes_vec()
}

/// What the WebSocket driver does on `event`. Text and binary messages are
/// decoded in either encoding: text by its UTF-8 bytes.
pub fn ws_step(event: WsEvent) -> (r: DriverStep)
    ensures
        r == (match event {
            WsEvent::Text { text } => DriverStep::Decode { payload: r->Decode_payload },
            WsEvent::Binary { data } => DriverStep::Decode { payload: data },
            WsEvent::Close | WsEvent::StreamEnded => DriverStep::Stop {
                reason: DriverStopReason::ServerDisconnect,
            },
            WsEvent::SocketError => DriverStep::Stop { reason: DriverStopReason::ServerError },
            WsEvent::OutboundClosed | WsEvent::DeliveryFailed => DriverStep::Stop {
                reason: DriverStopReason::UserAborted,
            },
            WsEvent::Control => DriverStep::Continue,
        }),
        event matches WsEvent::Text { text } ==> r->Decode_payload@ == encode_utf8(text@),
{
    match event {
        WsEvent::Text { text } => DriverStep::Decode { payload: utf8_bytes(text.as_str()) },
        WsEvent::Binary { data } => DriverStep::Decode { payload: data },
        WsEvent::Close | WsEvent::StreamEnded => DriverStep::Stop {
            reason: DriverStopReason::ServerDisconnect,
        },
        WsEvent::SocketError => DriverStep::Stop { reason: DriverStopReason::ServerError },
        WsEvent::OutboundClosed | WsEvent::DeliveryFailed => DriverStep::Stop {
            reason: DriverStopReason::UserAborted,
        },
        WsEvent::Control => DriverStep::Continue,
    }
}

/// The endpoint with its leading `http://` turned into `ws://`, or its
/// leading `https://` into `wss://`; any other endpoint is kept as it is.
pub open spec fn ws_endpoint(endpoint: Seq<char>) -> Seq<char> {
    if endpoint.len() >= 7 && endpoint.take(7) == "http://"@ {
        "ws://"@ + endpoint.skip(7)
    } else if endpoint.len() >= 8 && endpoint.take(8) == "https://"@ {
        "wss://"@ + endpoint.skip(8)
    } else {
        endpoint
    }
}

pub fn leading_ws_scheme(endpoint: &str) -> (r: String)
    ensures
        r@ == ws_endpoint(endpoint@),
{
    proof {
        reveal_strlit("http://");
        reveal_strlit("https://");
    }
    let n = endpoint.unicode_len();
    if has_prefix(endpoint, "http://") {
        join("ws://", endpoint.substring_char(7, n))
    } else if has_prefix(endpoint, "https://") {
        join("wss://", endpoint.substring_char(8, n))
    } else {
        String::from_str(endpoint)
    }
}

/// `<ws endpoint>/actors/connect/websocket?encoding=<enc>&query=<encoded query>`.
pub open spec fn ws_connection_url_spec(endpoint: Seq<char>, encoding: EncodingKind, query_json: Seq<char>) -> Seq<char> {
    ws_endpoint(endpoint) + "/actors/connect/websocket?encoding="@ + encoding_name(encoding) + "&query="@
        + url_encoded(query_json)
}

/// The WebSocket address of the actor selected by the query, given as JSON.
pub fn ws_connection_url(endpoint: &str, encoding: EncodingKind, query_json: &str) -> (r: String)
    ensures
        r@ == ws_connection_url_spec(endpoint@, encoding, query_json@),
{
    let b = leading_ws_scheme(endpoint);
    let c = join(b.as_str(), "/actors/connect/websocket?encoding=");
    let d = join(c.as_str(), encoding.as_str());
    let e = join(d.as_str(), "&query=");
    let q = url_encode(query_json);
    join(e.as_str(), q.as_str())
}

/// `<endpoint>/actors/connect/sse`.
pub fn sse_connection_url(endpoint: &str) -> (r: String)
    ensures
        r@ == endpoint@ + "/actors/connect/sse"@,
{
    join(endpoint, "/actors/connect/sse")
}

/// The headers of the event stream: user agent, encoding, query and, when
/// there are any, the connection parameters, all as JSON text.
pub fn sse_stream_headers(encoding: EncodingKind, query_json: &str, params_json: Option<&str>) -> (r:
    Vec<(String, String)>)
    ensures
        r@.len() == (if params_json is Some { 4int } else { 3int }),
        header_view_eq(r@[0], "User-Agent"@, USER_AGENT_VALUE@),
        header_view_eq(r@[1], HEADER_ENCODING@, encoding_name(encoding)),
        header_view_eq(r@[2], HEADER_ACTOR_QUERY@, query_json@),
        params_json matches Some(p) ==> header_view_eq(r@[3], HEADER_CONN_PARAMS@, p@),
{
    let mut r: Vec<(String, String)> = Vec::new();
    r.push(header("User-Agent", USER_AGENT_VALUE));
    r.push(header(HEADER_ENCODING, encoding.as_str()));
    r.push(header(HEADER_ACTOR_QUERY, query_json));
    if let Some(p) = params_json {
        r.push(header(HEADER_CONN_PARAMS, p));
    }
    r
}

/// `h` is the header `name: value`.
pub open spec fn header_view_eq(h: (String, String), name: Seq<char>, value: Seq<char>) -> bool {
    h.0@ == name && h.1@ == value
}

/// The decoding of a base64 text.
pub uninterp spec fn base64_decoded(s: Seq<char>) -> Option<Seq<u8>>;

/// Relies on base64's `STANDARD` engine: `decode` of the text's bytes, with
/// padding, failing on any other text.
#[verifier::external_body]
fn decode_base64(data: &str) -> (r: Result<Vec<u8>, base64::DecodeError>)
    ensures
        match r {
            Ok(v) => base64_decoded(data@) == Some(v@),
            Err(_) => base64_decoded(data@) is None,
        },
{
    base64::Engine::decode(&base64::engine::general_purpose::STANDARD, data.as_bytes())
}

/// Declared so that base64's decode error can be returned and matched.
#[verifier::external_type_specification]
#[verifier::external_body]
pub struct ExDecodeError(base64::DecodeError);

/// The bytes to decode from the data field of an event: the text itself for
/// JSON, its base64 decoding for CBOR (`None` when that fails).
pub open spec fn sse_payload_spec(encoding: EncodingKind, data: Seq<char>) -> Option<Seq<u8>> {
    match encoding {
        EncodingKind::Json => Some(encode_utf8(data)),
        EncodingKind::Cbor => base64_decoded(data),
    }
}

pub fn sse_payload(encoding: EncodingKind, data: &str) -> (r: Option<Vec<u8>>)
    ensures
        match r {
            Some(v) => sse_payload_spec(encoding, data@) == Some(v@),
            None => sse_payload_spec(encoding, data@) is None,
        },
{
    match encoding {
        EncodingKind::Json => Some(utf8_bytes(data)),
        EncodingKind::Cbor => match decode_base64(data) {
            Ok(v) => Some(v),
            Err(_) => None,
        },
    }
}

/// An event of the SSE driver.
#[derive(Debug, Clone, PartialEq, Eq)]
pub enum SseEvent {
    /// The connection dropped its side of the outbound channel.
    OutboundClosed,
    Comment,
    /// The stream reports that it connected.
    Connected,
    /// A message event with its data field.
    Message { data: String },
    StreamError,
    StreamEnded,
    /// A decoded frame could not be handed to the connection.
    DeliveryFailed,
}

/// What the SSE driver does on `event`.
pub fn sse_step(encoding: EncodingKind, event: &SseEvent) -> (r: DriverStep)
    ensures
        r == (match event {
            SseEvent::Message { data } => match sse_payload_spec(encoding, data@) {
                Some(p) => DriverStep::Decode { payload: r->Decode_payload },
                None => DriverStep::Continue,
            },
            SseEvent::Comment | SseEvent::Connected => DriverStep::Continue,
            SseEvent::StreamError => DriverStep::Stop { reason: DriverStopReason::ServerError },
            SseEvent::StreamEnded => DriverStep::Stop { reason: DriverStopReason::ServerDisconnect },
            SseEvent::OutboundClosed | SseEvent::DeliveryFailed => DriverStep::Stop {
                reason: DriverStopReason::UserAborted,
            },
        }),
        r matches DriverStep::Decode { payload } ==> event matches SseEvent::Message { data }
            && sse_payload_spec(encoding, data@) == Some(payload@),
{
    match event {
        SseEvent::Message { data } => match sse_payload(encoding, data.as_str()) {
            Some(payload) => DriverStep::Decode { payload },
            None => DriverStep::Continue,
        },
        SseEvent::Comment | SseEvent::Connected => DriverStep::Continue,
        SseEvent::StreamError => DriverStep::Stop { reason: DriverStopReason::ServerError },
        SseEvent::StreamEnded => DriverStep::Stop { reason: DriverStopReason::ServerDisconnect },
        SseEvent::OutboundClosed | SseEvent::DeliveryFailed => DriverStep::Stop {
            reason: DriverStopReason::UserAborted,
        },
    }
}

/// What the server's Init gave the SSE driver, for its sends.
#[derive(Debug, Clone, PartialEq, Eq)]
pub struct ConnectionDetails {
    pub actor_id: String,
    pub id: String,
    pub token: String,
}

/// The SSE driver before and after its handshake.
#[derive(Debug, Clone, PartialEq, Eq)]
pub enum SseHandshake {
    /// No Init yet; nothing can be sent.
    Waiting,
    Done { details: ConnectionDetails },
}

impl SseHandshake {
    /// A decoded frame passed on: the first Init completes the handshake.
    pub fn on_frame(self, msg: &ToClient) -> (r: SseHandshake)
        ensures
            r == (match (self, msg.b) {
                (SseHandshake::Waiting, ToClientBody::Init { i }) => SseHandshake::Done {
                    details: ConnectionDetails { actor_id: i.ai, id: i.ci, token: i.ct },
                },
                _ => self,
            }),
    {
        match self {
            SseHandshake::Waiting => match &msg.b {
                ToClientBody::Init { i } => SseHandshake::Done {
                    details: ConnectionDetails {
                        actor_id: i.ai.clone(),
                        id: i.ci.clone(),
                        token: i.ct.clone(),
                    },
                },
                _ => SseHandshake::Waiting,
            },
            done => done,
        }
    }
}

/// The POST that carries one frame to the actor over SSE; the serialized
/// frame is its body.
pub fn sse_message_request(endpoint: &str, encoding: EncodingKind, details: &ConnectionDetails) -> (r:
    HttpRequest)
    ensures
        r.method@ == "POST"@,
        r.url@ == endpoint@ + "/actors/message"@,
        r.headers@.len() == 5,
        header_view_eq(r.headers@[0], "User-Agent"@, USER_AGENT_VALUE@),
        header_view_eq(r.headers@[1], HEADER_ENCODING@, encoding_name(encoding)),
        header_view_eq(r.headers@[2], HEADER_ACTOR_ID@, details.actor_id@),
        header_view_eq(r.headers@[3], HEADER_CONN_ID@, details.id@),
        header_view_eq(r.headers@[4], HEADER_CONN_TOKEN@, details.token@),
{
    let mut headers: Vec<(String, String)> = Vec::new();
    headers.push(header("User-Agent", USER_AGENT_VALUE));
    headers.push(header(HEADER_ENCODING, encoding.as_str()));
    headers.push(header(HEADER_ACTOR_ID, details.actor_id.as_str()));
    headers.push(header(HEADER_CONN_ID, details.id.as_str()));
    headers.push(header(HEADER_CONN_TOKEN, details.token.as_str()));
    HttpRequest {
        method: String::from_str("POST"),
        url: join(endpoint, "/actors/message"),
        headers,
    }
}

/// Why a WebSocket endpoint was refused.
#[derive(Debug, Clone, Copy, PartialEq, Eq, Structural)]
pub enum EndpointError {
    /// The endpoint does not parse as an absolute URL.
    InvalidUrl,
    /// The URL's scheme could not be changed to the WebSocket one.
    SchemeNotSet,
    /// The URL's scheme is neither `http` nor `https`.
    InvalidScheme,
}

/// The scheme of `s` parsed as an absolute URL, lower-cased; `None` when it
/// does not parse.
pub uninterp spec fn url_scheme_of(s: Seq<char>) -> Option<Seq<char>>;

/// Relies on url's `Url::parse` and `Url::scheme`: the scheme of the parsed
/// URL, `None` where parsing fails.
#[verifier::external_body]
fn url_scheme(s: &str) -> (r: Option<String>)
    ensures
        match r {
            Some(x) => url_scheme_of(s@) == Some(x@),
            None => url_scheme_of(s@) is None,
        },
{
    url::Url::parse(s).ok().map(|u| u.scheme().to_string())
}

/// `s` parsed as a URL, its scheme set to `scheme`, and written out by `url`;
/// `None` where parsing or the change of scheme fails.
pub uninterp spec fn url_with_scheme(s: Seq<char>, scheme: Seq<char>) -> Option<Seq<char>>;

/// Relies on url's `Url::parse`, `Url::set_scheme` and its serialization.
#[verifier::external_body]
fn set_url_scheme(s: &str, scheme: &str) -> (r: Option<String>)
    ensures
        match r {
            Some(x) => url_with_scheme(s@, scheme@) == Some(x@),
            None => url_with_scheme(s@, scheme@) is None,
        },
{
    let mut u = url::Url::parse(s).ok()?;
    u.set_scheme(scheme).ok()?;
    Some(u.to_string())
}

/// A URL with scheme `scheme` rewritten to `target`, or the error for a
/// change of scheme that failed.
pub open spec fn rescheme(endpoint: Seq<char>, target: Seq<char>) -> Result<Seq<char>, EndpointError> {
    match url_with_scheme(endpoint, target) {
        Some(u) => Ok(u),
        None => Err(EndpointError::SchemeNotSet),
    }
}

/// The WebSocket form of an HTTP endpoint, as `url` parses and writes it:
/// scheme `http` becomes `ws`, `https` becomes `wss`; anything else is refused.
pub open spec fn ws_url_spec(endpoint: Seq<char>) -> Result<Seq<char>, EndpointError> {
    match url_scheme_of(endpoint) {
        None => Err(EndpointError::InvalidUrl),
        Some(sc) => if sc == "http"@ {
            rescheme(endpoint, "ws"@)
        } else if sc == "https"@ {
            rescheme(endpoint, "wss"@)
        } else {
            Err(EndpointError::InvalidScheme)
        },
    }
}

fn is_text(s: &String, t: &str) -> (r: bool)
    ensures
        r == (s@ == t@),
{
    *s == String::from_str(t)
}

pub fn replace_http_with_ws(endpoint: &str) -> (r: Result<String, EndpointError>)
    ensures
        match r {
            Ok(s) => ws_url_spec(endpoint@) == Ok::<Seq<char>, EndpointError>(s@),
            Err(e) => ws_url_spec(endpoint@) == Err::<Seq<char>, EndpointError>(e),
        },
{
    proof {
        reveal_strlit("http");
        reveal_strlit("https");
        reveal_strlit("ws");
        reveal_strlit("wss");
    }
    let target = match url_scheme(endpoint) {
        None => return Err(EndpointError::InvalidUrl),
        Some(sc) => if is_text(&sc, "http") {
            "ws"
        } else if is_text(&sc, "https") {
            "wss"
        } else {
            return Err(EndpointError::InvalidScheme);
        },
    };
    match set_url_scheme(endpoint, target) {
        Some(u) => Ok(u),
        None => Err(EndpointError::SchemeNotSet),
    }
}

/// A WebSocket driver bound to an actor endpoint.
#[derive(Debug, Clone, PartialEq, Eq)]
pub struct WebSocketDriver {
    endpoint: String,
    encoding_kind: EncodingKind,
}

impl WebSocketDriver {
    pub closed spec fn spec_endpoint(&self) -> Seq<char> {
        self.endpoint@
    }

    pub closed spec fn spec_encoding(&self) -> EncodingKind {
        self.encoding_kind
    }

    pub fn new(endpoint: String, encoding_kind: EncodingKind) -> (r: Result<Self, EndpointError>)
        ensures
            match r {
                Ok(d) => ws_url_spec(endpoint@) == Ok::<Seq<char>, EndpointError>(d.spec_endpoint())
                    && d.spec_encoding() == encoding_kind,
                Err(e) => ws_url_spec(endpoint@) == Err::<Seq<char>, EndpointError>(e),
            },
    {
        match replace_http_with_ws(endpoint.as_str()) {
            Ok(endpoint) => Ok(WebSocketDriver { endpoint, encoding_kind }),
            Err(e) => Err(e),
        }
    }

    /// `<endpoint>/connect/websocket?encoding=<enc>`.
    pub fn build_conn_url(&self) -> (r: String)
        ensures
            r@ == self.spec_endpoint() + "/connect/websocket?encoding="@ + encoding_name(
                self.spec_encoding(),
            ),
    {
        let a = join(self.endpoint.as_str(), "/connect/websocket?encoding=");
        join(a.as_str(), self.encoding_kind.as_str())
    }
}

} // verus!
