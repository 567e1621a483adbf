use actor_core_client::common::EncodingKind;
use actor_core_client::drivers::{
    leading_ws_scheme, replace_http_with_ws, sse_connection_url, sse_message_request, sse_payload, sse_step,
    sse_stream_headers, stop_reason, ws_connection_url, ws_outbound_kind, ws_step,
    ConnectionAttempt, ConnectionDetails, DriverStep, DriverStopReason, EndpointError, SseEvent,
    SseHandshake, TaskEnd, WebSocketDriver, WsEvent, WsMessageKind,
};
use actor_core_client::protocol::to_client::{ActionResponse, Init, ToClient, ToClientBody};

fn pairs(h: &[(String, String)]) -> Vec<(&str, &str)> {
    h.iter().map(|(a, b)| (a.as_str(), b.as_str())).collect()
}

#[test]
fn websocket_url_swaps_scheme_and_encodes_query() {
    let url = ws_connection_url(
        "http://127.0.0.1:6420",
        EncodingKind::Json,
        "{\"getForId\":{\"actorId\":\"a b\"}}",
    );
    assert_eq!(
        url,
        "ws://127.0.0.1:6420/actors/connect/websocket?encoding=json&query=%7B%22getForId%22%3A%7B%22actorId%22%3A%22a%20b%22%7D%7D"
    );
    let url = ws_connection_url("https://example.com", EncodingKind::Cbor, "q");
    assert_eq!(url, "wss://example.com/actors/connect/websocket?encoding=cbor&query=q");
}

#[test]
fn websocket_url_changes_only_the_leading_scheme() {
    assert_eq!(leading_ws_scheme("http://http://x"), "ws://http://x");
    assert_eq!(leading_ws_scheme("https://a/https://b"), "wss://a/https://b");
    assert_eq!(leading_ws_scheme("ws://already"), "ws://already");
    let url = ws_connection_url("http://h/http://", EncodingKind::Json, "q");
    assert_eq!(url, "ws://h/http:///actors/connect/websocket?encoding=json&query=q");
}

#[test]
fn websocket_message_kinds() {
    assert_eq!(ws_outbound_kind(EncodingKind::Json), WsMessageKind::Text);
    assert_eq!(ws_outbound_kind(EncodingKind::Cbor), WsMessageKind::Binary);
}

#[test]
fn websocket_steps() {
    assert_eq!(
        ws_step(WsEvent::Text { text: "{}".to_string() }),
        DriverStep::Decode { payload: b"{}".to_vec() }
    );
    assert_eq!(
        ws_step(WsEvent::Binary { data: vec![1, 2] }),
        DriverStep::Decode { payload: vec![1, 2] }
    );
    assert_eq!(ws_step(WsEvent::Close), DriverStep::Stop { reason: DriverStopReason::ServerDisconnect });
    assert_eq!(ws_step(WsEvent::StreamEnded), DriverStep::Stop { reason: DriverStopReason::ServerDisconnect });
    assert_eq!(ws_step(WsEvent::SocketError), DriverStep::Stop { reason: DriverStopReason::ServerError });
    assert_eq!(ws_step(WsEvent::OutboundClosed), DriverStep::Stop { reason: DriverStopReason::UserAborted });
    assert_eq!(ws_step(WsEvent::DeliveryFailed), DriverStep::Stop { reason: DriverStopReason::UserAborted });
    assert_eq!(ws_step(WsEvent::Control), DriverStep::Continue);
}

#[test]
fn task_end_reasons() {
    assert_eq!(
        stop_reason(TaskEnd::Finished { reason: DriverStopReason::ServerError }),
        DriverStopReason::ServerError
    );
    assert_eq!(stop_reason(TaskEnd::Cancelled), DriverStopReason::UserAborted);
    assert_eq!(stop_reason(TaskEnd::Failed), DriverStopReason::TaskError);
}

#[test]
fn attempt_records_init() {
    let mut a = ConnectionAttempt::started();
    let reply = ToClient {
        b: ToClientBody::ActionResponse { ar: ActionResponse { i: 0, o: serde_json::Value::Null } },
    };
    a.record(&reply);
    assert!(!a.did_open);
    let init = ToClient {
        b: ToClientBody::Init { i: Init { ai: "a".to_string(), ci: "c".to_string(), ct: "t".to_string() } },
    };
    a.record(&init);
    a.end(DriverStopReason::ServerDisconnect);
    assert!(a.did_open);
    assert_eq!(a.task_end_reason, DriverStopReason::ServerDisconnect);
    let f = ConnectionAttempt::failed();
    assert!(!f.did_open);
    assert_eq!(f.task_end_reason, DriverStopReason::TaskError);
}

#[test]
fn sse_payload_by_encoding() {
    assert_eq!(sse_payload(EncodingKind::Json, "{\"b\":1}"), Some(b"{\"b\":1}".to_vec()));
    assert_eq!(sse_payload(EncodingKind::Cbor, "AQID"), Some(vec![1, 2, 3]));
    assert_eq!(sse_payload(EncodingKind::Cbor, "not base64!"), None);
}

#[test]
fn sse_steps() {
    let ev = SseEvent::Message { data: "AQID".to_string() };
    assert_eq!(sse_step(EncodingKind::Cbor, &ev), DriverStep::Decode { payload: vec![1, 2, 3] });
    let bad = SseEvent::Message { data: "%%%".to_string() };
    assert_eq!(sse_step(EncodingKind::Cbor, &bad), DriverStep::Continue);
    assert_eq!(sse_step(EncodingKind::Json, &SseEvent::Comment), DriverStep::Continue);
    assert_eq!(sse_step(EncodingKind::Json, &SseEvent::Connected), DriverStep::Continue);
    assert_eq!(
        sse_step(EncodingKind::Json, &SseEvent::StreamError),
        DriverStep::Stop { reason: DriverStopReason::ServerError }
    );
    assert_eq!(
        sse_step(EncodingKind::Json, &SseEvent::StreamEnded),
        DriverStep::Stop { reason: DriverStopReason::ServerDisconnect }
    );
    assert_eq!(
        sse_step(EncodingKind::Json, &SseEvent::DeliveryFailed),
        DriverStep::Stop { reason: DriverStopReason::UserAborted }
    );
}

#[test]
fn sse_handshake_waits_for_init() {
    let reply = ToClient {
        b: ToClientBody::ActionResponse { ar: ActionResponse { i: 0, o: serde_json::Value::Null } },
    };
    let h = SseHandshake::Waiting.on_frame(&reply);
    assert_eq!(h, SseHandshake::Waiting);
    let init = ToClient {
        b: ToClientBody::Init { i: Init { ai: "a1".to_string(), ci: "c1".to_string(), ct: "t1".to_string() } },
    };
    let h = h.on_frame(&init);
    let details = ConnectionDetails { actor_id: "a1".to_string(), id: "c1".to_string(), token: "t1".to_string() };
    assert_eq!(h, SseHandshake::Done { details: details.clone() });
    let other = ToClient {
        b: ToClientBody::Init { i: Init { ai: "a2".to_string(), ci: "c2".to_string(), ct: "t2".to_string() } },
    };
    assert_eq!(h.on_frame(&other), SseHandshake::Done { details });
}

#[test]
fn sse_addresses_and_headers() {
    assert_eq!(sse_connection_url("http://h"), "http://h/actors/connect/sse");
    let h = sse_stream_headers(EncodingKind::Cbor, "{q}", Some("{p}"));
    assert_eq!(
        pairs(&h),
        vec![
            ("User-Agent", "ActorClient-Rust/0.1.0"),
            ("X-AC-Encoding", "cbor"),
            ("X-AC-Query", "{q}"),
            ("X-AC-Conn-Params", "{p}"),
        ]
    );
    assert_eq!(sse_stream_headers(EncodingKind::Json, "{q}", None).len(), 3);
    let details = ConnectionDetails { actor_id: "a".to_string(), id: "c".to_string(), token: "t".to_string() };
    let req = sse_message_request("http://h", EncodingKind::Json, &details);
    assert_eq!(req.method, "POST");
    assert_eq!(req.url, "http://h/actors/message");
    assert_eq!(
        pairs(&req.headers),
        vec![
            ("User-Agent", "ActorClient-Rust/0.1.0"),
            ("X-AC-Encoding", "json"),
            ("X-AC-Actor", "a"),
            ("X-AC-Conn", "c"),
            ("X-AC-Conn-Token", "t"),
        ]
    );
}

#[test]
fn websocket_driver_endpoint_schemes() {
    assert_eq!(replace_http_with_ws("http://a:1/x"), Ok("ws://a:1/x".to_string()));
    assert_eq!(replace_http_with_ws("https://a"), Ok("wss://a/".to_string()));
    assert_eq!(replace_http_with_ws("http://localhost:8080"), Ok("ws://localhost:8080/".to_string()));
    assert_eq!(replace_http_with_ws("HTTP://Example.com"), Ok("ws://example.com/".to_string()));
    assert_eq!(replace_http_with_ws("ftp://a"), Err(EndpointError::InvalidScheme));
    assert_eq!(replace_http_with_ws("localhost"), Err(EndpointError::InvalidUrl));
    assert_eq!(replace_http_with_ws("http://"), Err(EndpointError::InvalidUrl));
    let d = WebSocketDriver::new("http://localhost:6420".to_string(), EncodingKind::Cbor).unwrap();
    assert_eq!(d.build_conn_url(), "ws://localhost:6420//connect/websocket?encoding=cbor");
    assert_eq!(
        WebSocketDriver::new("localhost".to_string(), EncodingKind::Json).err(),
        Some(EndpointError::InvalidUrl)
    );
}
