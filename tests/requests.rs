use actor_core_client::common::EncodingKind;
use actor_core_client::protocol::query::{ActorQuery, CreateRequest, GetForIdRequest, GetForKeyRequest};
use actor_core_client::requests::{
    action_request, build_http_request, check_status, content_type, resolve_request,
    ActorHandleStateless, RequestError, ResolveStep,
};

fn pairs(h: &[(String, String)]) -> Vec<(&str, &str)> {
    h.iter().map(|(a, b)| (a.as_str(), b.as_str())).collect()
}

#[test]
fn resolve_request_carries_query_header() {
    let q = "{\"getForKey\":{\"name\":\"counter\",\"key\":[]}}";
    let req = resolve_request("http://m", EncodingKind::Json, q);
    assert_eq!(req.method, "POST");
    assert_eq!(req.url, "http://m/actors/resolve");
    assert_eq!(
        pairs(&req.headers),
        vec![
            ("X-AC-Encoding", "json"),
            ("X-AC-Query", q),
            ("Content-Type", "application/json"),
            ("User-Agent", "ActorClient-Rust/0.1.0"),
        ]
    );
    let back: serde_json::Value = serde_json::from_str(&req.headers[1].1).unwrap();
    assert_eq!(back["getForKey"]["name"], serde_json::Value::from("counter"));
}

#[test]
fn action_request_encodes_name() {
    let req = action_request("http://m", EncodingKind::Cbor, "{q}", Some("{p}"), "do it/now");
    assert_eq!(req.url, "http://m/actors/actions/do%20it%2Fnow");
    assert_eq!(
        pairs(&req.headers),
        vec![
            ("X-AC-Encoding", "cbor"),
            ("X-AC-Query", "{q}"),
            ("X-AC-Conn-Params", "{p}"),
            ("Content-Type", "application/octet-stream"),
            ("User-Agent", "ActorClient-Rust/0.1.0"),
        ]
    );
    let req = action_request("http://m", EncodingKind::Json, "{q}", None, "increment");
    assert_eq!(req.url, "http://m/actors/actions/increment");
    assert_eq!(req.headers.len(), 4);
}

#[test]
fn body_is_required_for_post_and_put() {
    assert_eq!(
        build_http_request("POST", "u", vec![], false, EncodingKind::Json).err(),
        Some(RequestError::MissingBody)
    );
    assert_eq!(
        build_http_request("PUT", "u", vec![], false, EncodingKind::Json).err(),
        Some(RequestError::MissingBody)
    );
    let get = build_http_request("GET", "u", vec![("A".to_string(), "b".to_string())], false, EncodingKind::Json)
        .unwrap();
    assert_eq!(pairs(&get.headers), vec![("A", "b"), ("User-Agent", "ActorClient-Rust/0.1.0")]);
    assert_eq!(content_type(EncodingKind::Json), "application/json");
    assert_eq!(content_type(EncodingKind::Cbor), "application/octet-stream");
}

#[test]
fn statuses() {
    assert_eq!(check_status(200), Ok(()));
    assert_eq!(check_status(299), Ok(()));
    assert_eq!(check_status(404), Err(RequestError::Status { code: 404 }));
    assert_eq!(check_status(199), Err(RequestError::Status { code: 199 }));
}

#[test]
fn resolve_steps_and_pinning() {
    let by_id = ActorQuery::GetForId { get_for_id: GetForIdRequest { actor_id: "id1".to_string() } };
    let h = ActorHandleStateless::new("http://m", None, EncodingKind::Json, by_id);
    assert!(matches!(h.resolve_step(), ResolveStep::Known { actor_id } if actor_id == "id1"));

    let create = ActorQuery::Create {
        create: CreateRequest { name: "c".to_string(), key: vec![], input: None, region: None },
    };
    let h = ActorHandleStateless::new("http://m", None, EncodingKind::Json, create);
    assert!(matches!(h.resolve_step(), ResolveStep::Refused));

    let by_key = ActorQuery::GetForKey {
        get_for_key: GetForKeyRequest { name: "counter".to_string(), key: vec!["a".to_string()] },
    };
    let mut h = ActorHandleStateless::new("http://m", Some(serde_json::Value::from(3)), EncodingKind::Cbor, by_key);
    match h.resolve_step() {
        ResolveStep::Ask { query: ActorQuery::GetForKey { get_for_key } } => {
            assert_eq!(get_for_key.name, "counter");
            assert_eq!(get_for_key.key, vec!["a".to_string()]);
        }
        _ => panic!("a key query is asked of the manager"),
    }
    h.resolved("id9".to_string());
    assert!(matches!(h.resolve_step(), ResolveStep::Known { actor_id } if actor_id == "id9"));
    assert_eq!(h.params(), &Some(serde_json::Value::from(3)));
    assert_eq!(h.encoding_kind(), EncodingKind::Cbor);
    assert_eq!(h.endpoint(), "http://m");
    let req = h.action_request("add", "{q}", None);
    assert_eq!(req.url, "http://m/actors/actions/add");
}
