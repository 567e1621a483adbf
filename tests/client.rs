use actor_core_client::client::{Client, CreateOptions, GetOptions, GetOrCreateOptions};
use actor_core_client::common::{EncodingKind, TransportKind};
use actor_core_client::protocol::query::ActorQuery;
use actor_core_client::requests::ResolveStep;

#[test]
fn encoding_names() {
    assert_eq!(EncodingKind::Json.as_str(), "json");
    assert_eq!(EncodingKind::Cbor.as_str(), "cbor");
    assert_eq!(EncodingKind::Cbor.to_string(), "cbor");
}

#[test]
fn get_mints_key_query() {
    let c = Client::new("http://m", TransportKind::WebSocket, EncodingKind::Json);
    let h = c.get("counter", vec!["k".to_string()], GetOptions::default());
    let args = h.connect_args();
    assert_eq!(args.endpoint, "http://m");
    assert_eq!(args.encoding_kind, EncodingKind::Json);
    assert!(args.parameters.is_none());
    match args.query {
        ActorQuery::GetForKey { get_for_key } => {
            assert_eq!(get_for_key.name, "counter");
            assert_eq!(get_for_key.key, vec!["k".to_string()]);
        }
        _ => panic!("get selects by key"),
    }
    assert!(matches!(h.transport_kind(), TransportKind::WebSocket));
}

#[test]
fn get_or_create_carries_input_and_region() {
    let c = Client::new("http://m", TransportKind::Sse, EncodingKind::Cbor);
    let opts = GetOrCreateOptions {
        params: Some(serde_json::Value::from("p")),
        create_in_region: Some("east".to_string()),
        create_with_input: Some(serde_json::Value::from(5)),
    };
    let h = c.get_or_create("counter", vec![], opts);
    match h.stateless().query() {
        ActorQuery::GetOrCreateForKey { get_or_create_for_key: q } => {
            assert_eq!(q.name, "counter");
            assert_eq!(q.region.as_deref(), Some("east"));
            assert_eq!(q.input, Some(serde_json::Value::from(5)));
        }
        _ => panic!("get_or_create selects by key with creation"),
    }
    assert_eq!(h.stateless().params(), &Some(serde_json::Value::from("p")));
}

#[test]
fn create_resolves_to_an_id_query() {
    let c = Client::new("http://m", TransportKind::WebSocket, EncodingKind::Json);
    let opts = CreateOptions { params: None, region: None, input: Some(serde_json::Value::from(5)) };
    match c.create_query("counter", vec!["a".to_string()], &opts) {
        ActorQuery::Create { create } => {
            assert_eq!(create.name, "counter");
            assert_eq!(create.key, vec!["a".to_string()]);
            assert_eq!(create.input, Some(serde_json::Value::from(5)));
        }
        _ => panic!("create builds a create query"),
    }
    let h = c.created("new-id".to_string(), opts);
    assert!(matches!(h.stateless().resolve_step(), ResolveStep::Known { actor_id } if actor_id == "new-id"));
}

#[test]
fn get_for_id_mints_id_query() {
    let c = Client::new("http://m", TransportKind::WebSocket, EncodingKind::Json);
    let h = c.get_for_id("abc", GetOptions::default());
    assert!(matches!(h.connect_args().query, ActorQuery::GetForId { get_for_id } if get_for_id.actor_id == "abc"));
    assert_eq!(c.endpoint(), "http://m");
    assert_eq!(c.encoding_kind(), EncodingKind::Json);
}
