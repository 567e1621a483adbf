use actor_core_client::connection::{ActionStart, ConnectionCore, ConnectionState, Dispatch};
use actor_core_client::protocol::to_client::{
    ActionResponse, Error as ErrorFrame, Event, Init, ToClient, ToClientBody,
};
use actor_core_client::protocol::to_server::{ToServer, ToServerBody};

type Core = ConnectionCore<u32, &'static str>;

fn init_msg() -> ToClient {
    ToClient {
        b: ToClientBody::Init {
            i: Init { ai: "actor".to_string(), ci: "conn".to_string(), ct: "token".to_string() },
        },
    }
}

fn response(id: i64, value: i64) -> ToClient {
    ToClient { b: ToClientBody::ActionResponse { ar: ActionResponse { i: id, o: serde_json::Value::from(value) } } }
}

fn sub_name(f: &ToServer) -> Option<(String, bool)> {
    match &f.b {
        ToServerBody::SubscriptionRequest { sr } => Some((sr.e.clone(), sr.s)),
        _ => None,
    }
}

fn action_of(f: &ToServer) -> Option<(i64, String, Vec<serde_json::Value>)> {
    match &f.b {
        ToServerBody::ActionRequest { ar } => Some((ar.i, ar.n.clone(), ar.a.clone())),
        _ => None,
    }
}

fn open(core: &mut Core) -> (Vec<ToServer>, Vec<ToServer>) {
    match core.handle_message(init_msg()) {
        Dispatch::Opened { subscriptions, queued } => (subscriptions, queued),
        _ => panic!("init must open"),
    }
}

#[test]
fn new_connection_is_empty() {
    let core = Core::new();
    assert_eq!(core.state(), ConnectionState::New);
    assert_eq!(core.pending_count(), 0);
    assert_eq!(core.queued_count(), 0);
    assert_eq!(core.subscription_count(), 0);
    assert!(!core.is_disconnecting());
}

#[test]
fn action_before_open_is_queued_and_answered() {
    let mut core = Core::new();
    assert!(core.begin_attempt());
    assert_eq!(core.state(), ConnectionState::Connecting);
    let start = core.action("increment".to_string(), vec![serde_json::Value::from(1)], 7);
    assert!(matches!(start, ActionStart::Queued { id: 0 }));
    assert_eq!(core.queued_count(), 1);
    assert!(core.attach_driver());
    let (subs, queued) = open(&mut core);
    assert!(subs.is_empty());
    assert_eq!(queued.len(), 1);
    assert_eq!(
        action_of(&queued[0]),
        Some((0, "increment".to_string(), vec![serde_json::Value::from(1)]))
    );
    assert_eq!(core.state(), ConnectionState::Open);
    assert_eq!(core.queued_count(), 0);
    match core.handle_message(response(0, 1)) {
        Dispatch::Answered { waiter, outcome } => {
            assert_eq!(waiter, 7);
            assert_eq!(outcome.ok(), Some(serde_json::Value::from(1)));
        }
        _ => panic!("the reply must reach its waiter"),
    }
    assert_eq!(core.pending_count(), 0);
}

#[test]
fn action_while_attached_is_transmitted() {
    let mut core = Core::new();
    core.begin_attempt();
    core.attach_driver();
    let start = core.action("add".to_string(), vec![], 1);
    match start {
        ActionStart::Transmit { id, frame } => {
            assert_eq!(id, 0);
            assert_eq!(action_of(&frame).map(|a| a.0), Some(0));
        }
        _ => panic!("an attached driver takes the frame"),
    }
    assert_eq!(core.queued_count(), 0);
}

#[test]
fn ids_increase_and_slots_are_removed_once() {
    let mut core = Core::new();
    core.action("a".to_string(), vec![], 10);
    core.action("b".to_string(), vec![], 11);
    assert_eq!(core.pending_count(), 2);
    assert_eq!(core.take_slot(1), Some(11));
    assert_eq!(core.take_slot(1), None);
    assert_eq!(core.pending_count(), 1);
    let start = core.action("c".to_string(), vec![], 12);
    assert!(matches!(start, ActionStart::Queued { id: 2 }));
}

#[test]
fn correlated_error_reaches_waiter() {
    let mut core = Core::new();
    core.action("boom".to_string(), vec![], 5);
    let err = ErrorFrame { c: "code".to_string(), m: "message".to_string(), md: None, ai: Some(0) };
    match core.handle_message(ToClient { b: ToClientBody::Error { e: err } }) {
        Dispatch::Answered { waiter, outcome } => {
            assert_eq!(waiter, 5);
            let e = outcome.err().unwrap();
            assert_eq!(e.c, "code");
            assert_eq!(e.m, "message");
        }
        _ => panic!("a correlated error answers its action"),
    }
    assert_eq!(core.pending_count(), 0);
}

#[test]
fn uncorrelated_error_and_unknown_reply() {
    let mut core = Core::new();
    core.action("x".to_string(), vec![], 5);
    let err = ErrorFrame { c: "c".to_string(), m: "m".to_string(), md: None, ai: None };
    assert!(matches!(
        core.handle_message(ToClient { b: ToClientBody::Error { e: err } }),
        Dispatch::ConnectionError { .. }
    ));
    assert!(matches!(core.handle_message(response(42, 0)), Dispatch::Unmatched { id: 42 }));
    assert_eq!(core.pending_count(), 1);
}

#[test]
fn subscriptions_are_sent_once_and_rehydrated() {
    let mut core = Core::new();
    assert!(core.on_event("tick".to_string(), "first").is_none());
    assert!(core.on_event("tick".to_string(), "second").is_none());
    assert_eq!(core.subscription_count(), 1);
    core.begin_attempt();
    core.attach_driver();
    let (subs, queued) = open(&mut core);
    assert_eq!(subs.len(), 1);
    assert_eq!(sub_name(&subs[0]), Some(("tick".to_string(), true)));
    assert!(queued.is_empty());
    let sent = core.on_event("other".to_string(), "third");
    assert_eq!(sent.as_ref().and_then(sub_name), Some(("other".to_string(), true)));
    assert!(core.on_event("other".to_string(), "fourth").is_none());
    let cbs = core.callbacks(&"tick".to_string()).unwrap();
    assert_eq!(cbs, &vec!["first", "second"]);
    assert!(core.callbacks(&"none".to_string()).is_none());
}

#[test]
fn reconnect_resends_each_subscription_before_queued_frames() {
    let mut core = Core::new();
    core.on_event("a".to_string(), "x");
    core.on_event("b".to_string(), "y");
    core.begin_attempt();
    core.attach_driver();
    open(&mut core);
    core.detach_driver();
    assert_eq!(core.state(), ConnectionState::Connecting);
    core.action("m".to_string(), vec![], 3);
    core.begin_attempt();
    core.attach_driver();
    let (subs, queued) = open(&mut core);
    let names: Vec<_> = subs.iter().map(|f| sub_name(f).unwrap()).collect();
    assert_eq!(names, vec![("a".to_string(), true), ("b".to_string(), true)]);
    assert_eq!(queued.len(), 1);
    assert_eq!(action_of(&queued[0]).map(|a| a.1), Some("m".to_string()));
}

#[test]
fn empty_table_sends_no_subscription_on_open() {
    let mut core = Core::new();
    core.begin_attempt();
    core.attach_driver();
    let (subs, queued) = open(&mut core);
    assert!(subs.is_empty());
    assert!(queued.is_empty());
}

#[test]
fn queued_frames_come_out_in_order() {
    let mut core = Core::new();
    core.action("one".to_string(), vec![], 1);
    core.action("two".to_string(), vec![], 2);
    core.action("three".to_string(), vec![], 3);
    assert!(core.on_event("ev".to_string(), "cb").is_none());
    core.attach_driver();
    let (subs, queued) = open(&mut core);
    assert_eq!(subs.len(), 1);
    let order: Vec<i64> = queued.iter().map(|f| action_of(f).unwrap().0).collect();
    assert_eq!(order, vec![0, 1, 2]);
}

#[test]
fn refused_frames_are_kept_unless_ephemeral() {
    let mut core = Core::new();
    core.attach_driver();
    let frame = core.send_msg(ToServer::subscription("e".to_string(), true), true).unwrap();
    core.send_refused(frame, true);
    assert_eq!(core.queued_count(), 0);
    let frame = core.send_msg(ToServer::action(9, "n".to_string(), vec![]), false).unwrap();
    core.send_refused(frame, false);
    assert_eq!(core.queued_count(), 1);
}

#[test]
fn ephemeral_frames_are_dropped_while_detached() {
    let mut core = Core::new();
    assert!(core.send_msg(ToServer::subscription("e".to_string(), true), true).is_none());
    assert_eq!(core.queued_count(), 0);
}

#[test]
fn disconnect_releases_pending_and_is_idempotent() {
    let mut core = Core::new();
    core.begin_attempt();
    core.attach_driver();
    core.on_event("tick".to_string(), "cb");
    core.action("slow".to_string(), vec![], 1);
    core.action("slower".to_string(), vec![], 2);
    let teardown = core.disconnect().unwrap();
    assert_eq!(teardown.waiters, vec![1, 2]);
    assert!(teardown.stop_driver);
    assert_eq!(core.state(), ConnectionState::Draining);
    assert_eq!(core.pending_count(), 0);
    assert_eq!(core.subscription_count(), 0);
    assert!(core.disconnect().is_none());
    assert_eq!(core.state(), ConnectionState::Draining);
    assert!(core.send_msg(ToServer::action(5, "n".to_string(), vec![]), false).is_none());
    assert!(!core.attach_driver());
    assert!(!core.begin_attempt());
    assert!(matches!(core.action("late".to_string(), vec![], 9), ActionStart::Refused { waiter: 9 }));
    core.finish();
    assert_eq!(core.state(), ConnectionState::Closed);
    assert!(core.disconnect().is_none());
}

#[test]
fn server_close_after_init_keeps_pending_actions() {
    let mut core = Core::new();
    core.begin_attempt();
    core.attach_driver();
    open(&mut core);
    core.action("wait".to_string(), vec![], 4);
    core.detach_driver();
    assert_eq!(core.state(), ConnectionState::Connecting);
    assert_eq!(core.pending_count(), 1);
    core.begin_attempt();
    core.attach_driver();
    open(&mut core);
    match core.handle_message(response(0, 3)) {
        Dispatch::Answered { waiter, .. } => assert_eq!(waiter, 4),
        _ => panic!("the reply after reconnect must reach the waiter"),
    }
}

#[test]
fn event_is_dispatched_with_its_arguments() {
    let mut core = Core::new();
    core.on_event("newCount".to_string(), "cb");
    let msg = ToClient {
        b: ToClientBody::EventMessage {
            ev: Event { n: "newCount".to_string(), a: vec![serde_json::Value::from(1)] },
        },
    };
    match core.handle_message(msg) {
        Dispatch::Event { name, args } => {
            assert_eq!(name, "newCount");
            assert_eq!(args, vec![serde_json::Value::from(1)]);
            assert_eq!(core.callbacks(&name).unwrap(), &vec!["cb"]);
        }
        _ => panic!("an event is dispatched"),
    }
}
