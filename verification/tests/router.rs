use moh_desktop::messages::{hub_line, IncomingMessage, Message};
use moh_desktop::router::{contains_topic, HubAction, HubRouter};

fn topics(names: &[&str]) -> Vec<String> {
    names.iter().map(|s| s.to_string()).collect()
}

fn publish(router: &mut HubRouter, from: u64, topic: &str) -> (Vec<u64>, bool) {
    match router.handle(from, Message::publish(topic, serde_json::Value::from(1))) {
        HubAction::Deliver { mut recipients, topic: t, payload, shutdown } => {
            assert_eq!(t, topic);
            assert_eq!(payload, serde_json::Value::from(1));
            recipients.sort();
            (recipients, shutdown)
        }
        HubAction::Registered => panic!("a publication is delivered"),
    }
}

#[test]
fn ids_are_handed_out_in_order() {
    let mut router = HubRouter::new();
    assert_eq!(router.next_id(), 0);
    assert_eq!(router.connect(), 0);
    assert_eq!(router.connect(), 1);
    router.disconnect(0);
    assert_eq!(router.connect(), 2);
    assert_eq!(router.next_id(), 3);
}

#[test]
fn new_client_hears_nothing() {
    let mut router = HubRouter::new();
    let a = router.connect();
    let b = router.connect();
    router.register(b, topics(&["wm.ping"]));
    assert_eq!(publish(&mut router, a, "wm.ping"), (vec![b], false));
    assert_eq!(publish(&mut router, b, "system.exit"), (vec![], true));
}

#[test]
fn publication_reaches_exactly_the_registered_clients() {
    let mut router = HubRouter::new();
    let wm = router.connect();
    let panel = router.connect();
    let cursor = router.connect();
    assert!(matches!(router.handle(wm, Message::register(vec!["system.exit", "wm.ping", "wm.reload"])), HubAction::Registered));
    assert!(matches!(router.handle(panel, Message::register(vec!["system.exit", "panel.redraw", "wm.created"])), HubAction::Registered));
    assert!(matches!(router.handle(cursor, Message::register(vec!["system.exit"])), HubAction::Registered));
    assert_eq!(publish(&mut router, cursor, "wm.created"), (vec![panel], false));
    assert_eq!(publish(&mut router, panel, "wm.ping"), (vec![wm], false));
    assert_eq!(publish(&mut router, panel, "nobody.listens"), (vec![], false));
    assert_eq!(publish(&mut router, panel, "system.exit"), (vec![wm, panel, cursor], true));
}

#[test]
fn registration_replaces_earlier_topics() {
    let mut router = HubRouter::new();
    let a = router.connect();
    router.register(a, topics(&["one"]));
    router.register(a, topics(&["two"]));
    assert_eq!(publish(&mut router, a, "one"), (vec![], false));
    assert_eq!(publish(&mut router, a, "two"), (vec![a], false));
}

#[test]
fn registration_of_unknown_client_is_ignored() {
    let mut router = HubRouter::new();
    let a = router.connect();
    router.register(7, topics(&["x"]));
    router.register(a, topics(&["y"]));
    assert_eq!(publish(&mut router, a, "x"), (vec![], false));
    assert_eq!(publish(&mut router, a, "y"), (vec![a], false));
}

#[test]
fn disconnected_client_hears_nothing() {
    let mut router = HubRouter::new();
    let a = router.connect();
    let b = router.connect();
    router.register(a, topics(&["t"]));
    router.register(b, topics(&["t"]));
    router.disconnect(a);
    assert_eq!(publish(&mut router, b, "t"), (vec![b], false));
    router.disconnect(b);
    assert_eq!(router.recipients(&"t".to_string()), Vec::<u64>::new());
}

#[test]
fn topic_lookup_is_exact() {
    let ts = topics(&["system.exit", "wm.ping"]);
    assert!(contains_topic(&ts, &"wm.ping".to_string()));
    assert!(!contains_topic(&ts, &"wm".to_string()));
    assert!(!contains_topic(&ts, &"wm.ping ".to_string()));
    assert!(!contains_topic(&Vec::new(), &"wm.ping".to_string()));
}

#[test]
fn messages_keep_their_contents() {
    match Message::register(vec!["a", "b.c"]) {
        Message::Register { topics } => assert_eq!(topics, vec!["a".to_string(), "b.c".to_string()]),
        _ => panic!("register builds a registration"),
    }
    match Message::publish("wm.created", serde_json::Value::from("id 3")) {
        Message::Publish { topic, payload } => {
            assert_eq!(topic, "wm.created");
            assert_eq!(payload, serde_json::Value::from("id 3"));
        }
        _ => panic!("publish builds a publication"),
    }
    let incoming = IncomingMessage { topic: "t".to_string(), payload: serde_json::Value::Null };
    assert_eq!(incoming.topic, "t");
}

#[test]
fn hub_line_reads_topic_and_payload() {
    let (topic, payload) = hub_line(r#"{"topic":"wm.created","payload":{"id":7}}"#).unwrap();
    assert_eq!(topic, "wm.created");
    assert_eq!(payload["id"], serde_json::Value::from(7));
}

#[test]
fn hub_line_fills_in_missing_entries() {
    let (topic, payload) = hub_line(r#"{"payload":1}"#).unwrap();
    assert_eq!(topic, "");
    assert_eq!(payload, serde_json::Value::from(1));
    let (topic, payload) = hub_line(r#"{"topic":5}"#).unwrap();
    assert_eq!(topic, "");
    assert_eq!(payload, serde_json::Value::Null);
}

#[test]
fn hub_line_skips_what_is_not_json() {
    assert!(hub_line("not json").is_none());
    assert!(hub_line("").is_none());
}
