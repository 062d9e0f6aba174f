use event_collector::models::{default_enabled, Broker, Event, InputEvent, NewDestination};

#[test]
fn broker_names() {
    assert_eq!(Broker::Rabbitmq.to_string(), "rabbitmq");
    assert_eq!(Broker::Kafka.to_string(), "kafka");
}

#[test]
fn destinations_are_enabled_by_default() {
    assert!(default_enabled());
}

#[test]
fn record_binds_the_columns() {
    let d = NewDestination {
        broker: Broker::Kafka,
        topic_queue: "orders".to_string(),
        connection_url: "localhost:9092".to_string(),
        enabled: false,
        allow_invalid_tls: true,
    };
    let r = d.record();
    assert_eq!(r.broker, "kafka");
    assert_eq!(r.topic_queue, "orders");
    assert_eq!(r.connection_url, "localhost:9092");
    assert!(!r.enabled);
}

fn is_v4(s: &str) -> bool {
    let b: Vec<char> = s.chars().collect();
    b.len() == 36
        && b.iter().enumerate().all(|(i, c)| {
            if [8, 13, 18, 23].contains(&i) { *c == '-' } else { c.is_ascii_digit() || ('a'..='f').contains(c) }
        })
        && b[14] == '4'
        && ['8', '9', 'a', 'b'].contains(&b[19])
}

#[test]
fn new_event_gets_fresh_identity() {
    let data = serde_json::Value::from(vec![1, 2, 3]);
    let e1 = Event::new(InputEvent { event_type: "order.created".to_string(), data: data.clone() }, now());
    let e2 = Event::new(InputEvent { event_type: "order.created".to_string(), data: data.clone() }, now());
    assert!(is_v4(&e1.event_id), "{}", e1.event_id);
    assert!(is_v4(&e2.event_id));
    assert_ne!(e1.event_id, e2.event_id);
    assert_eq!(e1.event_type, "order.created");
    assert_eq!(e1.data, data);
    assert_eq!(e1.node_id, None);
}

#[test]
fn with_node_id_keeps_the_rest() {
    let e = Event::new(InputEvent { event_type: "t".to_string(), data: serde_json::Value::Bool(true) }, now());
    let f = e.with_node_id(&Some("n1".to_string()));
    assert_eq!(f.event_id, e.event_id);
    assert_eq!(f.event_type, e.event_type);
    assert_eq!(f.data, e.data);
    assert_eq!(f.received_at, e.received_at);
    assert_eq!(f.node_id, Some("n1".to_string()));
}

fn now() -> chrono::NaiveDateTime {
    chrono::DateTime::from_timestamp(1_700_000_000, 123_000_000).unwrap().naive_utc()
}

#[test]
fn new_event_keeps_the_arrival_time() {
    let e = Event::new(InputEvent { event_type: "t".to_string(), data: serde_json::Value::Null }, now());
    assert_eq!(e.received_at, now());
}

#[test]
fn new_at_is_exact() {
    let e = Event::new_at(
        InputEvent { event_type: "k".to_string(), data: serde_json::Value::from(5) },
        "id-1".to_string(),
        now(),
    );
    assert_eq!(e.event_id, "id-1");
    assert_eq!(e.event_type, "k");
    assert_eq!(e.data, serde_json::Value::from(5));
    assert_eq!(e.node_id, None);
    assert_eq!(e.received_at, now());
}
