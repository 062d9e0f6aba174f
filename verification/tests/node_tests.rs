use event_collector::config::{store_node_id, NodeInfo};

#[test]
fn node_starts_without_identity() {
    let n = NodeInfo::new();
    assert!(!n.is_node_id_set());
    assert_eq!(n.get_node_id(), None);
}

#[test]
fn read_after_write() {
    let mut n = NodeInfo::new();
    n.set_node_id(Some("node-a".to_string()));
    assert!(n.is_node_id_set());
    assert_eq!(n.get_node_id(), Some("node-a".to_string()));
    n.set_node_id(None);
    assert!(!n.is_node_id_set());
    assert_eq!(n.get_node_id(), None);
}

#[test]
fn saved_identity_is_restored() {
    let mut n = NodeInfo::new();
    n.load_from_db(Some(store_node_id(&Some("node-b".to_string()))));
    assert_eq!(n.get_node_id(), Some("node-b".to_string()));
}

#[test]
fn cleared_identity_is_stored_empty() {
    assert_eq!(store_node_id(&None), "");
    let mut n = NodeInfo::new();
    n.load_from_db(Some(store_node_id(&None)));
    assert!(n.is_node_id_set());
    n.load_from_db(None);
    assert!(!n.is_node_id_set());
}
