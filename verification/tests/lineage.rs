//! Session trees.

use deepseek_harness_sdk_rs::json::{parse_json, Json};
use deepseek_harness_sdk_rs::lineage::Lineage;
use deepseek_harness_sdk_rs::Notification;

fn notification(method: &str, payload: &str) -> Notification {
    Notification {
        method: method.to_string(),
        payload: parse_json(payload).expect("valid JSON"),
    }
}

fn started(parent: &str, child: &str) -> Notification {
    Notification {
        method: "subagent.started".to_string(),
        payload: Json::empty_object()
            .with("parentSessionId", Json::text(parent))
            .with("childSessionId", Json::text(child)),
    }
}

#[test]
fn descendants_belong_to_the_tree() {
    let mut lineage = Lineage::new();
    assert!(lineage.is_descendant("root", "root"));
    assert!(!lineage.is_descendant("root", "child"));
    lineage.record(&started("root", "child"));
    lineage.record(&started("child", "grandchild"));
    assert!(lineage.is_descendant("root", "child"));
    assert!(lineage.is_descendant("root", "grandchild"));
    assert!(lineage.is_descendant("child", "grandchild"));
    assert!(!lineage.is_descendant("child", "root"));
    assert!(!lineage.is_descendant("grandchild", "child"));
}

#[test]
fn only_proper_edges_are_recorded() {
    let mut lineage = Lineage::new();
    lineage.record(&started("a", "a"));
    lineage.record(&started("", "b"));
    lineage.record(&started("a", ""));
    lineage.record(&notification(
        "subagent.finished",
        r#"{"parentSessionId": "a", "childSessionId": "c"}"#,
    ));
    lineage.record(&notification("subagent.started", r#"{"childSessionId": "d"}"#));
    for id in ["b", "c", "d", ""] {
        assert!(!lineage.is_descendant("a", id), "{id}");
    }
}

#[test]
fn a_cycle_of_parents_ends() {
    let mut lineage = Lineage::new();
    lineage.record(&started("a", "b"));
    lineage.record(&started("b", "a"));
    assert!(lineage.is_descendant("a", "b"));
    assert!(lineage.is_descendant("b", "a"));
    assert!(!lineage.is_descendant("root", "a"));
}

#[test]
fn a_later_edge_moves_the_child() {
    let mut lineage = Lineage::new();
    lineage.record(&started("a", "c"));
    lineage.record(&started("b", "c"));
    assert!(!lineage.is_descendant("a", "c"));
    assert!(lineage.is_descendant("b", "c"));
}

#[test]
fn lifecycle_notifications_concern_the_parents_tree() {
    let mut lineage = Lineage::new();
    lineage.record(&started("root", "child"));
    assert!(lineage.concerns("root", &started("child", "new")));
    assert!(lineage.concerns("new", &started("child", "new")));
    assert!(!lineage.concerns("other", &started("child", "new")));
    let finished = notification(
        "subagent.finished",
        r#"{"parentSessionId": "root", "childSessionId": "child", "sessionId": "other"}"#,
    );
    assert!(lineage.concerns("root", &finished));
    assert!(lineage.concerns("child", &finished));
    assert!(!lineage.concerns("other", &finished));
}

#[test]
fn other_notifications_concern_their_sessions_tree() {
    let mut lineage = Lineage::new();
    lineage.record(&started("root", "child"));
    let status = notification("session.status", r#"{"sessionId": "child"}"#);
    assert!(lineage.concerns("root", &status));
    assert!(lineage.concerns("child", &status));
    assert!(!lineage.concerns("other", &status));
    assert!(!lineage.concerns("root", &notification("log", r#"{"sessionId": 7}"#)));
    assert!(!lineage.concerns("root", &notification("log", "{}")));
}
