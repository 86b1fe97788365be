//! Frames, request correlation and the queues of the transport.

use deepseek_harness_sdk_rs::frames::{
    classify, error_line, id_key, notification_line, read_line, request_line, response_line, Frame,
};
use deepseek_harness_sdk_rs::json::{parse_json, Json};
use deepseek_harness_sdk_rs::lineage::Lineage;
use deepseek_harness_sdk_rs::transport::{
    Delivery, Judgement, NotificationFilter, Peer, Received, RequestDelivery,
};
use deepseek_harness_sdk_rs::{Notification, SdkError};

fn json(text: &str) -> Json {
    parse_json(text).expect("valid JSON")
}

fn tick(n: i64) -> Notification {
    Notification {
        method: "tick".to_string(),
        payload: Json::empty_object().with("n", Json::integer(n)),
    }
}

fn gone() -> SdkError {
    SdkError::transport_closed("gone", Some(3), &vec!["last words".to_string()])
}

#[test]
fn ids_correlate_by_their_spelling() {
    assert_eq!(id_key(&json(r#""abc""#)), "abc");
    assert_eq!(id_key(&json("42")), "42");
    assert_eq!(id_key(&json("-7")), "-7");
    assert_eq!(id_key(&json("null")), "");
    assert_eq!(id_key(&json("[1]")), "");
}

#[test]
fn frames_are_told_apart() {
    match read_line(r#"{"id": "a", "method": "m", "params": {"x": 1}}"#) {
        Frame::Request(request) => {
            assert_eq!(request.id, json(r#""a""#));
            assert_eq!(request.method, "m");
            assert_eq!(request.payload, json(r#"{"x": 1}"#));
        }
        _ => panic!("expected a request"),
    }
    match read_line(r#"{"id": 5, "result": [true]}"#) {
        Frame::Response { key, outcome } => {
            assert_eq!(key, "5");
            assert_eq!(outcome, Ok(json("[true]")));
        }
        _ => panic!("expected a response"),
    }
    match read_line(r#"{"method": "m", "params": [1]}"#) {
        Frame::Notification(notification) => {
            assert_eq!(notification.method, "m");
            assert_eq!(notification.payload, Json::empty_object());
        }
        _ => panic!("expected a notification"),
    }
    for line in ["", "{", "not json", "[]", "7", "{}", r#"{"id": {}}"#, r#"{"method": 1}"#] {
        assert!(matches!(read_line(line), Frame::Ignored), "{line}");
    }
}

#[test]
fn a_response_without_a_result_is_null() {
    match classify(&json(r#"{"id": "a"}"#)) {
        Frame::Response { outcome, .. } => assert_eq!(outcome, Ok(Json::Null)),
        _ => panic!("expected a response"),
    }
}

#[test]
fn an_error_outweighs_a_result() {
    match read_line(r#"{"id": "a", "result": 1, "error": {"code": 1.5, "data": null}}"#) {
        Frame::Response { outcome, .. } => assert_eq!(
            outcome,
            Err(SdkError::JsonRpcResponse {
                code: None,
                message: "JSON-RPC error".to_string(),
                data: Some(Json::Null),
            })
        ),
        _ => panic!("expected a response"),
    }
}

#[test]
fn lines_are_compact_json_on_one_line() {
    assert_eq!(
        request_line("a", "m\n", Some(json(r#"{"x": [1, 2]}"#))),
        r#"{"id":"a","jsonrpc":"2.0","method":"m\n","params":{"x":[1,2]}}"#
    );
    assert_eq!(
        request_line("a", "m", None),
        r#"{"id":"a","jsonrpc":"2.0","method":"m"}"#
    );
    assert_eq!(
        notification_line("m", None),
        r#"{"jsonrpc":"2.0","method":"m"}"#
    );
    assert_eq!(
        response_line(&json("7"), json("null")),
        r#"{"id":7,"jsonrpc":"2.0","result":null}"#
    );
    assert_eq!(
        error_line(&json(r#""r""#), -1, "no", Some(json("[]"))),
        r#"{"error":{"code":-1,"data":[],"message":"no"},"id":"r","jsonrpc":"2.0"}"#
    );
}

#[test]
fn what_is_sent_reads_back() {
    match read_line(&request_line("a", "m", Some(json(r#"{"x": 1}"#)))) {
        Frame::Request(request) => {
            assert_eq!((request.id, request.method), (Json::text("a"), "m".to_string()));
            assert_eq!(request.payload, json(r#"{"x": 1}"#));
        }
        _ => panic!("expected a request"),
    }
    match read_line(&error_line(&json("9"), i64::MIN, "no", Some(json("[0]")))) {
        Frame::Response { key, outcome } => {
            assert_eq!(key, "9");
            assert_eq!(
                outcome,
                Err(SdkError::JsonRpcResponse {
                    code: Some(i64::MIN),
                    message: "no".to_string(),
                    data: Some(json("[0]")),
                })
            );
        }
        _ => panic!("expected a response"),
    }
    match read_line(&response_line(&json(r#""a""#), json(r#"{"deep": [[[]]]}"#))) {
        Frame::Response { key, outcome } => {
            assert_eq!(key, "a");
            assert_eq!(outcome, Ok(json(r#"{"deep": [[[]]]}"#)));
        }
        _ => panic!("expected a response"),
    }
    match read_line(&notification_line("m", Some(json(r#"{"x": "y"}"#)))) {
        Frame::Notification(notification) => {
            assert_eq!(notification.payload, json(r#"{"x": "y"}"#))
        }
        _ => panic!("expected a notification"),
    }
}

#[test]
fn request_ids_are_fresh() {
    let mut peer = Peer::new(None);
    let first = peer.request("m", None).expect("request");
    let second = peer.request("m", None).expect("request");
    assert_ne!(first.id, second.id);
    assert_eq!(first.id.len(), 36);
    assert_eq!(&first.id[8..9], "-");
    assert_eq!(&first.id[14..15], "4");
}

#[test]
fn a_request_completes_exactly_once() {
    let mut peer = Peer::new(None);
    for id in ["a", "b"] {
        peer.request_as(id.to_string(), "m", None, None).expect("request");
    }
    assert_eq!(
        peer.receive(r#"{"id": "a", "result": 1}"#),
        Received::Completed {
            id: "a".to_string(),
            outcome: Ok(json("1")),
        }
    );
    assert_eq!(peer.receive(r#"{"id": "a", "result": 2}"#), Received::Nothing);
    assert_eq!(peer.receive(r#"{"id": "unknown"}"#), Received::Nothing);
    assert_eq!(peer.fail_closed(&gone()), vec!["b".to_string()]);
}

#[test]
fn a_numeric_id_answers_its_spelling() {
    let mut peer = Peer::new(None);
    peer.request_as("12".to_string(), "m", None, None).expect("request");
    assert!(matches!(
        peer.receive(r#"{"id": 12, "result": null}"#),
        Received::Completed { .. }
    ));
}

#[test]
fn the_first_closing_error_wins() {
    let mut peer = Peer::new(Some(7));
    assert_eq!(peer.closed_error(), None);
    assert_eq!(peer.fail_closed(&gone()), Vec::<String>::new());
    peer.fail_closed(&SdkError::NestedRuntime);
    assert_eq!(peer.closed_error(), Some(gone()));
    assert_eq!(peer.request("m", None), Err(gone()));
    assert_eq!(peer.notify("m", None), Err(gone()));
    assert_eq!(peer.respond(&json("1"), Json::Null), Err(gone()));
    assert_eq!(peer.respond_error(&json("1"), 1, "no", None), Err(gone()));
    assert_eq!(peer.subscribe(NotificationFilter::All), Err(gone()));
    let mut unmatched = peer.subscribe_default();
    assert_eq!(unmatched.try_next(&mut peer), None);
    assert_eq!(unmatched.next(&mut peer), Delivery::Ended(gone()));
    assert_eq!(unmatched.next(&mut peer), Delivery::Ended(gone()));
    assert_eq!(peer.write_error(), gone());
}

#[test]
fn server_requests_queue_in_order() {
    let mut peer = Peer::new(None);
    assert_eq!(peer.next_request(), RequestDelivery::Waiting);
    peer.receive(r#"{"id": "one", "method": "ask"}"#);
    peer.receive(r#"{"id": 2, "method": "ask"}"#);
    peer.fail_closed(&gone());
    match peer.next_request() {
        RequestDelivery::Ready(request) => assert_eq!(request.id, json(r#""one""#)),
        other => panic!("expected a request, got {other:?}"),
    }
    match peer.next_request() {
        RequestDelivery::Ready(request) => assert_eq!(request.id, json("2")),
        other => panic!("expected a request, got {other:?}"),
    }
    assert_eq!(peer.next_request(), RequestDelivery::Ended(gone()));
    assert_eq!(peer.next_request(), RequestDelivery::Waiting);
    assert_eq!(
        peer.receive(r#"{"id": 3, "method": "ask"}"#),
        Received::Requested
    );
    match peer.next_request() {
        RequestDelivery::Ready(request) => assert_eq!(request.id, json("3")),
        other => panic!("expected a request, got {other:?}"),
    }
    assert_eq!(peer.next_request(), RequestDelivery::Waiting);
}

#[test]
fn a_request_after_the_close_queues_behind_the_error() {
    let mut peer = Peer::new(None);
    peer.fail_closed(&gone());
    peer.fail_closed(&SdkError::NestedRuntime);
    peer.receive(r#"{"id": 1, "method": "ask"}"#);
    assert_eq!(peer.next_request(), RequestDelivery::Ended(gone()));
    match peer.next_request() {
        RequestDelivery::Ready(request) => assert_eq!(request.id, json("1")),
        other => panic!("expected a request, got {other:?}"),
    }
    assert_eq!(peer.next_request(), RequestDelivery::Waiting);
}

#[test]
fn a_closed_transport_hands_no_notification_out() {
    let mut peer = Peer::new(None);
    let lineage = Lineage::new();
    let mut all = peer.subscribe(NotificationFilter::All).expect("subscribe");
    let mut unmatched = peer.subscribe_default();
    peer.request_as("r".to_string(), "m", None, None).expect("open");
    peer.fail_closed(&gone());
    assert_eq!(
        peer.receive(r#"{"id": "r", "result": 1}"#),
        Received::Nothing
    );
    match peer.receive(r#"{"method": "tick", "params": {}}"#) {
        Received::Notification(notification) => peer.deliver(notification, &lineage, &vec![]),
        other => panic!("expected a notification, got {other:?}"),
    }
    assert_eq!(all.next(&mut peer), Delivery::Ended(gone()));
    assert_eq!(unmatched.next(&mut peer), Delivery::Ended(gone()));
}

#[test]
fn each_match_receives_a_notification_once() {
    let mut peer = Peer::new(None);
    let lineage = Lineage::new();
    let mut unmatched = peer.subscribe_default();
    assert_eq!(unmatched.id, 1);
    let mut picky = peer.subscribe(NotificationFilter::Custom).expect("subscribe");
    let mut tree = peer
        .subscribe(NotificationFilter::SessionTree("s".to_string()))
        .expect("subscribe");
    assert_eq!((picky.id, tree.id), (2, 3));

    // Nobody wants the first; the predicate accepts the second.
    peer.deliver(tick(1), &lineage, &vec![(picky.id, Judgement::Skip)]);
    peer.deliver(tick(2), &lineage, &vec![(picky.id, Judgement::Match)]);
    // A predicate that says nothing rejects.
    peer.deliver(tick(3), &lineage, &vec![(77, Judgement::Match)]);
    let of_session = Notification {
        method: "session.status".to_string(),
        payload: json(r#"{"sessionId": "s"}"#),
    };
    peer.deliver(of_session.clone(), &lineage, &vec![]);

    assert_eq!(unmatched.next(&mut peer), Delivery::Ready(tick(1)));
    assert_eq!(unmatched.try_next(&mut peer), Some(tick(3)));
    assert_eq!(unmatched.next(&mut peer), Delivery::Waiting);
    assert_eq!(picky.next(&mut peer), Delivery::Ready(tick(2)));
    assert_eq!(picky.try_next(&mut peer), None);
    assert_eq!(tree.next(&mut peer), Delivery::Ready(of_session));
    assert_eq!(tree.next(&mut peer), Delivery::Waiting);
}

#[test]
fn the_unmatched_queue_is_permanent_and_opens_empty() {
    let mut peer = Peer::new(None);
    let lineage = Lineage::new();
    peer.deliver(tick(1), &lineage, &vec![]);
    let mut unmatched = peer.subscribe_default();
    assert_eq!(unmatched.next(&mut peer), Delivery::Waiting);
    peer.unsubscribe(unmatched.id);
    peer.deliver(tick(2), &lineage, &vec![]);
    assert_eq!(unmatched.next(&mut peer), Delivery::Ready(tick(2)));
}

#[test]
fn an_older_unmatched_subscription_is_drained_and_ends() {
    let mut peer = Peer::new(None);
    let lineage = Lineage::new();
    let mut older = peer.subscribe_default();
    peer.deliver(tick(1), &lineage, &vec![]);
    let mut newer = peer.subscribe_default();
    assert_ne!(older.id, newer.id);
    assert_eq!(newer.next(&mut peer), Delivery::Waiting);
    peer.deliver(tick(2), &lineage, &vec![]);
    assert_eq!(older.next(&mut peer), Delivery::Ready(tick(1)));
    let end = match older.next(&mut peer) {
        Delivery::Ended(error) => error,
        other => panic!("expected the end, got {other:?}"),
    };
    assert_eq!(end.message(), "DeepSeek Harness runtime closed");
    assert_eq!(newer.next(&mut peer), Delivery::Ready(tick(2)));
    // The error of the older one stays; a queue not yet drained ends with the closing error.
    peer.deliver(tick(3), &lineage, &vec![]);
    peer.subscribe_default();
    peer.fail_closed(&gone());
    assert_eq!(older.next(&mut peer), Delivery::Ended(end));
    assert_eq!(newer.next(&mut peer), Delivery::Ready(tick(3)));
    assert_eq!(newer.next(&mut peer), Delivery::Ended(gone()));
}

#[test]
fn a_terminal_error_follows_what_was_queued() {
    let mut peer = Peer::new(None);
    let lineage = Lineage::new();
    let mut all = peer.subscribe(NotificationFilter::All).expect("subscribe");
    peer.deliver(tick(1), &lineage, &vec![]);
    peer.fail_closed(&gone());
    peer.deliver(tick(2), &lineage, &vec![]);
    assert_eq!(all.try_next(&mut peer), Some(tick(1)));
    assert_eq!(all.try_next(&mut peer), None);
    assert_eq!(all.next(&mut peer), Delivery::Ended(gone()));
    assert_eq!(all.next(&mut peer), Delivery::Ended(gone()));
}

#[test]
fn ending_one_subscription_leaves_the_others() {
    let mut peer = Peer::new(None);
    let lineage = Lineage::new();
    let first = peer.subscribe(NotificationFilter::All).expect("subscribe");
    let mut second = peer.subscribe(NotificationFilter::All).expect("subscribe");
    peer.unsubscribe(first.id);
    peer.unsubscribe(first.id);
    peer.deliver(tick(1), &lineage, &vec![]);
    assert_eq!(second.next(&mut peer), Delivery::Ready(tick(1)));
    let third = peer.subscribe(NotificationFilter::All).expect("subscribe");
    assert_eq!(third.id, 3);
    assert!(peer.has_room());
}

#[test]
fn deadlines_report_the_runtime() {
    let mut peer = Peer::new(None);
    peer.request_as("a".to_string(), "m", None, Some(5)).expect("request");
    let error = peer
        .expire("a", Some(-1), &vec!["x".to_string(), "y".to_string()])
        .expect("timed out");
    assert_eq!(
        error.message(),
        "m timed out waiting for DeepSeek Harness runtime\nexit code: -1\nstderr tail:\nx\ny"
    );
    assert_eq!(peer.expire("a", None, &vec![]), None);
}

#[test]
fn server_requests_are_answered_under_their_own_id() {
    let peer = Peer::new(None);
    assert_eq!(
        peer.respond(&json("17"), json(r#"{"ok": true}"#)),
        Ok(r#"{"id":17,"jsonrpc":"2.0","result":{"ok":true}}"#.to_string())
    );
    assert_eq!(
        peer.respond_error(&json(r#""r""#), 4, "no", None),
        Ok(r#"{"error":{"code":4,"message":"no"},"id":"r","jsonrpc":"2.0"}"#.to_string())
    );
    assert_eq!(
        peer.write_error().message(),
        "DeepSeek Harness runtime stdin closed"
    );
}
