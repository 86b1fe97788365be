//! What the session events of a run say.

use deepseek_harness_sdk_rs::events::{final_response, finish_reason, is_inbox_receipt};
use deepseek_harness_sdk_rs::json::{parse_json, Json};
use deepseek_harness_sdk_rs::{Notification, SdkError};

fn json(text: &str) -> Json {
    parse_json(text).expect("valid JSON")
}

#[test]
fn inbox_receipt_matches_only_the_receipted_message() {
    let notification = Notification {
        method: "session.event".into(),
        payload: json(
            r#"{
                "sessionId": "s1",
                "event": {"type": "agent/inbox/spliced", "data": {"inserted": [{"id": "m2"}]}}
            }"#,
        ),
    };
    assert!(is_inbox_receipt(&notification, "s1", "m2"));
    assert!(!is_inbox_receipt(&notification, "s1", "m1"));
    assert!(!is_inbox_receipt(&notification, "other", "m2"));
}

#[test]
fn inbox_receipt_rejects_other_notifications_and_shapes() {
    let notification = Notification {
        method: "session.status".into(),
        payload: json(r#"{"sessionId": "s1", "status": "idle"}"#),
    };
    assert!(!is_inbox_receipt(&notification, "s1", "m2"));
    let malformed = Notification {
        method: "session.event".into(),
        payload: json(
            r#"{"sessionId": "s1", "event": {"type": "assistant/message", "data": {}}}"#,
        ),
    };
    assert!(!is_inbox_receipt(&malformed, "s1", "m2"));
}

#[test]
fn final_response_takes_the_last_assistant_text() {
    let events = vec![
        json(
            r#"{"type": "assistant/message", "data": {"message": {"content": [{"type": "text", "text": "first"}]}}}"#,
        ),
        json(
            r#"{"type": "assistant/message", "data": {"content": [{"type": "text", "text": "second"}, {"type": "tool_use", "id": "t"}]}}"#,
        ),
    ];
    assert_eq!(final_response(&events), "second");
}

#[test]
fn final_response_is_empty_without_assistant_events() {
    assert_eq!(final_response(&vec![]), "");
    assert_eq!(
        final_response(&vec![json(
            r#"{"type": "turn/end", "data": {"reason": {"kind": "ok"}}}"#
        )]),
        ""
    );
}

#[test]
fn finish_reason_reads_the_last_turn_end() {
    let events = vec![
        json(r#"{"type": "turn/end", "data": {"reason": {"kind": "stop"}}}"#),
        json(r#"{"type": "turn/end", "data": {"reason": {"kind": "max-tokens"}}}"#),
    ];
    assert_eq!(finish_reason(&events).unwrap(), Some("max-tokens".into()));
    assert_eq!(finish_reason(&vec![]).unwrap(), None);
}

#[test]
fn finish_reason_rejects_a_missing_kind() {
    let events = vec![json(r#"{"type": "turn/end", "data": {"reason": null}}"#)];
    assert!(matches!(
        finish_reason(&events),
        Err(SdkError::Protocol { .. })
    ));
}

#[test]
fn a_receipt_lists_the_message_anywhere() {
    let notification = Notification {
        method: "session.event".into(),
        payload: json(
            r#"{
                "sessionId": "s1",
                "event": {
                    "type": "agent/inbox/spliced",
                    "data": {"inserted": ["m2", {"id": 2}, {"id": "m1"}, {"id": "m2"}]}
                }
            }"#,
        ),
    };
    assert!(is_inbox_receipt(&notification, "s1", "m2"));
    assert!(is_inbox_receipt(&notification, "s1", "m1"));
    assert!(!is_inbox_receipt(&notification, "s1", "2"));
}

#[test]
fn the_text_blocks_of_a_message_are_joined() {
    let events = vec![json(
        r#"{"type": "assistant/message", "data": {"content": [
            {"type": "text", "text": "a"},
            {"type": "image", "text": "b"},
            {"type": "text"},
            {"type": "text", "text": "c"}
        ]}}"#,
    )];
    assert_eq!(final_response(&events), "ac");
}

#[test]
fn a_message_without_a_content_list_is_passed_over() {
    let events = vec![
        json(
            r#"{"type": "assistant/message", "data": {"content": [{"type": "text", "text": "kept"}]}}"#,
        ),
        json(r#"{"type": "assistant/message", "data": {"content": "plain"}}"#),
        json(r#"{"type": "assistant/message"}"#),
    ];
    assert_eq!(final_response(&events), "kept");
}

#[test]
fn the_last_commit_wins_even_when_it_is_empty() {
    let events = vec![
        json(
            r#"{"type": "assistant/message", "data": {"content": [{"type": "text", "text": "old"}]}}"#,
        ),
        json(r#"{"type": "assistant/message", "data": {"content": []}}"#),
    ];
    assert_eq!(final_response(&events), "");
}

#[test]
fn a_malformed_last_turn_end_is_reported_in_words() {
    let events = vec![
        json(r#"{"type": "turn/end", "data": {"reason": {"kind": "stop"}}}"#),
        json(r#"{"type": "turn/end", "data": {"reason": {"kind": 7}}}"#),
    ];
    assert_eq!(
        finish_reason(&events).unwrap_err().message(),
        "turn/end event requires a string data.reason.kind"
    );
}
