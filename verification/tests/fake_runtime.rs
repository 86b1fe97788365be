//! The scripted runtime.

use deepseek_harness_sdk_rs::fake_runtime::{choose_scenario, FakeOutput, FakeRuntime};

fn lines(outputs: &[FakeOutput]) -> Vec<&str> {
    outputs
        .iter()
        .map(|output| match output {
            FakeOutput::Line(line) => line.as_str(),
            other => panic!("expected a line, got {other:?}"),
        })
        .collect()
}

fn take(scenario: &str, line: &str) -> Vec<FakeOutput> {
    FakeRuntime::new(scenario).take_as(line, &None, "msg", "child")
}

#[test]
fn the_scenario_comes_from_the_argument_or_the_environment() {
    let some = |text: &str| Some(text.to_string());
    assert_eq!(choose_scenario(some("echo"), some("slow")), "echo");
    assert_eq!(choose_scenario(some("--flag"), some("slow")), "slow");
    assert_eq!(choose_scenario(None, some("slow")), "slow");
    assert_eq!(choose_scenario(some("--flag"), None), "basic");
    assert_eq!(choose_scenario(None, None), "basic");
}

#[test]
fn a_prompt_plays_the_happy_path() {
    let outputs = take(
        "basic",
        r#"{"id": "1", "method": "session/prompt", "params": {"sessionId": "s1"}}"#,
    );
    assert_eq!(
        lines(&outputs),
        vec![
            r#"{"jsonrpc":"2.0","method":"session.event","params":{"event":{"data":{"inserted":[{"id":"msg"}]},"type":"agent/inbox/spliced"},"sessionId":"s1"}}"#,
            r#"{"jsonrpc":"2.0","method":"session.event","params":{"event":{"data":{"message":{"content":[{"text":"hello from fake","type":"text"}]}},"type":"assistant/message"},"sessionId":"s1"}}"#,
            r#"{"jsonrpc":"2.0","method":"session.event","params":{"event":{"data":{"reason":{"kind":"max-tokens"}},"type":"turn/end"},"sessionId":"s1"}}"#,
            r#"{"jsonrpc":"2.0","method":"session.status","params":{"sessionId":"s1","status":"idle"}}"#,
            r#"{"id":"1","jsonrpc":"2.0","result":{"messageId":"msg"}}"#,
        ]
    );
}

#[test]
fn a_child_session_lives_around_the_happy_path() {
    let outputs = take("subagent", r#"{"id": 1, "method": "session/prompt"}"#);
    let lines = lines(&outputs);
    assert_eq!(lines.len(), 10);
    assert_eq!(
        lines[1],
        r#"{"jsonrpc":"2.0","method":"subagent.started","params":{"childSessionId":"child","parentSessionId":"s"}}"#
    );
    assert_eq!(
        lines[4],
        r#"{"jsonrpc":"2.0","method":"subagent.finished","params":{"agentId":"child","childSessionId":"child","lastAssistantMessage":[{"text":"child result","type":"text"}],"parentSessionId":"s","provider":"fake","status":"ok","stopReason":"end-turn"}}"#
    );
    assert_eq!(lines[9], r#"{"id":"1","jsonrpc":"2.0","result":{"messageId":"msg"}}"#);
}

#[test]
fn unknown_methods_are_refused_unless_echoed() {
    let request = r#"{"id": "1", "method": "other", "params": [1]}"#;
    assert_eq!(
        lines(&take("basic", request)),
        vec![r#"{"error":{"code":-32601,"message":"unknown method"},"id":"1","jsonrpc":"2.0"}"#]
    );
    assert_eq!(
        lines(&take("echo", request)),
        vec![r#"{"id":"1","jsonrpc":"2.0","result":[1]}"#]
    );
    assert_eq!(
        lines(&take("echo", r#"{"id": "1", "method": "session/prompt"}"#)),
        vec![r#"{"id":"1","jsonrpc":"2.0","result":null}"#]
    );
}

#[test]
fn lines_that_are_no_request_are_passed_over() {
    for line in ["", "{", "[]", r#"{"method": "initialize"}"#, r#"{"id": 1}"#] {
        assert_eq!(take("basic", line), vec![], "{line}");
    }
}

#[test]
fn a_shutdown_ends_the_runtime_or_not() {
    let request = r#"{"id": "1", "method": "shutdown"}"#;
    let answer = FakeOutput::Line(r#"{"id":"1","jsonrpc":"2.0","result":{}}"#.to_string());
    assert_eq!(take("basic", request)[1], FakeOutput::Exit(0));
    let outputs = take("no-shutdown", request);
    assert_eq!(outputs[1], answer);
    assert_eq!(outputs[2], FakeOutput::Hang);
}

#[test]
fn a_slow_prompt_waits_first() {
    let outputs = take("slow", r#"{"id": "1", "method": "session/prompt"}"#);
    assert_eq!(outputs[0], FakeOutput::Sleep);
    assert_eq!(
        outputs[1],
        FakeOutput::Line(r#"{"id":"1","jsonrpc":"2.0","result":{"messageId":"msg-slow"}}"#.to_string())
    );
}

#[test]
fn the_answer_to_its_own_request_decides_the_exit() {
    let initialize = r#"{"id": "1", "method": "initialize"}"#;
    for (answer, code) in [
        (r#"{"id": "req-1", "error": {"code": -32601}}"#, 0),
        (r#"{"id": "req-1", "error": {"code": -32600}}"#, 3),
        (r#"{"id": "req-1", "result": {}}"#, 3),
        ("garbage", 3),
    ] {
        let mut fake = FakeRuntime::new("request-to-client");
        assert_eq!(fake.take(initialize, &None).len(), 2);
        assert_eq!(fake.take(answer, &None), vec![FakeOutput::Exit(code)]);
    }
}

#[test]
fn the_environment_is_reported_as_the_version() {
    let initialize = r#"{"id": "1", "method": "initialize"}"#;
    let mut fake = FakeRuntime::new("env");
    let named = fake.take(initialize, &Some("/cordis.yml".to_string()));
    assert!(lines(&named)[0].contains(r#""version":"/cordis.yml""#));
    let unset = fake.take(initialize, &None);
    assert!(lines(&unset)[0].contains(r#""version":"unset""#));
}

#[test]
fn fresh_ids_are_drawn_for_each_prompt() {
    let prompt = r#"{"id": "1", "method": "session/prompt"}"#;
    let mut fake = FakeRuntime::new("basic");
    assert_ne!(fake.take(prompt, &None), fake.take(prompt, &None));
}
