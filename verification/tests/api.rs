//! The high-level harness against the scripted runtime.

use std::path::PathBuf;

use deepseek_harness_sdk_rs::api::{RunCollector, RunStart, RunStep, StartStep};
use deepseek_harness_sdk_rs::client::{read_prompt, ClientPhase, CloseAction, CloseEvent};
use deepseek_harness_sdk_rs::fake_runtime::{FakeOutput, FakeRuntime};
use deepseek_harness_sdk_rs::json::{parse_json, Json};
use deepseek_harness_sdk_rs::launch::LaunchChannel;
use deepseek_harness_sdk_rs::transport::{Delivery, OutgoingRequest, Received};
use deepseek_harness_sdk_rs::{
    DeepSeekHarness, DeepSeekHarnessConfig, Input, Notification, RunResult, SdkError, Session,
};

fn json(text: &str) -> Json {
    parse_json(text).expect("valid JSON")
}

/// A harness with the scripted runtime at the other end.
struct World {
    harness: DeepSeekHarness,
    fake: FakeRuntime,
    seen: usize,
}

impl World {
    fn new(scenario: &str) -> World {
        World {
            harness: DeepSeekHarness::new(
                DeepSeekHarnessConfig::default(),
                PathBuf::from("/work"),
                None,
            ),
            fake: FakeRuntime::new(scenario),
            seen: 0,
        }
    }

    /// The outcome of a request, with everything else that the runtime does on the way.
    fn outcome(&mut self, request: &OutgoingRequest) -> Result<Json, SdkError> {
        let mut result = None;
        for output in self.fake.take(&request.line, &None) {
            let client = self.harness.client_mut();
            match output {
                FakeOutput::Line(line) => match client.receive(&line) {
                    Received::Completed { id, outcome } if id == request.id => {
                        result = Some(outcome)
                    }
                    Received::Notification(notification) => {
                        client.deliver(notification, &vec![])
                    }
                    _ => {}
                },
                FakeOutput::Stderr(line) => client.stderr_line(line),
                FakeOutput::Exit(code) => {
                    client.runtime_gone(Some(code));
                }
                FakeOutput::Sleep | FakeOutput::Hang => {}
            }
        }
        result.expect("the request has an outcome")
    }

    fn start(&mut self) -> Result<(), SdkError> {
        loop {
            match self.harness.start() {
                StartStep::Ready => return Ok(()),
                StartStep::Launch => assert!(self.harness.attach()),
                StartStep::Handshake(request) => {
                    let outcome = self.outcome(&request);
                    self.harness.finish_start(outcome).0?;
                }
                StartStep::Failed(error, _) => return Err(error),
            }
        }
    }

    fn run(&mut self, session: Option<&str>, input: Input) -> Result<RunResult, SdkError> {
        self.start()?;
        let start = self.harness.run(session, input)?;
        self.collect(start)
    }

    fn run_session(&mut self, session: &Session, input: Input) -> Result<RunResult, SdkError> {
        self.start()?;
        let start = session.run(&mut self.harness, input)?;
        self.collect(start)
    }

    fn collect(&mut self, start: RunStart) -> Result<RunResult, SdkError> {
        let RunStart {
            session_id,
            mut subscription,
            request,
        } = start;
        let outcome = self.outcome(&request);
        let message_id = read_prompt(outcome)?;
        let mut collector = RunCollector::new(&session_id, &message_id);
        loop {
            let notification = match self.harness.client_mut().next(&mut subscription) {
                Delivery::Ready(notification) => notification,
                Delivery::Ended(error) => return Err(error),
                Delivery::Waiting => panic!("the run has not settled"),
            };
            match collector.take(&notification) {
                RunStep::Ignored => {}
                RunStep::Collected => self.seen += 1,
                RunStep::Finished => {
                    self.seen += 1;
                    break;
                }
            }
        }
        self.harness.client_mut().unsubscribe(subscription);
        collector.finish(None)
    }

    fn close(&mut self) {
        if let CloseAction::SendShutdown(request) = self.harness.close() {
            self.outcome(&request).expect("shutdown");
            let step = self.harness.close_step(CloseEvent::ShutdownAnswered);
            assert_eq!(step, CloseAction::CloseStdin(1_000_000_000));
            let end = self.harness.close_step(CloseEvent::Exited(Some(0)));
            assert_eq!(end, CloseAction::Finished(vec![]));
        }
    }
}

#[test]
fn run_collects_one_turn() {
    let mut world = World::new("basic");
    let result = world.run(None, Input::from("say hi")).expect("run");
    assert_eq!(result.final_response, "hello from fake");
    assert_eq!(result.finish_reason.as_deref(), Some("max-tokens"));
    assert!(!result.events.is_empty());
    assert!(result
        .notifications
        .iter()
        .any(|n| n.method == "session.status" && n.payload.get_str("status") == Some("idle")));
    world.close();
}

#[test]
fn run_honors_an_explicit_session_and_callback() {
    let mut world = World::new("basic");
    let result = world
        .run(Some("session-fixed"), Input::from("hi"))
        .expect("run");
    assert_eq!(result.session_id, "session-fixed");
    assert_eq!(world.seen, result.notifications.len());
    world.close();
}

#[test]
fn run_collects_descendant_notifications() {
    let mut world = World::new("subagent");
    let result = world.run(None, Input::from("hi")).expect("run");
    assert_eq!(result.final_response, "hello from fake");
    assert!(result
        .notifications
        .iter()
        .any(|n| n.method == "subagent.started"));
    assert!(result
        .notifications
        .iter()
        .any(|n| n.method == "subagent.finished"));
    // The child's notifications are collected, its events are not.
    assert_eq!(result.notifications.len(), 9);
    assert_eq!(result.events.len(), 3);
    world.close();
}

#[test]
fn run_rejects_a_turn_end_without_reason_kind() {
    let mut world = World::new("bad-turn-end");
    let error = world.run(None, Input::from("hi")).unwrap_err();
    assert!(matches!(error, SdkError::Protocol { .. }));
    world.close();
}

#[test]
fn run_without_assistant_messages_is_empty() {
    let mut world = World::new("no-assistant");
    let result = world.run(None, Input::from("hi")).expect("run");
    assert_eq!(result.final_response, "");
    assert_eq!(result.finish_reason.as_deref(), Some("ok"));
    world.close();
}

#[test]
fn session_handle_runs_multiple_turns() {
    let mut world = World::new("basic");
    world.start().expect("start");
    let session = world.harness.start_session(Some("session-reuse"));
    assert_eq!(session.id(), "session-reuse");
    let first = world
        .run_session(&session, Input::from("one"))
        .expect("first turn");
    let second = world
        .run_session(&session, Input::from("two"))
        .expect("second turn");
    assert_eq!(first.session_id, "session-reuse");
    assert_eq!(second.session_id, "session-reuse");
    assert_eq!(first.final_response, "hello from fake");
    assert_eq!(second.final_response, "hello from fake");
    world.close();
}

#[test]
fn explicit_content_blocks_pass_through() {
    let mut world = World::new("basic");
    let blocks = vec![json(r#"{"type": "text", "text": "structured"}"#)];
    let result = world.run(None, Input::from(blocks)).expect("run");
    assert_eq!(result.final_response, "hello from fake");
    world.close();
}

#[test]
fn a_session_prompts_its_own_id() {
    let mut world = World::new("basic");
    world.start().expect("start");
    let session = world.harness.start_session(None);
    assert!(session.id().starts_with("session-"));
    assert_eq!(session.id().len(), "session-".len() + 32);
    let start = session
        .run(&mut world.harness, Input::from("hi".to_string()))
        .expect("run");
    assert_eq!(start.session_id, session.id());
    let frame = json(&start.request.line);
    assert_eq!(frame.get_str("method"), Some("session/prompt"));
    let params = frame.get("params").expect("params");
    assert_eq!(params.get_str("sessionId"), Some(session.id()));
    assert_eq!(
        params.get("contentBlocks"),
        Some(&json(r#"[{"text": "hi", "type": "text"}]"#))
    );
}

#[test]
fn fresh_sessions_differ() {
    let world = World::new("basic");
    let first = world.harness.start_session(None);
    let second = world.harness.start_session(None);
    assert_ne!(first.id(), second.id());
}

#[test]
fn text_becomes_one_block() {
    assert_eq!(
        Input::from("hi").into_blocks(),
        vec![Json::empty_object()
            .with("type", Json::text("text"))
            .with("text", Json::text("hi"))]
    );
    let blocks = vec![json("1"), json("[2]")];
    assert_eq!(
        Input::from(vec![json("1"), json("[2]")]).into_blocks(),
        blocks
    );
}

#[test]
fn starting_is_lazy_and_memoized() {
    let mut world = World::new("basic");
    assert_eq!(world.harness.client().phase(), ClientPhase::New);
    let refused = world.harness.run(None, Input::from("hi")).unwrap_err();
    assert_eq!(refused.message(), "DeepSeek Harness runtime is not running");
    assert_eq!(world.harness.start(), StartStep::Launch);
    world.start().expect("start");
    assert_eq!(world.harness.start(), StartStep::Ready);
    assert!(!world.harness.attach());
}

#[test]
fn a_closed_harness_does_not_start_again() {
    let mut world = World::new("basic");
    world.start().expect("start");
    world.close();
    assert_eq!(world.harness.client().phase(), ClientPhase::Closed);
    assert_eq!(world.harness.close(), CloseAction::Nothing);
    match world.harness.start() {
        StartStep::Failed(error, action) => {
            assert!(matches!(error, SdkError::TransportClosed { .. }));
            assert_eq!(action, CloseAction::Nothing);
        }
        other => panic!("expected a failure, got {other:?}"),
    }
    assert!(matches!(
        world.harness.run(None, Input::from("hi")),
        Err(SdkError::TransportClosed { .. })
    ));
}

#[test]
fn a_refused_handshake_closes_the_client() {
    let mut world = World::new("basic");
    assert_eq!(world.harness.start(), StartStep::Launch);
    assert!(world.harness.attach());
    let refused = SdkError::protocol("no");
    let (result, action) = world.harness.finish_start(Err(refused.clone()));
    assert_eq!(result, Err(refused));
    assert!(matches!(action, CloseAction::SendShutdown(_)));
}

fn note(method: &str, payload: &str) -> Notification {
    Notification {
        method: method.to_string(),
        payload: json(payload),
    }
}

#[test]
fn a_run_owns_the_interval_from_receipt_to_idle() {
    let idle = note("session.status", r#"{"sessionId": "s", "status": "idle"}"#);
    let receipt = note(
        "session.event",
        r#"{"sessionId": "s", "event": {"type": "agent/inbox/spliced", "data": {"inserted": [{"id": "m"}]}}}"#,
    );
    let event = note("session.event", r#"{"sessionId": "s", "event": {"n": 1}}"#);
    let plain = note("session.event", r#"{"sessionId": "s", "event": "text"}"#);
    let other = note("session.event", r#"{"sessionId": "t", "event": {"n": 2}}"#);
    let busy = note("session.status", r#"{"sessionId": "s", "status": "running"}"#);
    let elsewhere = note("session.status", r#"{"sessionId": "t", "status": "idle"}"#);

    let mut collector = RunCollector::new("s", "m");
    let steps: Vec<RunStep> = [
        &idle, &event, &receipt, &event, &plain, &other, &busy, &elsewhere, &idle, &event, &idle,
    ]
    .iter()
    .map(|notification| collector.take(notification))
    .collect();
    assert_eq!(
        steps,
        vec![
            RunStep::Ignored,
            RunStep::Ignored,
            RunStep::Collected,
            RunStep::Collected,
            RunStep::Collected,
            RunStep::Collected,
            RunStep::Collected,
            RunStep::Collected,
            RunStep::Finished,
            RunStep::Ignored,
            RunStep::Ignored,
        ]
    );
    let result = collector
        .finish(Some(PathBuf::from("/sessions")))
        .expect("result");
    assert_eq!(
        result.notifications,
        vec![
            receipt.clone(),
            event.clone(),
            plain,
            other,
            busy,
            elsewhere,
            idle
        ]
    );
    assert_eq!(
        result.events,
        vec![
            receipt.payload.get("event").expect("event").clone(),
            json(r#"{"n": 1}"#)
        ]
    );
    assert_eq!(result.finish_reason, None);
    assert_eq!(result.session_root, Some(PathBuf::from("/sessions")));
}

#[test]
fn the_defaults_are_the_documented_ones() {
    let config = DeepSeekHarnessConfig::default();
    assert_eq!(config.provider, "deepseek-official");
    assert_eq!(config.model, "deepseek-v4-flash");
    assert_eq!(config.shutdown_timeout_nanos, 1_000_000_000);
    assert_eq!(config.request_timeout_nanos, None);
}

#[test]
fn the_configuration_reaches_the_client() {
    let mut config = DeepSeekHarnessConfig {
        session_root: Some(PathBuf::from("/sessions")),
        cordis: Some(PathBuf::from("/cordis.yml")),
        base_url: Some("http://base".to_string()),
        api_key: Some("key".to_string()),
        runtime_bin: Some(PathBuf::from("/runtime")),
        request_timeout_nanos: Some(5),
        runtime_version: Some("9.9.9".to_string()),
        ..DeepSeekHarnessConfig::default()
    };
    for (key, value) in [("DSH_CWD", "overridden"), ("OTHER", "kept")] {
        config.env.insert(key.to_string(), value.to_string());
    }
    let harness = DeepSeekHarness::new(config, PathBuf::from("/work"), None);
    let options = harness.client().options();
    let env = options.env.as_ref().expect("env");
    for (key, value) in [
        ("DSH_SESSION_ROOT", "/sessions"),
        ("DSH_CORDIS_CONFIG", "/cordis.yml"),
        ("DSH_CWD", "/work"),
        ("DEEPSEEK_BASE_URL", "http://base"),
        ("DEEPSEEK_API_KEY", "key"),
        ("OTHER", "kept"),
    ] {
        assert_eq!(env.get(key).map(String::as_str), Some(value), "{key}");
    }
    assert_eq!(env.keys().len(), 6);
    assert_eq!(options.cwd, Some(PathBuf::from("/work")));
    assert_eq!(options.request_timeout_nanos, Some(5));
    assert_eq!(options.runtime_version.as_deref(), Some("9.9.9"));
    match options.resolve_launch(None, true) {
        Ok(LaunchChannel::Launch(launch)) => assert_eq!(launch.command, "/runtime"),
        other => panic!("expected a launch, got {other:?}"),
    }
    assert_eq!(harness.config().api_key.as_deref(), Some("key"));

    let harness = DeepSeekHarness::new(
        DeepSeekHarnessConfig::default(),
        PathBuf::from("/work"),
        Some(PathBuf::from("/elsewhere")),
    );
    let options = harness.client().options();
    assert_eq!(options.cwd, Some(PathBuf::from("/elsewhere")));
    assert_eq!(options.env.as_ref().expect("env").keys(), vec!["DSH_CWD"]);
}

#[test]
fn the_handshake_is_made_from_the_configuration() {
    let config = DeepSeekHarnessConfig {
        max_tokens: Some(u64::MAX),
        ..DeepSeekHarnessConfig::default()
    };
    let mut harness = DeepSeekHarness::new(config, PathBuf::from("/work"), None);
    assert!(harness.attach());
    match harness.start() {
        StartStep::Handshake(request) => assert_eq!(
            json(&request.line).get("params"),
            Some(&json(
                r#"{"cwd": "/work", "maxTokens": 18446744073709551615, "model": "deepseek-v4-flash", "provider": "deepseek-official"}"#
            ))
        ),
        other => panic!("expected the handshake, got {other:?}"),
    }
}
