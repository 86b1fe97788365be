//! The protocol client against the scripted runtime.

use std::path::PathBuf;

use deepseek_harness_sdk_rs::client::{
    read_handshake, read_prompt, ClientPhase, CloseAction, CloseEvent, STDERR_TAIL_LINES,
};
use deepseek_harness_sdk_rs::fake_runtime::{FakeOutput, FakeRuntime};
use deepseek_harness_sdk_rs::json::{parse_json, Json};
use deepseek_harness_sdk_rs::transport::{Delivery, Judgement, OutgoingRequest, Received};
use deepseek_harness_sdk_rs::{
    HarnessClient, HarnessClientOptions, InitializeParams, Notification, NotificationFilter,
    NotificationSubscription, SdkError,
};

fn json(text: &str) -> Json {
    parse_json(text).expect("valid JSON")
}

fn initialize_params() -> InitializeParams {
    InitializeParams {
        cwd: PathBuf::from("/work"),
        provider: "test-provider".to_string(),
        model: "test-model".to_string(),
        max_tokens: Some(100),
    }
}

/// A started client, the scripted runtime at the other end, and what came of the requests.
struct World {
    client: HarnessClient,
    fake: FakeRuntime,
    outcomes: Vec<(String, Result<Json, SdkError>)>,
    fake_exit: Option<i32>,
}

impl World {
    fn start(scenario: &str) -> World {
        World::start_with(scenario, HarnessClientOptions::default())
    }

    fn start_with(scenario: &str, options: HarnessClientOptions) -> World {
        let mut client = HarnessClient::new(options);
        assert!(client.start());
        World {
            client,
            fake: FakeRuntime::new(scenario),
            outcomes: Vec::new(),
            fake_exit: None,
        }
    }

    /// Hands one line to the runtime, and everything it does to the client.
    fn write(&mut self, line: &str) {
        for output in self.fake.take(line, &None) {
            match output {
                FakeOutput::Line(line) => self.read(&line),
                FakeOutput::Stderr(line) => self.client.stderr_line(line),
                FakeOutput::Exit(code) => {
                    self.fake_exit = Some(code);
                    for id in self.client.runtime_gone(Some(code)) {
                        let error = self.client.closed_error().expect("closed");
                        self.outcomes.push((id, Err(error)));
                    }
                }
                FakeOutput::Sleep | FakeOutput::Hang => return,
            }
        }
    }

    /// Hands one line of the runtime to the client.
    fn read(&mut self, line: &str) {
        match self.client.receive(line) {
            Received::Nothing => {}
            Received::Completed { id, outcome } => self.outcomes.push((id, outcome)),
            Received::Requested => {
                while let Some(answer) = self.client.refuse_request() {
                    self.write(&answer);
                }
            }
            Received::Notification(notification) => self.client.deliver(notification, &vec![]),
        }
    }

    /// The outcome of a request that was just sent.
    fn outcome(&mut self, request: &OutgoingRequest) -> Result<Json, SdkError> {
        self.write(&request.line);
        let at = self
            .outcomes
            .iter()
            .position(|(id, _)| *id == request.id)
            .expect("the request has an outcome");
        self.outcomes.remove(at).1
    }

    fn initialize(&mut self) -> Result<Json, SdkError> {
        let request = self.client.initialize(&initialize_params())?;
        self.outcome(&request)
    }

    fn prompt(&mut self, session: &str) -> Result<String, SdkError> {
        let blocks = vec![json(r#"{"type": "text", "text": "hi"}"#)];
        let request = self.client.session_prompt(session, &blocks)?;
        read_prompt(self.outcome(&request))
    }

    fn next(&mut self, subscription: &mut NotificationSubscription) -> Notification {
        match self.client.next(subscription) {
            Delivery::Ready(notification) => notification,
            other => panic!("expected a notification, got {other:?}"),
        }
    }

    /// Climbs the whole shutdown ladder with a process that has exited by the time it is asked.
    fn close(&mut self) {
        let mut action = self.client.close();
        loop {
            action = match action {
                CloseAction::Nothing | CloseAction::Finished(_) => return,
                CloseAction::SendShutdown(request) => match self.outcome(&request) {
                    Ok(_) => self.client.close_step(CloseEvent::ShutdownAnswered),
                    Err(error) => self.client.close_step(CloseEvent::ShutdownFailed(error)),
                },
                CloseAction::CloseStdin(_) => self.client.close_step(CloseEvent::Exited(Some(0))),
                CloseAction::Terminate(_) | CloseAction::Kill => {
                    panic!("the runtime has exited")
                }
            };
        }
    }
}

#[test]
fn initialize_handshake_reports_server_info() {
    let mut world = World::start("basic");
    let result = read_handshake(&world.initialize().expect("initialize"));
    let info = result.server_info.expect("serverInfo present");
    assert_eq!(info.name.as_deref(), Some("deepseek-harness-sdk-runtime"));
    assert_eq!(info.version.as_deref(), Some("0.0.1"));
    world.close();
}

#[test]
fn prompt_returns_a_message_id() {
    let mut world = World::start("basic");
    let message_id = world.prompt("s1").expect("session_prompt");
    assert!(!message_id.is_empty());
    world.close();
}

#[test]
fn request_round_trips_through_echo() {
    let mut world = World::start("echo");
    let request = world
        .client
        .request("anything", Some(json(r#"{"key": [1, 2, 3]}"#)))
        .expect("request");
    assert_eq!(
        world.outcome(&request).expect("answer"),
        json(r#"{"key": [1, 2, 3]}"#)
    );
    world.close();
}

#[test]
fn request_before_start_fails_loud() {
    let mut client = HarnessClient::new(HarnessClientOptions::default());
    let error = client.request("anything", None).unwrap_err();
    assert!(matches!(error, SdkError::TransportClosed { .. }));
    assert_eq!(error.message(), "DeepSeek Harness runtime is not running");
    assert_eq!(client.notify("ping", None).unwrap_err(), error);
    assert_eq!(client.subscribe(NotificationFilter::All).unwrap_err(), error);
    assert_eq!(client.close(), CloseAction::Nothing);
}

#[test]
fn request_timeout_fires_after_the_deadline() {
    let options = HarnessClientOptions {
        request_timeout_nanos: Some(200_000_000),
        ..HarnessClientOptions::default()
    };
    let mut world = World::start_with("slow", options);
    let blocks = vec![json(r#"{"type": "text", "text": "hi"}"#)];
    let request = world.client.session_prompt("s1", &blocks).expect("prompt");
    assert_eq!(request.timeout, Some(200_000_000));
    world.write(&request.line);
    world.client.stderr_line("still thinking".to_string());
    let error = world.client.expire(&request.id, None).expect("timed out");
    assert!(matches!(error, SdkError::RequestTimeout { .. }));
    assert_eq!(
        error.message(),
        "session/prompt timed out waiting for DeepSeek Harness runtime\nstderr tail:\nstill thinking"
    );
    // The request is given up: neither a second deadline nor a late response finds it.
    assert_eq!(world.client.expire(&request.id, None), None);
    let late = format!(r#"{{"id": "{}", "result": {{}}}}"#, request.id);
    assert_eq!(world.client.receive(&late), Received::Nothing);
}

#[test]
fn per_call_timeout_override_replaces_the_config_for_one_request() {
    let options = HarnessClientOptions {
        request_timeout_nanos: Some(100),
        ..HarnessClientOptions::default()
    };
    let mut world = World::start_with("echo", options);
    let overridden = world
        .client
        .request_with_timeout("anything", None, Some(500))
        .expect("request");
    assert_eq!(overridden.timeout, Some(500));
    let kept = world
        .client
        .request_with_timeout("anything", None, None)
        .expect("request");
    assert_eq!(kept.timeout, Some(100));
}

#[test]
fn negative_timeouts_clamp_to_immediate() {
    let options = HarnessClientOptions {
        request_timeout_nanos: Some(-5),
        ..HarnessClientOptions::default()
    };
    let mut world = World::start_with("echo", options);
    let configured = world.client.request("anything", None).expect("request");
    assert_eq!(configured.timeout, Some(0));
    let named = world
        .client
        .request_with_timeout("anything", None, Some(i64::MIN))
        .expect("request");
    assert_eq!(named.timeout, Some(0));
}

#[test]
fn no_deadline_waits_indefinitely() {
    let mut world = World::start("echo");
    let request = world.client.request("anything", None).expect("request");
    assert_eq!(request.timeout, None);
}

#[test]
fn jsonrpc_error_preserves_code_and_data() {
    let mut world = World::start("error");
    match world.prompt("s1").unwrap_err() {
        SdkError::JsonRpcResponse {
            code,
            message,
            data,
        } => {
            assert_eq!(code, Some(-32603));
            assert_eq!(message, "boom");
            assert_eq!(data, Some(json(r#"{"detail": "fake runtime refused"}"#)));
        }
        other => panic!("expected JsonRpcResponse, got {other:?}"),
    }
    world.close();
}

#[test]
fn session_prompt_rejects_a_missing_message_id() {
    for response in ["{}", r#"{"messageId": 7}"#, "null"] {
        let error = read_prompt(Ok(json(response))).unwrap_err();
        assert_eq!(
            error,
            SdkError::Protocol {
                message: "session/prompt response requires a string messageId".to_string()
            }
        );
    }
    assert_eq!(
        read_prompt(Err(SdkError::NestedRuntime)),
        Err(SdkError::NestedRuntime)
    );
}

#[test]
fn transport_closed_reports_exit_code_and_stderr_tail() {
    let mut world = World::start("crash");
    world
        .initialize()
        .expect("initialize answered before the crash");
    let error = world.client.request("anything", None).unwrap_err();
    match &error {
        SdkError::TransportClosed {
            exit_code,
            stderr_tail,
            ..
        } => {
            assert_eq!(*exit_code, Some(7));
            assert!(stderr_tail
                .iter()
                .any(|line| line.contains("fake runtime stderr line one")));
        }
        other => panic!("expected TransportClosed, got {other:?}"),
    }
    assert_eq!(
        error.message(),
        "DeepSeek Harness runtime stdout closed\nexit code: 7\nstderr tail:\n\
         fake runtime stderr line one\nfake runtime stderr line two"
    );
}

#[test]
fn close_ladder_reaps_an_uncooperative_runtime() {
    let mut world = World::start("no-shutdown");
    world.initialize().expect("initialize");
    let request = match world.client.close() {
        CloseAction::SendShutdown(request) => request,
        other => panic!("expected a shutdown request, got {other:?}"),
    };
    assert_eq!(request.timeout, Some(1_000_000_000));
    world.outcome(&request).expect("shutdown answered");
    assert_eq!(world.fake_exit, None);
    assert_eq!(
        world.client.close_step(CloseEvent::ShutdownAnswered),
        CloseAction::CloseStdin(1_000_000_000)
    );
    assert_eq!(
        world.client.close_step(CloseEvent::StillRunning),
        CloseAction::Terminate(1_000_000_000)
    );
    assert_eq!(
        world.client.close_step(CloseEvent::StillRunning),
        CloseAction::Kill
    );
    assert_eq!(
        world.client.close_step(CloseEvent::Exited(None)),
        CloseAction::Finished(vec![])
    );
    assert_eq!(world.client.phase(), ClientPhase::Closed);
    // A closed client rejects further requests.
    let error = world.client.request("anything", None).unwrap_err();
    assert!(matches!(error, SdkError::TransportClosed { .. }));
    assert_eq!(
        error.message(),
        "DeepSeek Harness runtime closed\nstderr tail:\n\
         fake runtime got shutdown but refuses to exit"
    );
}

#[test]
fn close_is_idempotent_and_start_is_memoized() {
    let mut world = World::start("basic");
    assert!(!world.client.start(), "second start is a no-op");
    world.close();
    assert_eq!(world.client.phase(), ClientPhase::Closed);
    assert_eq!(world.client.close(), CloseAction::Nothing);
    assert!(!world.client.start());
    assert_eq!(world.client.phase(), ClientPhase::Closed);
}

#[test]
fn a_runtime_that_exits_after_its_stdin_ended_gets_no_signal() {
    let mut world = World::start("basic");
    let request = match world.client.close() {
        CloseAction::SendShutdown(request) => request,
        other => panic!("expected a shutdown request, got {other:?}"),
    };
    assert_eq!(request.id.len(), 36);
    world.outcome(&request).expect("shutdown answered");
    world.client.close_step(CloseEvent::ShutdownAnswered);
    assert_eq!(world.client.phase(), ClientPhase::Polling);
    assert_eq!(
        world.client.close_step(CloseEvent::Exited(Some(0))),
        CloseAction::Finished(vec![])
    );
}

#[test]
fn a_closed_client_stays_closed() {
    let mut world = World::start("basic");
    world.close();
    let error = world.client.closed_error();
    assert!(matches!(error, Some(SdkError::TransportClosed { .. })));
    world.client.stderr_line("late".to_string());
    world.client.runtime_gone(Some(3));
    assert_eq!(
        world.client.close_step(CloseEvent::Exited(Some(3))),
        CloseAction::Nothing
    );
    assert_eq!(world.client.closed_error(), error);
    assert_eq!(world.client.request("m", None).err(), error);
    assert_eq!(world.client.notify("m", None).err(), error);
    assert_eq!(
        world.client.subscribe_session_tree("s").err(),
        error
    );
}

#[test]
fn events_of_another_rung_change_nothing() {
    let mut world = World::start("basic");
    assert_eq!(
        world.client.close_step(CloseEvent::StillRunning),
        CloseAction::Nothing
    );
    assert_eq!(world.client.phase(), ClientPhase::Running);
    world.client.close();
    assert_eq!(
        world.client.close_step(CloseEvent::Exited(Some(0))),
        CloseAction::Nothing
    );
    assert_eq!(world.client.phase(), ClientPhase::ShuttingDown);
    assert_eq!(world.client.close(), CloseAction::Nothing);
}

#[test]
fn closing_fails_what_is_still_awaited() {
    let mut world = World::start("basic");
    let first = world.client.request("one", None).expect("request");
    let second = world.client.request("two", None).expect("request");
    let shutdown = match world.client.close() {
        CloseAction::SendShutdown(request) => request,
        other => panic!("expected a shutdown request, got {other:?}"),
    };
    let error = world.client.expire(&shutdown.id, None).expect("timed out");
    assert_eq!(
        world.client.close_step(CloseEvent::ShutdownFailed(error)),
        CloseAction::CloseStdin(1_000_000_000)
    );
    match world.client.close_step(CloseEvent::Unknown) {
        CloseAction::Finished(mut failed) => {
            failed.sort();
            let mut expected = vec![first.id, second.id];
            expected.sort();
            assert_eq!(failed, expected);
        }
        other => panic!("expected the end, got {other:?}"),
    }
    assert_eq!(
        world.client.closed_error().expect("closed").message(),
        "DeepSeek Harness runtime closed\nshutdown request failed: \
         shutdown timed out waiting for DeepSeek Harness runtime"
    );
    match world.client.closed_error() {
        Some(SdkError::TransportClosed { stderr_tail, .. }) => {
            assert_eq!(stderr_tail, Vec::<String>::new())
        }
        other => panic!("expected a closed transport, got {other:?}"),
    }
}

#[test]
fn closing_after_a_crash_keeps_the_first_error() {
    let mut world = World::start("crash");
    world.initialize().expect("initialize");
    let before = world.client.closed_error().expect("closed");
    assert_eq!(world.client.close(), CloseAction::CloseStdin(1_000_000_000));
    assert_eq!(
        world.client.close_step(CloseEvent::Exited(Some(7))),
        CloseAction::Finished(vec![])
    );
    assert_eq!(world.client.closed_error(), Some(before));
}

#[test]
fn a_failed_handshake_begins_to_close() {
    let mut world = World::start("basic");
    let refused = SdkError::JsonRpcResponse {
        code: Some(1),
        message: "no".to_string(),
        data: None,
    };
    let (result, action) = world.client.finish_initialize(Err(refused.clone()));
    assert_eq!(result, Err(refused));
    assert!(matches!(action, CloseAction::SendShutdown(_)));
    assert_eq!(world.client.phase(), ClientPhase::ShuttingDown);
}

#[test]
fn a_handshake_without_server_info_is_fine() {
    let mut world = World::start("basic");
    let (result, action) = world.client.finish_initialize(Ok(json("{}")));
    assert_eq!(result.expect("handshake").server_info, None);
    assert_eq!(action, CloseAction::Nothing);
    let info = read_handshake(&json(r#"{"serverInfo": {"name": 1}}"#));
    let server = info.server_info.expect("serverInfo");
    assert_eq!((server.name, server.version), (None, None));
}

#[test]
fn subscriptions_scope_to_the_session_tree() {
    let mut world = World::start("subagent");
    let root = "session-root";
    let mut tree = world
        .client
        .subscribe_session_tree(root)
        .expect("tree subscription");
    let mut unrelated = world
        .client
        .subscribe_session_tree("session-elsewhere")
        .expect("unrelated subscription");
    world.initialize().expect("initialize");
    world.prompt(root).expect("session_prompt");

    let mut methods = Vec::new();
    loop {
        let notification = world.next(&mut tree);
        methods.push(notification.method.clone());
        let idle = notification.method == "session.status"
            && notification.payload.get_str("sessionId") == Some(root)
            && notification.payload.get_str("status") == Some("idle");
        if idle {
            break;
        }
    }
    assert!(
        methods.iter().any(|m| m == "subagent.started"),
        "methods: {methods:?}"
    );
    assert!(
        methods.iter().any(|m| m == "subagent.finished"),
        "methods: {methods:?}"
    );
    assert!(
        methods.iter().any(|m| m == "session.event"),
        "methods: {methods:?}"
    );
    // Everything was of the tree, the child's own notifications with it.
    assert_eq!(methods.len(), 9);

    // The unrelated tree received nothing: every notification belonged to the root tree.
    assert_eq!(world.client.next(&mut unrelated), Delivery::Waiting);
    world.close();
}

#[test]
fn invalid_lines_are_ignored_and_valid_frames_delivered() {
    let mut world = World::start("invalid-lines");
    let mut subscription = world
        .client
        .subscribe(NotificationFilter::All)
        .expect("subscribe");
    world
        .initialize()
        .expect("initialize survived garbage lines");
    let notification = world.next(&mut subscription);
    assert_eq!(notification.method, "session.status");
    assert_eq!(world.client.next(&mut subscription), Delivery::Waiting);
    world.close();
}

#[test]
fn server_to_client_requests_answer_method_not_found() {
    // The fake exits 0 only when the client answered its request with -32601.
    let mut world = World::start("request-to-client");
    world.initialize().expect("initialize");
    assert_eq!(world.fake_exit, Some(0));
    world.close();
}

#[test]
fn a_refused_request_gets_its_own_id_back() {
    let mut world = World::start("basic");
    assert_eq!(world.client.refuse_request(), None);
    assert_eq!(
        world.client.receive(r#"{"id": 17, "method": "approval/ask"}"#),
        Received::Requested
    );
    let answer = world.client.refuse_request().expect("an answer");
    assert_eq!(
        json(&answer),
        json(
            r#"{"jsonrpc": "2.0", "id": 17, "error": {"code": -32601, "message": "Method not found"}}"#
        )
    );
    assert_eq!(world.client.refuse_request(), None);
}

#[test]
fn notify_sends_a_client_notification() {
    let mut world = World::start("basic");
    let line = world
        .client
        .notify("ping", Some(json(r#"{"n": 1}"#)))
        .expect("notify");
    assert_eq!(
        json(&line),
        json(r#"{"jsonrpc": "2.0", "method": "ping", "params": {"n": 1}}"#)
    );
    world.close();
}

#[test]
fn frames_with_invalid_ids_are_notifications_not_requests() {
    let mut world = World::start("basic");
    let mut all = world
        .client
        .subscribe(NotificationFilter::All)
        .expect("subscribe");
    world.read(r#"{"id": null, "method": "tick"}"#);
    world.read(r#"{"id": true, "method": "tick", "params": [1]}"#);
    assert_eq!(world.next(&mut all).method, "tick");
    assert_eq!(world.next(&mut all).payload, Json::empty_object());
    assert_eq!(world.client.refuse_request(), None);
    assert_eq!(world.client.receive(r#"{"id": null, "result": 1}"#), Received::Nothing);
}

#[test]
fn panicking_filters_are_contained_to_their_subscription() {
    let mut world = World::start("basic");
    let mut broken = world
        .client
        .subscribe(NotificationFilter::Custom)
        .expect("subscribe");
    let mut healthy = world
        .client
        .subscribe(NotificationFilter::Custom)
        .expect("subscribe");
    let tick = Notification {
        method: "tick".to_string(),
        payload: Json::empty_object(),
    };
    let said = vec![
        (broken.id, Judgement::Panicked("boom".to_string())),
        (healthy.id, Judgement::Match),
    ];
    world.client.deliver(tick.clone(), &said);
    world.client.deliver(tick.clone(), &said);
    let ended = SdkError::Protocol {
        message: "boom".to_string(),
    };
    assert_eq!(
        world.client.next(&mut broken),
        Delivery::Ended(ended.clone())
    );
    assert_eq!(world.client.next(&mut broken), Delivery::Ended(ended));
    assert_eq!(world.next(&mut healthy), tick);
    assert_eq!(world.next(&mut healthy), tick);
    assert_eq!(world.client.next(&mut healthy), Delivery::Waiting);
}

#[test]
fn queued_notifications_outlive_the_transport() {
    let mut world = World::start("basic");
    let mut all = world
        .client
        .subscribe(NotificationFilter::All)
        .expect("subscribe");
    world.read(r#"{"method": "one"}"#);
    world.read(r#"{"method": "two"}"#);
    world.client.runtime_gone(None);
    world.read(r#"{"method": "three"}"#);
    assert_eq!(world.next(&mut all).method, "one");
    assert_eq!(world.next(&mut all).method, "two");
    let error = world.client.closed_error().expect("closed");
    assert_eq!(world.client.next(&mut all), Delivery::Ended(error.clone()));
    assert_eq!(world.client.next(&mut all), Delivery::Ended(error.clone()));
    assert_eq!(
        world.client.subscribe(NotificationFilter::All),
        Err(error.clone())
    );
    assert_eq!(world.client.notify("ping", None), Err(error));
}

#[test]
fn an_ended_subscription_is_gone() {
    let mut world = World::start("basic");
    let mut all = world
        .client
        .subscribe(NotificationFilter::All)
        .expect("subscribe");
    let handle = NotificationSubscription { id: all.id };
    world.client.unsubscribe(handle);
    world.read(r#"{"method": "one"}"#);
    match world.client.next(&mut all) {
        Delivery::Ended(error) => {
            assert_eq!(error.message(), "DeepSeek Harness runtime closed")
        }
        other => panic!("expected the end, got {other:?}"),
    }
}

#[test]
fn the_stderr_tail_is_bounded() {
    let mut world = World::start("basic");
    for n in 0..STDERR_TAIL_LINES + 3 {
        world.client.stderr_line(format!("line {n}"));
    }
    world.client.runtime_gone(None);
    match world.client.closed_error() {
        Some(SdkError::TransportClosed { stderr_tail, .. }) => {
            assert_eq!(stderr_tail.len(), 400);
            assert_eq!(stderr_tail[0], "line 3");
            assert_eq!(stderr_tail[399], "line 402");
        }
        other => panic!("expected TransportClosed, got {other:?}"),
    }
}

#[test]
fn a_lost_writer_is_reported() {
    let mut world = World::start("basic");
    let request = world.client.request("anything", None).expect("request");
    assert_eq!(
        world.client.write_failed(&request.id).message(),
        "DeepSeek Harness runtime stdin closed"
    );
    assert_eq!(world.client.runtime_gone(None), Vec::<String>::new());
    assert_eq!(
        world.client.write_failed(&request.id).message(),
        "DeepSeek Harness runtime stdout closed"
    );
}

#[test]
fn the_handshake_carries_its_parameters() {
    let mut world = World::start("echo");
    let request = world
        .client
        .initialize(&initialize_params())
        .expect("initialize");
    let frame = json(&request.line);
    assert_eq!(frame.get_str("method"), Some("initialize"));
    assert_eq!(
        frame.get("params"),
        Some(&json(
            r#"{"cwd": "/work", "maxTokens": 100, "model": "test-model", "provider": "test-provider"}"#
        ))
    );
    let request = world
        .client
        .initialize(&InitializeParams {
            max_tokens: None,
            ..initialize_params()
        })
        .expect("initialize");
    assert_eq!(
        json(&request.line).get("params").and_then(|p| p.get("maxTokens")),
        None
    );
}

#[test]
fn a_prompt_carries_its_blocks_verbatim() {
    let mut world = World::start("echo");
    let blocks = vec![json(r#"{"type": "image", "data": "x"}"#), json("[1]")];
    let request = world.client.session_prompt("s1", &blocks).expect("prompt");
    assert_eq!(
        world.outcome(&request).expect("echoed"),
        json(r#"{"contentBlocks": [{"type": "image", "data": "x"}, [1]], "sessionId": "s1"}"#)
    );
}
