//! A scripted runtime: it speaks the protocol by one of several scenarios, for callers that want
//! to see the SDK at work without a real runtime.
//!
//! - `basic`: the happy path: receipt, assistant text, turn end, idle.
//! - `echo`: answer every request with its params.
//! - `slow`: wait before answering a prompt.
//! - `error`: answer a prompt with a JSON-RPC error that carries data.
//! - `crash`: write stderr lines and exit right after `initialize`.
//! - `no-shutdown`: never exit on `shutdown`; waits to be killed.
//! - `request-to-client`: send a server-to-client request and expect the method-not-found error.
//! - `subagent`: a child session's life around the happy path.
//! - `invalid-lines`: garbage lines, then one valid notification.
//! - `bad-turn-end`: a `turn/end` whose reason lacks a string `kind`.
//! - `no-assistant`: a settled turn with no assistant message.
//! - `env`: report the configuration that the environment names.

use vstd::prelude::*;
use vstd::string::*;

#[allow(unused_imports)]
use crate::api::{root_event, root_idle, text_block};
#[allow(unused_imports)]
use crate::client::NotificationView;
use crate::client::METHOD_NOT_FOUND;
#[allow(unused_imports)]
use crate::events::{committed_text, inbox_receipt, is_turn_end, reason_kind};
use crate::frames::{error_line, id_key, notification_line, request_line, response_line};
#[allow(unused_imports)]
use crate::frames::{carries_error, error_frame, key_of, notification_frame, request_frame, response_frame};
use crate::json::{parse_json, Json};
#[allow(unused_imports)]
use crate::json::{items_tree, opt_tree, JsonView, ParsedView};
#[allow(unused_imports)]
use crate::lineage::announced_edge;
use crate::text::{same_text, starts_with};
#[allow(unused_imports)]
use crate::text::{has_prefix, opt_text};
use crate::trusted::ident::new_simple_uuid;
#[allow(unused_imports)]
use crate::trusted::ident::simple_form;
#[allow(unused_imports)]
use crate::trusted::json::{integral_within, json_text, parsed_text, reader_depth};

verus! {

/// One thing that the scripted runtime does.
#[derive(Debug, PartialEq)]
pub enum FakeOutput {
    /// Write a line to stdout.
    Line(String),
    /// Write a line to stderr.
    Stderr(String),
    /// Wait for the configured delay.
    Sleep,
    /// Exit with this code.
    Exit(i32),
    /// Do nothing more, until killed.
    Hang,
}

/// The mathematical value of a [`FakeOutput`].
pub enum FakeOutputView {
    /// See [`FakeOutput::Line`].
    Line(Seq<char>),
    /// See [`FakeOutput::Stderr`].
    Stderr(Seq<char>),
    /// See [`FakeOutput::Sleep`].
    Sleep,
    /// See [`FakeOutput::Exit`].
    Exit(i32),
    /// See [`FakeOutput::Hang`].
    Hang,
}

impl View for FakeOutput {
    type V = FakeOutputView;

    open spec fn view(&self) -> FakeOutputView {
        match *self {
            FakeOutput::Line(line) => FakeOutputView::Line(line@),
            FakeOutput::Stderr(line) => FakeOutputView::Stderr(line@),
            FakeOutput::Sleep => FakeOutputView::Sleep,
            FakeOutput::Exit(code) => FakeOutputView::Exit(code),
            FakeOutput::Hang => FakeOutputView::Hang,
        }
    }
}

/// The contents of a sequence of outputs.
pub open spec fn output_views(outputs: Seq<FakeOutput>) -> Seq<FakeOutputView> {
    outputs.map_values(|output: FakeOutput| output@)
}

/// The output that writes a frame.
pub open spec fn frame_output(frame: JsonView) -> FakeOutputView {
    FakeOutputView::Line(json_text(frame))
}

/// The scenario: the first argument when it is no option, or else the environment's, or else
/// `basic`.
pub fn choose_scenario(argument: Option<String>, environment: Option<String>) -> (scenario: String)
    ensures
        scenario@ == (match (argument, environment) {
            (Some(argument), _) if !has_prefix(argument@, "--"@) => argument@,
            (_, Some(environment)) => environment@,
            _ => "basic"@,
        }),
{
    if let Some(argument) = argument {
        if !starts_with(argument.as_str(), "--") {
            return argument;
        }
    }
    match environment {
        Some(environment) => environment,
        None => "basic".to_owned(),
    }
}

/// A request as the scripted runtime reads it.
pub struct FakeRequest {
    /// The key of its id.
    pub id: Seq<char>,
    /// Its method.
    pub method: Seq<char>,
    /// Its params.
    pub params: Option<JsonView>,
}

/// The request that a line is: any object with an id and a method.
pub open spec fn fake_request(line: Seq<char>) -> Option<FakeRequest> {
    match parsed_text(line) {
        ParsedView::Tree(message) => match (message.field("id"@), message.text_field("method"@)) {
            (Some(id), Some(method)) => Some(
                FakeRequest { id: key_of(id), method, params: message.field("params"@) },
            ),
            _ => None,
        },
        ParsedView::Failure(_) => None,
    }
}

/// A `session.event` notification.
pub open spec fn event_note(session: Seq<char>, kind: Seq<char>, data: JsonView) -> FakeOutputView {
    frame_output(
        notification_frame(
            "session.event"@,
            Some(
                JsonView::empty_object().with("sessionId"@, JsonView::String(session)).with(
                    "event"@,
                    JsonView::empty_object().with("type"@, JsonView::String(kind)).with(
                        "data"@,
                        data,
                    ),
                ),
            ),
        ),
    )
}

/// The receipt of a message.
pub open spec fn receipt_note(session: Seq<char>, message: Seq<char>) -> FakeOutputView {
    event_note(
        session,
        "agent/inbox/spliced"@,
        JsonView::empty_object().with(
            "inserted"@,
            JsonView::Array(
                seq![JsonView::empty_object().with("id"@, JsonView::String(message))],
            ),
        ),
    )
}

/// An assistant message.
pub open spec fn assistant_note(session: Seq<char>, text: Seq<char>) -> FakeOutputView {
    event_note(
        session,
        "assistant/message"@,
        JsonView::empty_object().with(
            "message"@,
            JsonView::empty_object().with("content"@, JsonView::Array(seq![text_block(text)])),
        ),
    )
}

/// The end of a turn.
pub open spec fn turn_end_note(session: Seq<char>, reason: JsonView) -> FakeOutputView {
    event_note(session, "turn/end"@, JsonView::empty_object().with("reason"@, reason))
}

/// A reason of some kind.
pub open spec fn reason_of(kind: Seq<char>) -> JsonView {
    JsonView::empty_object().with("kind"@, JsonView::String(kind))
}

/// A `session.status` notification.
pub open spec fn status_note(session: Seq<char>, status: Seq<char>) -> FakeOutputView {
    frame_output(
        notification_frame(
            "session.status"@,
            Some(
                JsonView::empty_object().with("sessionId"@, JsonView::String(session)).with(
                    "status"@,
                    JsonView::String(status),
                ),
            ),
        ),
    )
}

/// The start of a child session.
pub open spec fn started_note(session: Seq<char>, child: Seq<char>) -> FakeOutputView {
    frame_output(
        notification_frame(
            "subagent.started"@,
            Some(
                JsonView::empty_object().with("parentSessionId"@, JsonView::String(session)).with(
                    "childSessionId"@,
                    JsonView::String(child),
                ),
            ),
        ),
    )
}

/// The end of a child session.
pub open spec fn finished_note(session: Seq<char>, child: Seq<char>) -> FakeOutputView {
    frame_output(
        notification_frame(
            "subagent.finished"@,
            Some(
                JsonView::empty_object().with("provider"@, JsonView::String("fake"@)).with(
                    "agentId"@,
                    JsonView::String(child),
                ).with("parentSessionId"@, JsonView::String(session)).with(
                    "childSessionId"@,
                    JsonView::String(child),
                ).with("status"@, JsonView::String("ok"@)).with(
                    "stopReason"@,
                    JsonView::String("end-turn"@),
                ).with(
                    "lastAssistantMessage"@,
                    JsonView::Array(seq![text_block("child result"@)]),
                ),
            ),
        ),
    )
}

/// The answer to a request.
pub open spec fn answer(id: Seq<char>, result: JsonView) -> FakeOutputView {
    frame_output(response_frame(JsonView::String(id), result))
}

/// The answer to a prompt: the id of the queued message.
pub open spec fn prompt_answer(id: Seq<char>, message: Seq<char>) -> FakeOutputView {
    answer(id, JsonView::empty_object().with("messageId"@, JsonView::String(message)))
}

/// The answer that reports an error.
pub open spec fn refusal(
    id: Seq<char>,
    code: i64,
    message: Seq<char>,
    data: Option<JsonView>,
) -> FakeOutputView {
    frame_output(error_frame(JsonView::String(id), code, message, data))
}

/// The params of a request, `null` where it has none.
pub open spec fn params_or_null(request: FakeRequest) -> JsonView {
    match request.params {
        Some(params) => params,
        None => JsonView::Null,
    }
}

/// What the scripted runtime does on `initialize`.
pub open spec fn on_initialize(
    scenario: Seq<char>,
    id: Seq<char>,
    config: Option<Seq<char>>,
) -> Seq<FakeOutputView> {
    let version = if scenario == "env"@ {
        match config {
            Some(config) => config,
            None => "unset"@,
        }
    } else {
        "0.0.1"@
    };
    let info = answer(
        id,
        JsonView::empty_object().with(
            "serverInfo"@,
            JsonView::empty_object().with(
                "name"@,
                JsonView::String("deepseek-harness-sdk-runtime"@),
            ).with("version"@, JsonView::String(version)),
        ),
    );
    if scenario == "crash"@ {
        seq![
            info,
            FakeOutputView::Stderr("fake runtime stderr line one"@),
            FakeOutputView::Stderr("fake runtime stderr line two"@),
            FakeOutputView::Exit(7),
        ]
    } else if scenario == "request-to-client"@ {
        seq![
            info,
            frame_output(
                request_frame("req-1"@, "approval/ask"@, Some(JsonView::empty_object())),
            ),
        ]
    } else if scenario == "invalid-lines"@ {
        seq![
            info,
            FakeOutputView::Line("not json at all"@),
            FakeOutputView::Line("{"@),
            FakeOutputView::Line(""@),
            status_note("s"@, "idle"@),
        ]
    } else {
        seq![info]
    }
}

/// The session that a prompt names.
pub open spec fn prompted_session(params: Option<JsonView>) -> Seq<char> {
    match params {
        Some(params) => match params.text_field("sessionId"@) {
            Some(session) => session,
            None => "s"@,
        },
        None => "s"@,
    }
}

/// What the scripted runtime does on `session/prompt`.
pub open spec fn on_prompt(
    scenario: Seq<char>,
    request: FakeRequest,
    message: Seq<char>,
    child: Seq<char>,
) -> Seq<FakeOutputView> {
    let id = request.id;
    let session = prompted_session(request.params);
    if scenario == "echo"@ {
        seq![answer(id, params_or_null(request))]
    } else if scenario == "slow"@ {
        seq![FakeOutputView::Sleep, prompt_answer(id, "msg-slow"@)]
    } else if scenario == "error"@ {
        seq![
            refusal(
                id,
                PROMPT_REFUSED,
                "boom"@,
                Some(
                    JsonView::empty_object().with(
                        "detail"@,
                        JsonView::String("fake runtime refused"@),
                    ),
                ),
            ),
        ]
    } else if scenario == "subagent"@ {
        seq![
            receipt_note(session, message),
            started_note(session, child),
            status_note(child, "running"@),
            assistant_note(child, "child work"@),
            finished_note(session, child),
            status_note(child, "idle"@),
            assistant_note(session, "hello from fake"@),
            turn_end_note(session, reason_of("max-tokens"@)),
            status_note(session, "idle"@),
            prompt_answer(id, message),
        ]
    } else if scenario == "bad-turn-end"@ {
        seq![
            receipt_note(session, message),
            turn_end_note(session, JsonView::Null),
            status_note(session, "idle"@),
            prompt_answer(id, message),
        ]
    } else if scenario == "no-assistant"@ {
        seq![
            receipt_note(session, message),
            turn_end_note(session, reason_of("ok"@)),
            status_note(session, "idle"@),
            prompt_answer(id, message),
        ]
    } else {
        seq![
            receipt_note(session, message),
            assistant_note(session, "hello from fake"@),
            turn_end_note(session, reason_of("max-tokens"@)),
            status_note(session, "idle"@),
            prompt_answer(id, message),
        ]
    }
}

/// What the scripted runtime does on `shutdown`.
pub open spec fn on_shutdown(scenario: Seq<char>, id: Seq<char>) -> Seq<FakeOutputView> {
    if scenario == "no-shutdown"@ {
        seq![
            FakeOutputView::Stderr("fake runtime got shutdown but refuses to exit"@),
            answer(id, JsonView::empty_object()),
            FakeOutputView::Hang,
        ]
    } else {
        seq![answer(id, JsonView::empty_object()), FakeOutputView::Exit(0)]
    }
}

/// What the scripted runtime does on a request.
pub open spec fn on_request(
    scenario: Seq<char>,
    request: FakeRequest,
    config: Option<Seq<char>>,
    message: Seq<char>,
    child: Seq<char>,
) -> Seq<FakeOutputView> {
    if request.method == "initialize"@ {
        on_initialize(scenario, request.id, config)
    } else if request.method == "session/prompt"@ {
        on_prompt(scenario, request, message, child)
    } else if request.method == "shutdown"@ {
        on_shutdown(scenario, request.id)
    } else if scenario == "echo"@ {
        seq![answer(request.id, params_or_null(request))]
    } else {
        seq![refusal(request.id, METHOD_NOT_FOUND, "unknown method"@, None)]
    }
}

/// The error code that a refused prompt is answered with.
pub const PROMPT_REFUSED: i64 = -32603;

/// The line answers a server-to-client request with the method-not-found error.
pub open spec fn is_method_not_found(line: Seq<char>) -> bool {
    match parsed_text(line) {
        ParsedView::Tree(message) => match message.field("error"@) {
            Some(error) => match error.field("code"@) {
                Some(code) => code.as_integer() == Some(METHOD_NOT_FOUND),
                None => false,
            },
            None => false,
        },
        ParsedView::Failure(_) => false,
    }
}

/// The list of one item.
fn list_of(item: Json) -> (list: Json)
    ensures
        list@ == JsonView::Array(seq![item@]),
{
    let mut items: Vec<Json> = Vec::new();
    items.push(item);
    assert(items_tree(items@) =~= seq![item@]);
    Json::Array(items)
}

/// Adds an output.
fn emit(outputs: &mut Vec<FakeOutput>, output: FakeOutput)
    ensures
        output_views(final(outputs)@) == output_views(old(outputs)@).push(output@),
{
    outputs.push(output);
    assert(output_views(outputs@) =~= output_views(old(outputs)@).push(output@));
}

/// Writes a `session.event` notification.
fn write_event(session: &str, kind: &str, data: Json) -> (output: FakeOutput)
    ensures
        output@ == event_note(session@, kind@, data@),
{
    let event = Json::empty_object().with("type", Json::text(kind)).with("data", data);
    let payload = Json::empty_object().with("sessionId", Json::text(session)).with("event", event);
    FakeOutput::Line(notification_line("session.event", Some(payload)))
}

/// Writes the receipt of a message.
fn write_receipt(session: &str, message: &str) -> (output: FakeOutput)
    ensures
        output@ == receipt_note(session@, message@),
{
    let inserted = list_of(Json::empty_object().with("id", Json::text(message)));
    write_event(
        session,
        "agent/inbox/spliced",
        Json::empty_object().with("inserted", inserted),
    )
}

/// A text content block.
fn make_block(text: &str) -> (block: Json)
    ensures
        block@ == text_block(text@),
{
    Json::empty_object().with("type", Json::text("text")).with("text", Json::text(text))
}

/// Writes an assistant message.
fn write_assistant(session: &str, text: &str) -> (output: FakeOutput)
    ensures
        output@ == assistant_note(session@, text@),
{
    let message = Json::empty_object().with("content", list_of(make_block(text)));
    write_event(session, "assistant/message", Json::empty_object().with("message", message))
}

/// Writes the end of a turn.
fn write_turn_end(session: &str, reason: Json) -> (output: FakeOutput)
    ensures
        output@ == turn_end_note(session@, reason@),
{
    write_event(session, "turn/end", Json::empty_object().with("reason", reason))
}

/// A reason of some kind.
fn make_reason(kind: &str) -> (reason: Json)
    ensures
        reason@ == reason_of(kind@),
{
    Json::empty_object().with("kind", Json::text(kind))
}

/// Writes a `session.status` notification.
fn write_status(session: &str, status: &str) -> (output: FakeOutput)
    ensures
        output@ == status_note(session@, status@),
{
    let payload = Json::empty_object().with("sessionId", Json::text(session)).with(
        "status",
        Json::text(status),
    );
    FakeOutput::Line(notification_line("session.status", Some(payload)))
}

/// Writes the start of a child session.
fn write_started(session: &str, child: &str) -> (output: FakeOutput)
    ensures
        output@ == started_note(session@, child@),
{
    let payload = Json::empty_object().with("parentSessionId", Json::text(session)).with(
        "childSessionId",
        Json::text(child),
    );
    FakeOutput::Line(notification_line("subagent.started", Some(payload)))
}

/// Writes the end of a child session.
fn write_finished(session: &str, child: &str) -> (output: FakeOutput)
    ensures
        output@ == finished_note(session@, child@),
{
    let payload = Json::empty_object().with("provider", Json::text("fake")).with(
        "agentId",
        Json::text(child),
    ).with("parentSessionId", Json::text(session)).with("childSessionId", Json::text(child)).with(
        "status",
        Json::text("ok"),
    ).with("stopReason", Json::text("end-turn")).with(
        "lastAssistantMessage",
        list_of(make_block("child result")),
    );
    FakeOutput::Line(notification_line("subagent.finished", Some(payload)))
}

/// Writes the answer to a request.
fn write_answer(id: &str, result: Json) -> (output: FakeOutput)
    ensures
        output@ == answer(id@, result@),
{
    FakeOutput::Line(response_line(&Json::text(id), result))
}

/// Writes the answer to a prompt.
fn write_prompt_answer(id: &str, message: &str) -> (output: FakeOutput)
    ensures
        output@ == prompt_answer(id@, message@),
{
    write_answer(id, Json::empty_object().with("messageId", Json::text(message)))
}

/// Writes the answer that reports an error.
fn write_refusal(id: &str, code: i64, message: &str, data: Option<Json>) -> (output: FakeOutput)
    ensures
        output@ == refusal(id@, code, message@, opt_tree(data)),
{
    FakeOutput::Line(error_line(&Json::text(id), code, message, data))
}

/// The scripted runtime.
pub struct FakeRuntime {
    scenario: String,
    asking: bool,
}

/// The mathematical value of a [`FakeRuntime`].
pub struct FakeRuntimeView {
    /// The scenario.
    pub scenario: Seq<char>,
    /// Whether the next line answers the runtime's own request.
    pub asking: bool,
}

impl View for FakeRuntime {
    type V = FakeRuntimeView;

    closed spec fn view(&self) -> FakeRuntimeView {
        FakeRuntimeView { scenario: self.scenario@, asking: self.asking }
    }
}

impl FakeRuntimeView {
    /// What the runtime does on a line, and what it is then.
    pub open spec fn on_line(
        self,
        line: Seq<char>,
        config: Option<Seq<char>>,
        message: Seq<char>,
        child: Seq<char>,
    ) -> (FakeRuntimeView, Seq<FakeOutputView>) {
        if self.asking {
            (
                self,
                seq![
                    FakeOutputView::Exit(
                        if is_method_not_found(line) {
                            0
                        } else {
                            3
                        },
                    ),
                ],
            )
        } else {
            match fake_request(line) {
                Some(request) => (
                    FakeRuntimeView {
                        asking: request.method == "initialize"@ && self.scenario
                            == "request-to-client"@,
                        ..self
                    },
                    on_request(self.scenario, request, config, message, child),
                ),
                None => (self, seq![]),
            }
        }
    }
}

impl FakeRuntime {
    /// A runtime that plays a scenario.
    pub fn new(scenario: &str) -> (runtime: Self)
        ensures
            runtime@ == (FakeRuntimeView { scenario: scenario@, asking: false }),
    {
        FakeRuntime { scenario: scenario.to_owned(), asking: false }
    }

    /// Whether this scenario is played.
    fn plays(&self, scenario: &str) -> (played: bool)
        ensures
            played == (self@.scenario == scenario@),
    {
        same_text(self.scenario.as_str(), scenario)
    }

    /// Takes one line of stdin, with fresh ids for the message and the child session that the
    /// answer may name.
    pub fn take(&mut self, line: &str, config: &Option<String>) -> (outputs: Vec<FakeOutput>)
        ensures
            exists|message: Seq<char>, random: Seq<char>|
                #![trigger simple_form(message), simple_form(random)]
                simple_form(message) && simple_form(random) && (
                    final(self)@,
                    output_views(outputs@),
                ) == old(self)@.on_line(
                    line@,
                    opt_text(*config),
                    message,
                    "session-child-"@ + random,
                ),
    {
        let message = new_simple_uuid();
        let random = new_simple_uuid();
        let mut child = "session-child-".to_owned();
        child.append(random.as_str());
        let outputs = self.take_as(line, config, message.as_str(), child.as_str());
        assert(simple_form(message@) && simple_form(random@));
        outputs
    }

    /// Takes one line of stdin, with given ids for the message and the child session that the
    /// answer may name. `config` is what the environment names as the configuration.
    pub fn take_as(&mut self, line: &str, config: &Option<String>, message: &str, child: &str) -> (outputs:
        Vec<FakeOutput>)
        ensures
            (final(self)@, output_views(outputs@)) == old(self)@.on_line(
                line@,
                opt_text(*config),
                message@,
                child@,
            ),
    {
        let mut outputs: Vec<FakeOutput> = Vec::new();
        assert(output_views(outputs@) =~= seq![]);
        let parsed = parse_json(line);
        if self.asking {
            let found = match parsed {
                Ok(reply) => is_not_found_reply(&reply),
                Err(_) => false,
            };
            emit(&mut outputs, FakeOutput::Exit(if found { 0 } else { 3 }));
            return outputs;
        }
        let request = match parsed {
            Ok(request) => request,
            Err(_) => return outputs,
        };
        let id = match request.get("id") {
            Some(id) => id_key(id),
            None => return outputs,
        };
        let method = match request.get_str("method") {
            Some(method) => method,
            None => return outputs,
        };
        let params = request.get("params");
        if same_text(method, "initialize") {
            self.initialize(id.as_str(), config, &mut outputs);
            self.asking = self.plays("request-to-client");
        } else if same_text(method, "session/prompt") {
            self.prompt(id.as_str(), params, message, child, &mut outputs);
        } else if same_text(method, "shutdown") {
            self.shutdown(id.as_str(), &mut outputs);
        } else if self.plays("echo") {
            emit(&mut outputs, write_answer(id.as_str(), copy_or_null(params)));
        } else {
            emit(
                &mut outputs,
                write_refusal(id.as_str(), METHOD_NOT_FOUND, "unknown method", None),
            );
        }
        outputs
    }

    /// Plays `initialize`.
    fn initialize(&self, id: &str, config: &Option<String>, outputs: &mut Vec<FakeOutput>)
        requires
            output_views(old(outputs)@) == Seq::<FakeOutputView>::empty(),
        ensures
            output_views(final(outputs)@) == on_initialize(
                self@.scenario,
                id@,
                opt_text(*config),
            ),
    {
        let version = if self.plays("env") {
            match config {
                Some(config) => config.clone(),
                None => "unset".to_owned(),
            }
        } else {
            "0.0.1".to_owned()
        };
        let info = Json::empty_object().with(
            "name",
            Json::text("deepseek-harness-sdk-runtime"),
        ).with("version", Json::String(version));
        emit(outputs, write_answer(id, Json::empty_object().with("serverInfo", info)));
        if self.plays("crash") {
            emit(outputs, FakeOutput::Stderr("fake runtime stderr line one".to_owned()));
            emit(outputs, FakeOutput::Stderr("fake runtime stderr line two".to_owned()));
            emit(outputs, FakeOutput::Exit(7));
        } else if self.plays("request-to-client") {
            let line = request_line("req-1", "approval/ask", Some(Json::empty_object()));
            emit(outputs, FakeOutput::Line(line));
        } else if self.plays("invalid-lines") {
            emit(outputs, FakeOutput::Line("not json at all".to_owned()));
            emit(outputs, FakeOutput::Line("{".to_owned()));
            emit(outputs, FakeOutput::Line("".to_owned()));
            emit(outputs, write_status("s", "idle"));
        }
        assert(output_views(outputs@) =~= on_initialize(self@.scenario, id@, opt_text(*config)));
    }

    /// Plays `session/prompt`.
    fn prompt(
        &self,
        id: &str,
        params: Option<&Json>,
        message: &str,
        child: &str,
        outputs: &mut Vec<FakeOutput>,
    )
        requires
            output_views(old(outputs)@) == Seq::<FakeOutputView>::empty(),
        ensures
            forall|method: Seq<char>|
                output_views(final(outputs)@) == #[trigger] on_prompt(
                    self@.scenario,
                    FakeRequest { id: id@, method, params: opt_ref_tree(params) },
                    message@,
                    child@,
                ),
    {
        let session = match params {
            Some(params) => match params.get_str("sessionId") {
                Some(session) => session,
                None => "s",
            },
            None => "s",
        };
        if self.plays("echo") {
            emit(outputs, write_answer(id, copy_or_null(params)));
        } else if self.plays("slow") {
            emit(outputs, FakeOutput::Sleep);
            emit(outputs, write_prompt_answer(id, "msg-slow"));
        } else if self.plays("error") {
            let data = Json::empty_object().with("detail", Json::text("fake runtime refused"));
            emit(outputs, write_refusal(id, PROMPT_REFUSED, "boom", Some(data)));
        } else if self.plays("subagent") {
            emit(outputs, write_receipt(session, message));
            emit(outputs, write_started(session, child));
            emit(outputs, write_status(child, "running"));
            emit(outputs, write_assistant(child, "child work"));
            emit(outputs, write_finished(session, child));
            emit(outputs, write_status(child, "idle"));
            emit(outputs, write_assistant(session, "hello from fake"));
            emit(outputs, write_turn_end(session, make_reason("max-tokens")));
            emit(outputs, write_status(session, "idle"));
            emit(outputs, write_prompt_answer(id, message));
        } else if self.plays("bad-turn-end") {
            emit(outputs, write_receipt(session, message));
            emit(outputs, write_turn_end(session, Json::Null));
            emit(outputs, write_status(session, "idle"));
            emit(outputs, write_prompt_answer(id, message));
        } else if self.plays("no-assistant") {
            emit(outputs, write_receipt(session, message));
            emit(outputs, write_turn_end(session, make_reason("ok")));
            emit(outputs, write_status(session, "idle"));
            emit(outputs, write_prompt_answer(id, message));
        } else {
            emit(outputs, write_receipt(session, message));
            emit(outputs, write_assistant(session, "hello from fake"));
            emit(outputs, write_turn_end(session, make_reason("max-tokens")));
            emit(outputs, write_status(session, "idle"));
            emit(outputs, write_prompt_answer(id, message));
        }
        assert forall|method: Seq<char>| output_views(outputs@) == #[trigger] on_prompt(
            self@.scenario,
            FakeRequest { id: id@, method, params: opt_ref_tree(params) },
            message@,
            child@,
        ) by {
            let request = FakeRequest { id: id@, method, params: opt_ref_tree(params) };
            assert(prompted_session(request.params) == session@);
            assert(output_views(outputs@) =~= on_prompt(
                self@.scenario,
                request,
                message@,
                child@,
            ));
        }
    }

    /// Plays `shutdown`.
    fn shutdown(&self, id: &str, outputs: &mut Vec<FakeOutput>)
        requires
            output_views(old(outputs)@) == Seq::<FakeOutputView>::empty(),
        ensures
            output_views(final(outputs)@) == on_shutdown(self@.scenario, id@),
    {
        if self.plays("no-shutdown") {
            emit(
                outputs,
                FakeOutput::Stderr("fake runtime got shutdown but refuses to exit".to_owned()),
            );
            emit(outputs, write_answer(id, Json::empty_object()));
            emit(outputs, FakeOutput::Hang);
        } else {
            emit(outputs, write_answer(id, Json::empty_object()));
            emit(outputs, FakeOutput::Exit(0));
        }
        assert(output_views(outputs@) =~= on_shutdown(self@.scenario, id@));
    }
}

/// The tree of an optional reference.
pub open spec fn opt_ref_tree(json: Option<&Json>) -> Option<JsonView> {
    match json {
        Some(json) => Some(json@),
        None => None,
    }
}

/// A copy of an optional value, `null` where there is none.
fn copy_or_null(json: Option<&Json>) -> (copy: Json)
    ensures
        copy@ == (match json {
            Some(json) => json@,
            None => JsonView::Null,
        }),
{
    match json {
        Some(json) => json.clone(),
        None => Json::Null,
    }
}

/// Whether a reply is the method-not-found error.
fn is_not_found_reply(reply: &Json) -> (found: bool)
    ensures
        found == (match reply@.field("error"@) {
            Some(error) => match error.field("code"@) {
                Some(code) => code.as_integer() == Some(METHOD_NOT_FOUND),
                None => false,
            },
            None => false,
        }),
{
    match reply.get("error") {
        Some(error) => match error.get("code") {
            Some(code) => match code.as_i64() {
                Some(n) => n == METHOD_NOT_FOUND,
                None => false,
            },
            None => false,
        },
        None => false,
    }
}

/// The line with which the client refuses a server-to-client request is one that the other side
/// recognizes as the method-not-found error, whatever the id of the request.
pub proof fn law_refusals_are_recognized(line: Seq<char>, id: JsonView, message: Seq<char>)
    requires
        carries_error(line, id, METHOD_NOT_FOUND, message, None),
        integral_within(error_frame(id, METHOD_NOT_FOUND, message, None), reader_depth()),
    ensures
        is_method_not_found(line),
{
    reveal_strlit("code");
    reveal_strlit("message");
    assert("code"@.len() == 4);
    assert("message"@.len() == 7);
}

/// The scenario is the first argument where that is no option, or else the one that the environment
/// names, or else the basic one.
pub proof fn law_the_scenario_is_the_first_named(
    argument: Option<String>,
    environment: Option<String>,
    scenario: String,
)
    requires
        call_ensures(choose_scenario, (argument, environment), scenario),
    ensures
        argument matches Some(named) ==> !has_prefix(named@, "--"@) ==> scenario@ == named@,
        (argument matches Some(named) ==> has_prefix(named@, "--"@)) ==> match environment {
            Some(named) => scenario@ == named@,
            None => scenario@ == "basic"@,
        },
{
}

/// The output writes a notification.
pub open spec fn notes(output: FakeOutputView, note: NotificationView) -> bool {
    output == FakeOutputView::Line(json_text(notification_frame(note.method, Some(note.payload))))
}

/// The names of the members that notes hold differ.
proof fn lemma_note_names()
    ensures
        "sessionId"@ != "event"@,
        "sessionId"@ != "status"@,
        "type"@ != "data"@,
        "type"@ != "text"@,
        "parentSessionId"@ != "childSessionId"@,
        "session.event"@ != "session.status"@,
{
    reveal_strlit("sessionId");
    reveal_strlit("event");
    reveal_strlit("status");
    reveal_strlit("type");
    reveal_strlit("data");
    reveal_strlit("text");
    reveal_strlit("parentSessionId");
    reveal_strlit("childSessionId");
    reveal_strlit("session.event");
    reveal_strlit("session.status");
    assert("sessionId"@.len() == 9);
    assert("event"@.len() == 5);
    assert("status"@.len() == 6);
    assert("type"@[0] == 't');
    assert("data"@[0] == 'd');
    assert("type"@[1] == 'y');
    assert("text"@[1] == 'e');
    assert("parentSessionId"@.len() == 15);
    assert("childSessionId"@.len() == 14);
    assert("session.event"@.len() == 13);
    assert("session.status"@.len() == 14);
}

/// The receipt that the scripted runtime writes is the receipt of that message on that session.
pub proof fn law_written_receipts_are_receipts(session: Seq<char>, message: Seq<char>)
    ensures
        exists|note: NotificationView| #[trigger]
            notes(receipt_note(session, message), note) && inbox_receipt(note, session, message),
{
    lemma_note_names();
    let item = JsonView::empty_object().with("id"@, JsonView::String(message));
    let data = JsonView::empty_object().with("inserted"@, JsonView::Array(seq![item]));
    let event = JsonView::empty_object().with(
        "type"@,
        JsonView::String("agent/inbox/spliced"@),
    ).with("data"@, data);
    let payload = JsonView::empty_object().with("sessionId"@, JsonView::String(session)).with(
        "event"@,
        event,
    );
    let note = NotificationView { method: "session.event"@, payload };
    assert(data.field("inserted"@) == Some(JsonView::Array(seq![item])));
    assert(seq![item][0].text_field("id"@) == Some(message));
    assert(notes(receipt_note(session, message), note));
}

/// The assistant message that the scripted runtime writes is an event of that session that commits
/// that text.
pub proof fn law_written_messages_commit_their_text(session: Seq<char>, text: Seq<char>)
    ensures
        exists|note: NotificationView| #[trigger]
            notes(assistant_note(session, text), note) && (root_event(note, session) matches Some(
                event,
            ) && committed_text(event) == Some(text)),
{
    lemma_note_names();
    let block = text_block(text);
    let message = JsonView::empty_object().with("content"@, JsonView::Array(seq![block]));
    let data = JsonView::empty_object().with("message"@, message);
    let event = JsonView::empty_object().with("type"@, JsonView::String("assistant/message"@)).with(
        "data"@,
        data,
    );
    let payload = JsonView::empty_object().with("sessionId"@, JsonView::String(session)).with(
        "event"@,
        event,
    );
    let note = NotificationView { method: "session.event"@, payload };
    crate::events::law_a_text_block_is_its_text(block->Object_0, block);
    assert(committed_text(event) == Some(text));
    assert(root_event(note, session) == Some(event));
    assert(notes(assistant_note(session, text), note));
}

/// The turn end that the scripted runtime writes is a turn end of that session with that reason.
pub proof fn law_written_turn_ends_have_their_reason(session: Seq<char>, reason: JsonView)
    ensures
        exists|note: NotificationView| #[trigger]
            notes(turn_end_note(session, reason), note) && (root_event(note, session)
                matches Some(event) && is_turn_end(event) && reason_kind(event)
                == reason.text_field("kind"@)),
        forall|kind: Seq<char>| (#[trigger] reason_of(kind)).text_field("kind"@) == Some(kind),
{
    lemma_note_names();
    let data = JsonView::empty_object().with("reason"@, reason);
    let event = JsonView::empty_object().with("type"@, JsonView::String("turn/end"@)).with(
        "data"@,
        data,
    );
    let payload = JsonView::empty_object().with("sessionId"@, JsonView::String(session)).with(
        "event"@,
        event,
    );
    let note = NotificationView { method: "session.event"@, payload };
    assert(root_event(note, session) == Some(event));
    assert(notes(turn_end_note(session, reason), note));
}

/// The status that the scripted runtime writes is the idle one exactly where it says `idle`.
pub proof fn law_written_statuses_say_their_status(session: Seq<char>, status: Seq<char>)
    ensures
        exists|note: NotificationView| #[trigger]
            notes(status_note(session, status), note) && (root_idle(note, session) <==> status
                == "idle"@) && note.payload.text_field("status"@) == Some(status),
{
    lemma_note_names();
    let payload = JsonView::empty_object().with("sessionId"@, JsonView::String(session)).with(
        "status"@,
        JsonView::String(status),
    );
    let note = NotificationView { method: "session.status"@, payload };
    assert(notes(status_note(session, status), note));
}

/// The start of a child that the scripted runtime writes announces the edge from the child to its
/// parent.
pub proof fn law_written_starts_announce_the_child(session: Seq<char>, child: Seq<char>)
    requires
        session.len() > 0,
        child.len() > 0,
        session != child,
    ensures
        exists|note: NotificationView| #[trigger]
            notes(started_note(session, child), note) && announced_edge(note) == Some(
                (child, session),
            ),
{
    lemma_note_names();
    let payload = JsonView::empty_object().with("parentSessionId"@, JsonView::String(session)).with(
        "childSessionId"@,
        JsonView::String(child),
    );
    let note = NotificationView { method: "subagent.started"@, payload };
    assert(notes(started_note(session, child), note));
}

/// The scripted runtime reads a request from any JSON object with an id and a string method, and
/// passes over every other line.
pub proof fn law_the_scripted_runtime_reads_requests(
    runtime: &mut FakeRuntime,
    line: &str,
    config: Option<String>,
    message: &str,
    child: &str,
    outputs: Vec<FakeOutput>,
)
    requires
        call_ensures(FakeRuntime::take_as, (runtime, line, &config, message, child), outputs),
        !old(runtime)@.asking,
    ensures
        parsed_text(line@) is Failure ==> outputs@.len() == 0 && final(runtime)@ == old(runtime)@,
        parsed_text(line@) matches ParsedView::Tree(tree) ==> tree.field("id"@) is None
            || tree.text_field("method"@) is None ==> outputs@.len() == 0 && final(runtime)@
            == old(runtime)@,
        parsed_text(line@) matches ParsedView::Tree(tree) ==> (tree.field("id"@) matches Some(id)
            ==> (tree.text_field("method"@) matches Some(method) ==> outputs@.len() > 0 && final(
            runtime
        )@.scenario == old(runtime)@.scenario && (final(runtime)@.asking <==> method
            == "initialize"@ && old(runtime)@.scenario == "request-to-client"@))),
{
    assert(output_views(outputs@).len() == outputs@.len());
}

/// A scripted runtime that has asked exits with the next line: well where that is the
/// method-not-found error, and with a failure otherwise.
pub proof fn law_the_scripted_runtime_expects_a_refusal(
    runtime: &mut FakeRuntime,
    line: &str,
    config: Option<String>,
    message: &str,
    child: &str,
    outputs: Vec<FakeOutput>,
    code: JsonView,
)
    requires
        call_ensures(FakeRuntime::take_as, (runtime, line, &config, message, child), outputs),
        old(runtime)@.asking,
    ensures
        outputs@.len() == 1,
        parsed_text(line@) matches ParsedView::Tree(tree) ==> (tree.field("error"@) matches Some(
            error,
        ) ==> error.field("code"@) == Some(code) ==> outputs@[0] == FakeOutput::Exit(
            if code.as_integer() == Some(METHOD_NOT_FOUND) {
                0
            } else {
                3
            },
        )),
        parsed_text(line@) is Failure ==> outputs@[0] == FakeOutput::Exit(3),
        final(runtime)@ == old(runtime)@,
{
    assert(output_views(outputs@).len() == outputs@.len());
    assert(output_views(outputs@)[0] == outputs@[0]@);
}

/// A scripted runtime shuts down with an answer and a clean exit, unless it is to refuse: then it
/// says so on stderr, answers, and does nothing more.
pub proof fn law_the_scripted_runtime_shuts_down(
    runtime: &mut FakeRuntime,
    line: &str,
    config: Option<String>,
    message: &str,
    child: &str,
    outputs: Vec<FakeOutput>,
    id: Seq<char>,
    params: Option<JsonView>,
)
    requires
        call_ensures(FakeRuntime::take_as, (runtime, line, &config, message, child), outputs),
        !old(runtime)@.asking,
        fake_request(line@) == Some(FakeRequest { id, method: "shutdown"@, params }),
    ensures
        ({
            let done = FakeOutputView::Line(
                json_text(
                    response_frame(JsonView::String(id), JsonView::Object(Map::empty())),
                ),
            );
            &&& old(runtime)@.scenario != "no-shutdown"@ ==> output_views(outputs@) == seq![
                done,
                FakeOutputView::Exit(0),
            ]
            &&& old(runtime)@.scenario == "no-shutdown"@ ==> output_views(outputs@) == seq![
                FakeOutputView::Stderr("fake runtime got shutdown but refuses to exit"@),
                done,
                FakeOutputView::Hang,
            ]
        }),
{
    reveal_strlit("shutdown");
    reveal_strlit("initialize");
    reveal_strlit("session/prompt");
    assert("shutdown"@.len() == 8);
    assert("initialize"@.len() == 10);
    assert("session/prompt"@.len() == 14);
}

/// The scripted turn: the receipt of the message, the assistant's text, the end of the turn and the
/// idle status of the prompted session, in this order, and then the answer with the message's id.
/// The life of a child, a turn end without a reason and a turn without a text vary it.
pub proof fn law_the_scripted_turn(
    runtime: &mut FakeRuntime,
    line: &str,
    config: Option<String>,
    message: &str,
    child: &str,
    outputs: Vec<FakeOutput>,
    id: Seq<char>,
    params: JsonView,
    session: Seq<char>,
)
    requires
        call_ensures(FakeRuntime::take_as, (runtime, line, &config, message, child), outputs),
        !old(runtime)@.asking,
        fake_request(line@) == Some(
            FakeRequest { id, method: "session/prompt"@, params: Some(params) },
        ),
        params.text_field("sessionId"@) == Some(session),
    ensures
        ({
            let wrote = output_views(outputs@);
            let queued = FakeOutputView::Line(
                json_text(
                    response_frame(
                        JsonView::String(id),
                        JsonView::empty_object().with("messageId"@, JsonView::String(message@)),
                    ),
                ),
            );
            &&& old(runtime)@.scenario == "basic"@ ==> wrote == seq![
                receipt_note(session, message@),
                assistant_note(session, "hello from fake"@),
                turn_end_note(session, reason_of("max-tokens"@)),
                status_note(session, "idle"@),
                queued,
            ]
            &&& old(runtime)@.scenario == "no-assistant"@ ==> wrote == seq![
                receipt_note(session, message@),
                turn_end_note(session, reason_of("ok"@)),
                status_note(session, "idle"@),
                queued,
            ]
            &&& old(runtime)@.scenario == "bad-turn-end"@ ==> wrote == seq![
                receipt_note(session, message@),
                turn_end_note(session, JsonView::Null),
                status_note(session, "idle"@),
                queued,
            ]
            &&& old(runtime)@.scenario == "subagent"@ ==> wrote.len() == 10 && wrote[0]
                == receipt_note(session, message@) && wrote[1] == started_note(session, child@)
                && wrote[2] == status_note(child@, "running"@) && wrote[3] == assistant_note(
                child@,
                "child work"@,
            ) && wrote[4] == finished_note(session, child@) && wrote[5] == status_note(
                child@,
                "idle"@,
            ) && wrote[6] == assistant_note(session, "hello from fake"@) && wrote[7]
                == turn_end_note(session, reason_of("max-tokens"@)) && wrote[8] == status_note(
                session,
                "idle"@,
            ) && wrote[9] == queued
            &&& old(runtime)@.scenario == "echo"@ ==> wrote == seq![
                FakeOutputView::Line(json_text(response_frame(JsonView::String(id), params))),
            ]
            &&& old(runtime)@.scenario == "slow"@ ==> wrote == seq![
                FakeOutputView::Sleep,
                FakeOutputView::Line(
                    json_text(
                        response_frame(
                            JsonView::String(id),
                            JsonView::empty_object().with(
                                "messageId"@,
                                JsonView::String("msg-slow"@),
                            ),
                        ),
                    ),
                ),
            ]
            &&& old(runtime)@.scenario == "error"@ ==> wrote.len() == 1 && wrote[0]
                == FakeOutputView::Line(
                json_text(
                    error_frame(
                        JsonView::String(id),
                        -32603i64,
                        "boom"@,
                        Some(
                            JsonView::empty_object().with(
                                "detail"@,
                                JsonView::String("fake runtime refused"@),
                            ),
                        ),
                    ),
                ),
            )
        }),
{
    reveal_strlit("initialize");
    reveal_strlit("session/prompt");
    assert("initialize"@.len() == 10);
    assert("session/prompt"@.len() == 14);
    reveal_strlit("basic");
    reveal_strlit("echo");
    reveal_strlit("slow");
    reveal_strlit("error");
    reveal_strlit("subagent");
    reveal_strlit("bad-turn-end");
    reveal_strlit("no-assistant");
    assert("basic"@[0] == 'b' && "basic"@.len() == 5);
    assert("echo"@[0] == 'e' && "echo"@.len() == 4);
    assert("slow"@[0] == 's' && "slow"@.len() == 4);
    assert("error"@[0] == 'e' && "error"@.len() == 5);
    assert("subagent"@[0] == 's' && "subagent"@.len() == 8);
    assert("bad-turn-end"@[0] == 'b' && "bad-turn-end"@.len() == 12);
    assert("no-assistant"@[0] == 'n' && "no-assistant"@.len() == 12);
}

/// A method that the scripted runtime does not know is answered with the method-not-found error, or
/// with its own params where everything is echoed.
pub proof fn law_unknown_methods_are_answered(
    runtime: &mut FakeRuntime,
    line: &str,
    config: Option<String>,
    message: &str,
    child: &str,
    outputs: Vec<FakeOutput>,
    id: Seq<char>,
    method: Seq<char>,
    params: Option<JsonView>,
)
    requires
        call_ensures(FakeRuntime::take_as, (runtime, line, &config, message, child), outputs),
        !old(runtime)@.asking,
        fake_request(line@) == Some(FakeRequest { id, method, params }),
        method != "initialize"@,
        method != "session/prompt"@,
        method != "shutdown"@,
    ensures
        old(runtime)@.scenario == "echo"@ ==> output_views(outputs@) == seq![
            FakeOutputView::Line(
                json_text(
                    response_frame(
                        JsonView::String(id),
                        match params {
                            Some(params) => params,
                            None => JsonView::Null,
                        },
                    ),
                ),
            ),
        ],
        old(runtime)@.scenario != "echo"@ ==> output_views(outputs@) == seq![
            FakeOutputView::Line(
                json_text(
                    error_frame(JsonView::String(id), METHOD_NOT_FOUND, "unknown method"@, None),
                ),
            ),
        ],
{
}

/// The scripted runtime answers the handshake with its name and a version, which the environment's
/// configuration stands in for where that is to be reported, and then plays its part: a crash, a
/// request of its own, or lines that are no frames.
pub proof fn law_the_scripted_handshake(
    runtime: &mut FakeRuntime,
    line: &str,
    config: Option<String>,
    message: &str,
    child: &str,
    outputs: Vec<FakeOutput>,
    id: Seq<char>,
    params: Option<JsonView>,
)
    requires
        call_ensures(FakeRuntime::take_as, (runtime, line, &config, message, child), outputs),
        !old(runtime)@.asking,
        fake_request(line@) == Some(FakeRequest { id, method: "initialize"@, params }),
    ensures
        ({
            let wrote = output_views(outputs@);
            let scenario = old(runtime)@.scenario;
            let version = if scenario != "env"@ {
                "0.0.1"@
            } else if config is Some {
                config->0@
            } else {
                "unset"@
            };
            &&& wrote.len() > 0
            &&& wrote[0] == FakeOutputView::Line(
                json_text(
                    response_frame(
                        JsonView::String(id),
                        JsonView::empty_object().with(
                            "serverInfo"@,
                            JsonView::empty_object().with(
                                "name"@,
                                JsonView::String("deepseek-harness-sdk-runtime"@),
                            ).with("version"@, JsonView::String(version)),
                        ),
                    ),
                ),
            )
            &&& scenario == "basic"@ || scenario == "env"@ ==> wrote.len() == 1
            &&& scenario == "crash"@ ==> wrote.len() == 4 && wrote[1] == FakeOutputView::Stderr(
                "fake runtime stderr line one"@,
            ) && wrote[2] == FakeOutputView::Stderr("fake runtime stderr line two"@) && wrote[3]
                == FakeOutputView::Exit(7)
            &&& scenario == "request-to-client"@ ==> wrote.len() == 2 && wrote[1]
                == FakeOutputView::Line(
                json_text(
                    request_frame(
                        "req-1"@,
                        "approval/ask"@,
                        Some(JsonView::Object(Map::empty())),
                    ),
                ),
            )
            &&& scenario == "invalid-lines"@ ==> wrote.len() == 5 && wrote[1]
                == FakeOutputView::Line("not json at all"@) && wrote[2] == FakeOutputView::Line(
                "{"@,
            ) && wrote[3] == FakeOutputView::Line(""@) && wrote[4] == status_note("s"@, "idle"@)
        }),
{
    reveal_strlit("basic");
    reveal_strlit("env");
    reveal_strlit("crash");
    reveal_strlit("request-to-client");
    reveal_strlit("invalid-lines");
    assert("basic"@[0] == 'b' && "basic"@.len() == 5);
    assert("env"@.len() == 3);
    assert("crash"@[0] == 'c' && "crash"@.len() == 5);
    assert("request-to-client"@.len() == 17);
    assert("invalid-lines"@.len() == 13);
}

/// A request is read with the key of its id, its method and its params as they came.
pub proof fn law_scripted_requests_are_read_whole(
    line: Seq<char>,
    tree: JsonView,
    id: JsonView,
    method: Seq<char>,
)
    requires
        parsed_text(line) == ParsedView::Tree(tree),
        tree.field("id"@) == Some(id),
        tree.field("method"@) == Some(JsonView::String(method)),
    ensures
        fake_request(line) matches Some(request) && request.method == method && request.params
            == tree.field("params"@) && (id matches JsonView::String(text) ==> request.id == text),
{
}

/// The end of a child that the scripted runtime writes names the parent, the child and how it ended.
pub proof fn law_written_ends_name_the_child(session: Seq<char>, child: Seq<char>)
    ensures
        exists|note: NotificationView| #[trigger]
            notes(finished_note(session, child), note) && note.method == "subagent.finished"@
                && note.payload.text_field("parentSessionId"@) == Some(session)
                && note.payload.text_field("childSessionId"@) == Some(child),
{
    lemma_note_names();
    reveal_strlit("status");
    reveal_strlit("stopReason");
    reveal_strlit("lastAssistantMessage");
    assert("stopReason"@.len() == 10);
    assert("lastAssistantMessage"@.len() == 20);
    let payload = JsonView::empty_object().with("provider"@, JsonView::String("fake"@)).with(
        "agentId"@,
        JsonView::String(child),
    ).with("parentSessionId"@, JsonView::String(session)).with(
        "childSessionId"@,
        JsonView::String(child),
    ).with("status"@, JsonView::String("ok"@)).with(
        "stopReason"@,
        JsonView::String("end-turn"@),
    ).with("lastAssistantMessage"@, JsonView::Array(seq![text_block("child result"@)]));
    let note = NotificationView { method: "subagent.finished"@, payload };
    assert("parentSessionId"@.len() == 15) by {
        reveal_strlit("parentSessionId");
    }
    assert("childSessionId"@.len() == 14) by {
        reveal_strlit("childSessionId");
    }
    assert("status"@.len() == 6);
    assert(notes(finished_note(session, child), note));
}

/// A scripted runtime plays its scenario from the start, with ids that it draws itself: a message id
/// of 32 digits, and a child session that is named after its kind.
pub proof fn law_a_scripted_runtime_draws_its_ids(
    scenario: &str,
    fresh: FakeRuntime,
    runtime: &mut FakeRuntime,
    line: &str,
    config: Option<String>,
    outputs: Vec<FakeOutput>,
)
    requires
        call_ensures(FakeRuntime::new, (scenario,), fresh),
        call_ensures(FakeRuntime::take, (runtime, line, &config), outputs),
    ensures
        fresh@.scenario == scenario@ && !fresh@.asking,
        exists|message: Seq<char>, random: Seq<char>|
            #![trigger simple_form(message), simple_form(random)]
            message.len() == 32 && random.len() == 32 && simple_form(message) && simple_form(random)
                && output_views(outputs@) == old(runtime)@.on_line(
                line@,
                opt_text(config),
                message,
                "session-child-"@ + random,
            ).1,
{
}

} // verus!
