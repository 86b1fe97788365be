//! The protocol client underneath the high-level API: how the runtime is launched, the
//! `initialize`, `session/prompt` and `shutdown` requests, subscriptions scoped to a session tree,
//! and the shutdown ladder.
//!
//! [`HarnessClient`] holds the state and decides. Spawning the runtime, its pipes, signals and
//! clocks are the caller's: the methods say what to do, and take in what came of it.

use std::path::PathBuf;

use vstd::prelude::*;
use vstd::string::*;

use crate::error::SdkError;
#[allow(unused_imports)]
use crate::error::{closed_view, opt_error, report, SdkErrorView};
#[allow(unused_imports)]
use crate::frames::{carries, carries_error, notification_frame, request_frame};
use crate::json::{copy_items, set_member, Json, JsonView};
#[allow(unused_imports)]
use crate::json::{items_tree, opt_tree};
use crate::lineage::Lineage;
#[allow(unused_imports)]
use crate::lineage::{ancestor, announced_edge, recorded};
#[allow(unused_imports)]
use crate::text::{opt_text, texts};
use crate::text_map::TextMap;
use crate::transport::{
    Delivery, Judgement, NotificationFilter, NotificationSubscription, OutgoingRequest, Peer,
    Received, RequestDelivery,
};
#[allow(unused_imports)]
use crate::transport::{
    frame_sent, judged, request_sent, DeliveryView, FilterView, InboxView, PeerView, ReceivedView,
    SubscriberView,
};
#[allow(unused_imports)]
use crate::trusted::json::natural_number;
#[allow(unused_imports)]
use crate::trusted::ident::hyphenated_form;
use crate::trusted::path::path_lossy;
#[allow(unused_imports)]
use crate::trusted::path::lossy_text;

verus! {

/// One server-to-client notification: the JSON-RPC method plus its payload object. Event payloads
/// pass through verbatim.
#[derive(Debug, PartialEq)]
pub struct Notification {
    /// JSON-RPC method name, e.g. `session.event`.
    pub method: String,
    /// Notification payload object; absent or non-object payloads read as `{}`.
    pub payload: Json,
}

/// The mathematical value of a [`Notification`].
pub struct NotificationView {
    /// JSON-RPC method name.
    pub method: Seq<char>,
    /// Notification payload.
    pub payload: JsonView,
}

impl View for Notification {
    type V = NotificationView;

    open spec fn view(&self) -> NotificationView {
        NotificationView { method: self.method@, payload: self.payload@ }
    }
}

impl Clone for Notification {
    fn clone(&self) -> (copy: Self)
        ensures
            copy@ == self@,
    {
        Notification { method: self.method.clone(), payload: self.payload.clone() }
    }
}

/// One server-to-client request.
#[derive(Debug, PartialEq)]
pub struct IncomingRequest {
    /// The id to answer with, as it came.
    pub id: Json,
    /// JSON-RPC method name.
    pub method: String,
    /// Request payload object; absent or non-object payloads read as `{}`.
    pub payload: Json,
}

/// The mathematical value of an [`IncomingRequest`].
pub struct IncomingRequestView {
    /// The id to answer with.
    pub id: JsonView,
    /// JSON-RPC method name.
    pub method: Seq<char>,
    /// Request payload.
    pub payload: JsonView,
}

impl View for IncomingRequest {
    type V = IncomingRequestView;

    open spec fn view(&self) -> IncomingRequestView {
        IncomingRequestView { id: self.id@, method: self.method@, payload: self.payload@ }
    }
}

/// Parameters for the process-wide `initialize` handshake.
#[derive(Debug, PartialEq)]
pub struct InitializeParams {
    /// Working directory recorded on every SDK-created session's header.
    pub cwd: PathBuf,
    /// Provider route every SDK-created agent runs on.
    pub provider: String,
    /// Model name every SDK-created agent runs on.
    pub model: String,
    /// Optional positive output-token cap for SDK-created agents.
    pub max_tokens: Option<u64>,
}

/// Wire-stable server identity returned by initialization.
#[derive(Debug, PartialEq)]
pub struct InitializeResult {
    /// `serverInfo` from the handshake response; `None` when the runtime omitted it.
    pub server_info: Option<ServerInfo>,
}

/// The `serverInfo` object of the initialize handshake.
#[derive(Debug, PartialEq)]
pub struct ServerInfo {
    /// Server identity; the protocol value is `deepseek-harness-sdk-runtime`.
    pub name: Option<String>,
    /// Server version.
    pub version: Option<String>,
}

/// How to launch the runtime subprocess and where its artifacts come from.
#[derive(Debug, PartialEq)]
pub struct HarnessClientOptions {
    /// Explicit launch command; the most explicit channel beside `args`.
    pub command: Option<String>,
    /// Arguments for the explicit `command`.
    pub args: Vec<String>,
    /// Explicit path of the single-file runtime executable.
    pub runtime_bin: Option<PathBuf>,
    /// Explicit argv tuple; wins over every other launch channel.
    pub launch_args_override: Option<Vec<String>>,
    /// Working directory of the spawned runtime.
    pub cwd: Option<PathBuf>,
    /// Extra environment entries, overlaid on the inherited environment.
    pub env: Option<TextMap<String>>,
    /// Request deadline in nanoseconds; `None` waits indefinitely, and a negative one has passed
    /// already.
    pub request_timeout_nanos: Option<i64>,
    /// Budget in nanoseconds for the protocol `shutdown` request and each wait in the
    /// stdin-EOF, SIGTERM, SIGKILL ladder. Default one second.
    pub shutdown_timeout_nanos: i64,
    /// PyPI-style index the downloader reads; default `https://pypi.org/pypi`.
    pub runtime_index_url: Option<String>,
    /// Runtime wheel version to download; default the crate version.
    pub runtime_version: Option<String>,
    /// Downloader cache directory; default the platform cache directory.
    pub runtime_cache_dir: Option<PathBuf>,
}

impl Default for HarnessClientOptions {
    fn default() -> (options: Self)
        ensures
            options.command is None,
            options.args@.len() == 0,
            options.runtime_bin is None,
            options.launch_args_override is None,
            options.cwd is None,
            options.env is None,
            options.request_timeout_nanos is None,
            options.shutdown_timeout_nanos == 1_000_000_000,
            options.runtime_index_url is None,
            options.runtime_version is None,
            options.runtime_cache_dir is None,
    {
        HarnessClientOptions {
            command: None,
            args: Vec::new(),
            runtime_bin: None,
            launch_args_override: None,
            cwd: None,
            env: None,
            request_timeout_nanos: None,
            shutdown_timeout_nanos: 1_000_000_000,
            runtime_index_url: None,
            runtime_version: None,
            runtime_cache_dir: None,
        }
    }
}

/// A timeout as a waiting time: a negative one waits no time at all.
pub open spec fn clamped(nanos: i64) -> u64 {
    if nanos < 0 {
        0
    } else {
        nanos as u64
    }
}

/// A timeout as a waiting time.
pub fn clamp_timeout(nanos: i64) -> (wait: u64)
    ensures
        wait == clamped(nanos),
{
    if nanos < 0 {
        0
    } else {
        nanos as u64
    }
}

/// An optional timeout as a waiting time.
pub open spec fn opt_clamped(nanos: Option<i64>) -> Option<u64> {
    match nanos {
        Some(nanos) => Some(clamped(nanos)),
        None => None,
    }
}

/// The JSON-RPC error code of a method that is not there.
pub const METHOD_NOT_FOUND: i64 = -32601;

/// How many of the last stderr lines are kept.
pub const STDERR_TAIL_LINES: usize = 400;

/// The last lines of a sequence, as many as are kept.
pub open spec fn last_lines(lines: Seq<Seq<char>>) -> Seq<Seq<char>> {
    if lines.len() > STDERR_TAIL_LINES {
        lines.skip(lines.len() - STDERR_TAIL_LINES)
    } else {
        lines
    }
}

/// Adds a line to the tail, and drops the oldest where there are too many.
fn push_line(tail: &mut Vec<String>, line: String)
    requires
        old(tail)@.len() <= STDERR_TAIL_LINES,
    ensures
        final(tail)@.len() <= STDERR_TAIL_LINES,
        texts(final(tail)@) == last_lines(texts(old(tail)@).push(line@)),
{
    let ghost before = tail@;
    tail.push(line);
    assert(texts(tail@) =~= texts(before).push(line@));
    if tail.len() > STDERR_TAIL_LINES {
        let ghost long = tail@;
        tail.remove(0);
        assert(texts(tail@) =~= texts(long).skip(1));
    }
}

/// Where in its life a client is.
#[derive(Debug, PartialEq, Eq, Clone, Copy, Structural)]
pub enum ClientPhase {
    /// The runtime has not been started.
    New,
    /// The runtime is attached.
    Running,
    /// Closing: the `shutdown` request awaits its response.
    ShuttingDown,
    /// Closing: stdin is closed, and the process is awaited.
    Polling,
    /// Closing: the process was told to terminate, and is awaited.
    Terminating,
    /// Closing: the process was killed, and is awaited.
    Killing,
    /// Closed, for good.
    Closed,
}

/// What the shutdown ladder is told.
#[derive(Debug, PartialEq)]
pub enum CloseEvent {
    /// The `shutdown` request got its response.
    ShutdownAnswered,
    /// The `shutdown` request failed.
    ShutdownFailed(SdkError),
    /// The process has exited, with this code where there is one.
    Exited(Option<i32>),
    /// The process is still running, or the wait for it ran out or failed.
    StillRunning,
    /// The process could not be asked.
    Unknown,
}

/// What the shutdown ladder wants done.
#[derive(Debug, PartialEq)]
pub enum CloseAction {
    /// Nothing.
    Nothing,
    /// Send the `shutdown` request and report what came of it.
    SendShutdown(OutgoingRequest),
    /// Close stdin, wait this many nanoseconds for the process to exit, and report.
    CloseStdin(u64),
    /// Send SIGTERM, wait this many nanoseconds, and report.
    Terminate(u64),
    /// Send SIGKILL, wait, and report.
    Kill,
    /// The client is closed; the requests with these ids fail with the closing error.
    Finished(Vec<String>),
}

/// What a [`HarnessClient`] holds.
pub struct ClientView {
    /// How the runtime is launched.
    pub options: HarnessClientOptions,
    /// Where in its life the client is.
    pub phase: ClientPhase,
    /// The transport, once the runtime is attached.
    pub peer: Option<PeerView>,
    /// The parent of each session that a `subagent.started` notification announced.
    pub parents: Map<Seq<char>, Seq<char>>,
    /// Every line that the runtime has written to its stderr.
    pub stderr: Seq<Seq<char>>,
    /// Why the `shutdown` request failed, if it did.
    pub shutdown_failure: Option<Seq<char>>,
}

/// The error reports a closed transport, and its tail is what the last lines of this stderr were
/// at some time.
pub open spec fn closing_report(error: SdkErrorView, stderr: Seq<Seq<char>>) -> bool {
    error matches SdkErrorView::TransportClosed { stderr_tail, .. } && exists|n: int|
        0 <= n <= stderr.len() && stderr_tail == last_lines(#[trigger] stderr.take(n))
}

impl ClientView {
    /// What every reachable state satisfies: the transport exists from the start of the runtime
    /// on, it is closed at the end, and what closes it is the report of a closed transport.
    pub open spec fn consistent(self) -> bool {
        &&& self.phase is New <==> self.peer is None
        &&& self.peer matches Some(peer) ==> peer.consistent()
        &&& self.phase is Closed ==> self.peer->0.closed is Some
        &&& self.peer matches Some(peer) ==> (peer.closed matches Some(error)
            ==> closing_report(error, self.stderr))
    }

    /// The last lines of the runtime's stderr.
    pub open spec fn stderr_tail(self) -> Seq<Seq<char>> {
        last_lines(self.stderr)
    }

    /// The reason that closing the client reports: that it is closed, and that the `shutdown`
    /// request failed where it did.
    pub open spec fn closing_reason(self) -> Seq<char> {
        match self.shutdown_failure {
            Some(failure) => "DeepSeek Harness runtime closed\nshutdown request failed: "@ + failure,
            None => "DeepSeek Harness runtime closed"@,
        }
    }

    /// The error of a use before the runtime is started.
    pub open spec fn not_running() -> SdkErrorView {
        closed_view("DeepSeek Harness runtime is not running"@, None, seq![])
    }

    /// The error that refuses every use: before the start that nothing runs, and after that the
    /// one that closed the transport, if any did.
    pub open spec fn refusal(self) -> Option<SdkErrorView> {
        match self.peer {
            None => Some(ClientView::not_running()),
            Some(peer) => peer.closed,
        }
    }

    /// The state with another transport state.
    pub open spec fn with_peer(self, peer: PeerView) -> ClientView {
        ClientView { peer: Some(peer), ..self }
    }

    /// The state with one more stderr line.
    pub open spec fn with_line(self, line: Seq<char>) -> ClientView {
        ClientView { stderr: self.stderr.push(line), ..self }
    }

    /// The transport closed for a reason, with the exit code and the stderr tail.
    pub open spec fn failed(self, reason: Seq<char>, exit_code: Option<i32>) -> ClientView {
        match self.peer {
            Some(peer) => self.with_peer(
                peer.failed(closed_view(reason, exit_code, self.stderr_tail())),
            ),
            None => self,
        }
    }
}

/// The protocol client.
pub struct HarnessClient {
    options: HarnessClientOptions,
    phase: ClientPhase,
    peer: Option<Peer>,
    lineage: Lineage,
    stderr_tail: Vec<String>,
    stderr: Ghost<Seq<Seq<char>>>,
    shutdown_failure: Option<String>,
}

impl View for HarnessClient {
    type V = ClientView;

    closed spec fn view(&self) -> ClientView {
        ClientView {
            options: self.options,
            phase: self.phase,
            peer: match self.peer {
                Some(peer) => Some(peer@),
                None => None,
            },
            parents: self.lineage@,
            stderr: self.stderr@,
            shutdown_failure: opt_text(self.shutdown_failure),
        }
    }
}

/// What was decided of a request to send: refused before the start and on a closed transport, and
/// awaited otherwise.
pub open spec fn client_request_sent(
    before: ClientView,
    after: ClientView,
    method: Seq<char>,
    params: Option<JsonView>,
    timeout: Option<u64>,
    result: Result<OutgoingRequest, SdkError>,
) -> bool {
    match before.peer {
        None => result matches Err(error) && error@ == ClientView::not_running() && after == before,
        Some(peer) => after.peer matches Some(sent) && after == before.with_peer(sent)
            && request_sent(peer, sent, method, params, timeout, result) && (result matches Ok(
            request,
        ) ==> hyphenated_form(request.id@)),
    }
}

/// The deadline of a request: the one named for it, or else the configured one. A negative one
/// has passed already.
pub open spec fn deadline(options: HarnessClientOptions, timeout: Option<i64>) -> Option<u64> {
    match timeout {
        Some(nanos) => Some(clamped(nanos)),
        None => opt_clamped(options.request_timeout_nanos),
    }
}

/// The error of a use before the runtime is started.
fn not_running_error() -> (error: SdkError)
    ensures
        error@ == ClientView::not_running(),
{
    let tail: Vec<String> = Vec::new();
    assert(texts(tail@) =~= seq![]);
    SdkError::transport_closed("DeepSeek Harness runtime is not running", None, &tail)
}

impl HarnessClient {
    /// The state is one that the methods lead to.
    pub closed spec fn wf(self) -> bool {
        &&& self.peer matches Some(peer) ==> peer.wf()
        &&& texts(self.stderr_tail@) == last_lines(self.stderr@)
        &&& self@.consistent()
    }

    /// A client for the given launch options, which has started nothing.
    pub fn new(options: HarnessClientOptions) -> (client: Self)
        ensures
            client.wf(),
            client@ == (ClientView {
                options,
                phase: ClientPhase::New,
                peer: None,
                parents: Map::empty(),
                stderr: seq![],
                shutdown_failure: None,
            }),
    {
        let client = HarnessClient {
            options,
            phase: ClientPhase::New,
            peer: None,
            lineage: Lineage::new(),
            stderr_tail: Vec::new(),
            stderr: Ghost(Seq::empty()),
            shutdown_failure: None,
        };
        assert(texts(client.stderr_tail@) =~= seq![]);
        client
    }

    /// The launch options.
    pub fn options(&self) -> (options: &HarnessClientOptions)
        ensures
            *options == self@.options,
    {
        &self.options
    }

    /// Where in its life the client is.
    pub fn phase(&self) -> (phase: ClientPhase)
        ensures
            phase == self@.phase,
    {
        self.phase
    }

    /// Attaches the transport of a runtime that was just spawned. `false` when one is attached
    /// already: a concurrent start won, and the duplicate process is to be reaped.
    pub fn start(&mut self) -> (attached: bool)
        requires
            old(self).wf(),
        ensures
            final(self).wf(),
            attached == (old(self)@.phase is New),
            final(self)@ == (if old(self)@.phase is New {
                ClientView {
                    phase: ClientPhase::Running,
                    peer: Some(
                        PeerView::fresh(opt_clamped(old(self)@.options.request_timeout_nanos)),
                    ),
                    ..old(self)@
                }
            } else {
                old(self)@
            }),
    {
        if self.peer.is_some() {
            return false;
        }
        let timeout: Option<u64> = match self.options.request_timeout_nanos {
            Some(nanos) => Some(clamp_timeout(nanos)),
            None => None,
        };
        let peer = Peer::new(timeout);
        proof {
            crate::transport::law_reachable_states_are_consistent(peer);
        }
        self.peer = Some(peer);
        self.phase = ClientPhase::Running;
        true
    }

    /// Sends a request, with the configured deadline.
    pub fn request(&mut self, method: &str, params: Option<Json>) -> (result: Result<
        OutgoingRequest,
        SdkError,
    >)
        requires
            old(self).wf(),
        ensures
            final(self).wf(),
            client_request_sent(
                old(self)@,
                final(self)@,
                method@,
                opt_tree(params),
                deadline(old(self)@.options, None),
                result,
            ),
    {
        self.request_with_timeout(method, params, None)
    }

    /// Sends a request, with a deadline of its own in nanoseconds; `None` keeps the configured
    /// one.
    pub fn request_with_timeout(
        &mut self,
        method: &str,
        params: Option<Json>,
        timeout_nanos: Option<i64>,
    ) -> (result: Result<OutgoingRequest, SdkError>)
        requires
            old(self).wf(),
        ensures
            final(self).wf(),
            client_request_sent(
                old(self)@,
                final(self)@,
                method@,
                opt_tree(params),
                deadline(old(self)@.options, timeout_nanos),
                result,
            ),
    {
        let timeout: Option<u64> = match timeout_nanos {
            Some(nanos) => Some(clamp_timeout(nanos)),
            None => match self.options.request_timeout_nanos {
                Some(nanos) => Some(clamp_timeout(nanos)),
                None => None,
            },
        };
        self.send_request(method, params, timeout)
    }

    /// Sends a request, with a given waiting time.
    fn send_request(&mut self, method: &str, params: Option<Json>, timeout: Option<u64>) -> (result:
        Result<OutgoingRequest, SdkError>)
        requires
            old(self).wf(),
        ensures
            final(self).wf(),
            client_request_sent(
                old(self)@,
                final(self)@,
                method@,
                opt_tree(params),
                timeout,
                result,
            ),
    {
        match &mut self.peer {
            Some(peer) => {
                let result = peer.request_with_timeout(method, params, timeout);
                proof {
                    crate::transport::law_reachable_states_are_consistent(*peer);
                }
                result
            },
            None => Err(not_running_error()),
        }
    }
}

/// The params of the `initialize` request.
pub open spec fn initialize_payload(
    cwd: PathBuf,
    provider: Seq<char>,
    model: Seq<char>,
    max_tokens: Option<u64>,
) -> JsonView {
    let members = Map::<Seq<char>, JsonView>::empty().insert(
        "cwd"@,
        JsonView::String(lossy_text(cwd)),
    ).insert("provider"@, JsonView::String(provider)).insert("model"@, JsonView::String(model));
    JsonView::Object(
        match max_tokens {
            Some(tokens) => members.insert(
                "maxTokens"@,
                JsonView::Number(natural_number(tokens)),
            ),
            None => members,
        },
    )
}

/// The params of the `session/prompt` request.
pub open spec fn prompt_payload(session_id: Seq<char>, blocks: Seq<JsonView>) -> JsonView {
    JsonView::Object(
        Map::<Seq<char>, JsonView>::empty().insert("sessionId"@, JsonView::String(session_id)).insert(
            "contentBlocks"@,
            JsonView::Array(blocks),
        ),
    )
}

/// A handshake result says what the response says: the server's name and version, where the
/// response has them as strings.
pub open spec fn reports(result: InitializeResult, response: JsonView) -> bool {
    match (response.field("serverInfo"@), result.server_info) {
        (Some(info), Some(server)) => opt_text(server.name) == info.text_field("name"@)
            && opt_text(server.version) == info.text_field("version"@),
        (None, None) => true,
        _ => false,
    }
}

/// A string member, copied.
fn copy_text_field(json: &Json, key: &str) -> (text: Option<String>)
    ensures
        opt_text(text) == json@.text_field(key@),
{
    match json.get_str(key) {
        Some(text) => Some(text.to_owned()),
        None => None,
    }
}

/// Reads the response to the `initialize` request.
pub fn read_handshake(response: &Json) -> (result: InitializeResult)
    ensures
        reports(result, response@),
{
    InitializeResult {
        server_info: match response.get("serverInfo") {
            Some(info) => Some(
                ServerInfo {
                    name: copy_text_field(info, "name"),
                    version: copy_text_field(info, "version"),
                },
            ),
            None => None,
        },
    }
}

/// The queued message id that the outcome of a `session/prompt` request gives.
pub fn read_prompt(outcome: Result<Json, SdkError>) -> (result: Result<String, SdkError>)
    ensures
        match (outcome, result) {
            (Ok(response), Ok(id)) => response@.text_field("messageId"@) == Some(id@),
            (Ok(response), Err(error)) => response@.text_field("messageId"@) is None && error@ == (
            SdkErrorView::Protocol {
                message: "session/prompt response requires a string messageId"@,
            }),
            (Err(failure), result) => result matches Err(error) && error@ == failure@,
        },
{
    let response = match outcome {
        Ok(response) => response,
        Err(error) => return Err(error),
    };
    match copy_text_field(&response, "messageId") {
        Some(id) => Ok(id),
        None => Err(SdkError::protocol("session/prompt response requires a string messageId")),
    }
}

impl HarnessClient {
    /// Sends the process-wide handshake. The working directory is sent as it is given, so it is to
    /// be resolved before.
    pub fn initialize(&mut self, params: &InitializeParams) -> (result: Result<
        OutgoingRequest,
        SdkError,
    >)
        requires
            old(self).wf(),
        ensures
            final(self).wf(),
            client_request_sent(
                old(self)@,
                final(self)@,
                "initialize"@,
                Some(
                    initialize_payload(
                        params.cwd,
                        params.provider@,
                        params.model@,
                        params.max_tokens,
                    ),
                ),
                deadline(old(self)@.options, None),
                result,
            ),
    {
        let mut members: Vec<(String, Json)> = Vec::new();
        set_member(&mut members, "cwd", Json::String(path_lossy(&params.cwd)));
        set_member(&mut members, "provider", Json::text(params.provider.as_str()));
        set_member(&mut members, "model", Json::text(params.model.as_str()));
        if let Some(tokens) = params.max_tokens {
            set_member(&mut members, "maxTokens", Json::natural(tokens));
        }
        self.request("initialize", Some(Json::Object(members)))
    }

    /// Takes the outcome of the handshake. A failed one begins to close the client.
    pub fn finish_initialize(&mut self, outcome: Result<Json, SdkError>) -> (result: (
        Result<InitializeResult, SdkError>,
        CloseAction,
    ))
        requires
            old(self).wf(),
        ensures
            final(self).wf(),
            match outcome {
                Ok(response) => {
                    &&& result.0 matches Ok(info) && reports(info, response@)
                    &&& result.1 is Nothing
                    &&& final(self)@ == old(self)@
                },
                Err(error) => {
                    &&& result.0 matches Err(failure) && failure@ == error@
                    &&& close_begun(old(self)@, final(self)@, result.1)
                },
            },
    {
        match outcome {
            Ok(response) => (Ok(read_handshake(&response)), CloseAction::Nothing),
            Err(error) => {
                let action = self.close();
                (Err(error), action)
            },
        }
    }

    /// Enqueues one prompt on one session. [`read_prompt`] reads the outcome.
    pub fn session_prompt(&mut self, session_id: &str, content_blocks: &Vec<Json>) -> (result:
        Result<OutgoingRequest, SdkError>)
        requires
            old(self).wf(),
        ensures
            final(self).wf(),
            client_request_sent(
                old(self)@,
                final(self)@,
                "session/prompt"@,
                Some(prompt_payload(session_id@, items_tree(content_blocks@))),
                deadline(old(self)@.options, None),
                result,
            ),
    {
        let mut members: Vec<(String, Json)> = Vec::new();
        set_member(&mut members, "sessionId", Json::text(session_id));
        set_member(&mut members, "contentBlocks", Json::Array(copy_items(content_blocks)));
        self.request("session/prompt", Some(Json::Object(members)))
    }

    /// Sends one notification to the runtime.
    pub fn notify(&self, method: &str, params: Option<Json>) -> (result: Result<String, SdkError>)
        requires
            self.wf(),
        ensures
            client_frame_sent(self@, notification_frame(method@, opt_tree(params)), result),
    {
        match &self.peer {
            Some(peer) => peer.notify(method, params),
            None => Err(not_running_error()),
        }
    }

    /// Whether there is an id left for another subscription.
    pub fn has_room(&self) -> (room: bool)
        ensures
            room == (self@.peer matches Some(peer) ==> peer.next_id < u64::MAX),
    {
        match &self.peer {
            Some(peer) => peer.has_room(),
            None => true,
        }
    }

    /// Subscribes to the notifications that a filter accepts.
    pub fn subscribe(&mut self, filter: NotificationFilter) -> (result: Result<
        NotificationSubscription,
        SdkError,
    >)
        requires
            old(self).wf(),
            old(self)@.peer matches Some(peer) ==> peer.next_id < u64::MAX,
        ensures
            final(self).wf(),
            client_subscribed(old(self)@, final(self)@, filter@, result),
    {
        match &mut self.peer {
            Some(peer) => {
                let result = peer.subscribe(filter);
                proof {
                    crate::transport::law_reachable_states_are_consistent(*peer);
                }
                result
            },
            None => Err(not_running_error()),
        }
    }

    /// Subscribes to one session plus every descendant discovered from `subagent.started`
    /// lineage edges.
    pub fn subscribe_session_tree(&mut self, session_id: &str) -> (result: Result<
        NotificationSubscription,
        SdkError,
    >)
        requires
            old(self).wf(),
            old(self)@.peer matches Some(peer) ==> peer.next_id < u64::MAX,
        ensures
            final(self).wf(),
            client_subscribed(
                old(self)@,
                final(self)@,
                FilterView::SessionTree(session_id@),
                result,
            ),
    {
        self.subscribe(NotificationFilter::SessionTree(session_id.to_owned()))
    }

    /// Ends a subscription.
    pub fn unsubscribe(&mut self, subscription: NotificationSubscription)
        requires
            old(self).wf(),
        ensures
            final(self).wf(),
            final(self)@ == (match old(self)@.peer {
                Some(peer) => old(self)@.with_peer(peer.unsubscribed(subscription.id)),
                None => old(self)@,
            }),
    {
        if let Some(peer) = &mut self.peer {
            peer.unsubscribe(subscription.id);
            proof {
                crate::transport::law_reachable_states_are_consistent(*peer);
            }
        }
    }

    /// Takes from a subscription: its oldest notification, and its terminal error once there is
    /// none.
    pub fn next(&mut self, subscription: &mut NotificationSubscription) -> (delivery: Delivery)
        requires
            old(self).wf(),
        ensures
            final(self).wf(),
            final(subscription).id == old(subscription).id,
            match old(self)@.peer {
                Some(peer) => delivery@ == peer.front(old(subscription).id) && final(self)@ == old(
                    self,
                )@.with_peer(peer.taken(old(subscription).id)),
                None => delivery@ == DeliveryView::Ended(ClientView::not_running()) && final(self)@
                    == old(self)@,
            },
    {
        match &mut self.peer {
            Some(peer) => {
                let delivery = subscription.next(peer);
                proof {
                    crate::transport::law_reachable_states_are_consistent(*peer);
                }
                delivery
            },
            None => Delivery::Ended(not_running_error()),
        }
    }
}

/// What was decided of another frame to send: refused before the start and on a closed transport,
/// and written otherwise.
pub open spec fn client_frame_sent(
    state: ClientView,
    frame: JsonView,
    result: Result<String, SdkError>,
) -> bool {
    match state.peer {
        None => result matches Err(error) && error@ == ClientView::not_running(),
        Some(peer) => frame_sent(peer, frame, result),
    }
}

/// What was decided of a subscription: refused before the start and on a closed transport, and
/// registered otherwise.
pub open spec fn client_subscribed(
    before: ClientView,
    after: ClientView,
    filter: FilterView,
    result: Result<NotificationSubscription, SdkError>,
) -> bool {
    match before.peer {
        None => result matches Err(error) && error@ == ClientView::not_running() && after == before,
        Some(peer) => match peer.closed {
            Some(closed) => result matches Err(error) && error@ == closed && after == before,
            None => result matches Ok(subscription) && subscription.id == peer.next_id && after
                == before.with_peer(peer.subscribed(filter)),
        },
    }
}

/// The client has closed: the transport has failed with the exit code and the stderr tail, and
/// the requests that were awaited fail.
pub open spec fn close_finished(
    before: ClientView,
    after: ClientView,
    exit_code: Option<i32>,
    action: CloseAction,
) -> bool {
    &&& after == (ClientView {
        phase: ClientPhase::Closed,
        ..before.failed(before.closing_reason(), exit_code)
    })
    &&& action matches CloseAction::Finished(ids)
    &&& texts(ids@).no_duplicates()
    &&& forall|id: Seq<char>| #[trigger]
        texts(ids@).contains(id) <==> before.peer->0.pending.contains_key(id)
}

/// Stdin is to be closed: the process may take the whole shutdown budget to exit by itself. A
/// failed `shutdown` request is remembered for the closing report.
pub open spec fn stdin_ended(
    before: ClientView,
    after: ClientView,
    failure: Option<SdkErrorView>,
    action: CloseAction,
) -> bool {
    &&& after == (ClientView {
        phase: ClientPhase::Polling,
        shutdown_failure: match failure {
            Some(error) => Some(error.text()),
            None => before.shutdown_failure,
        },
        ..before
    })
    &&& action == CloseAction::CloseStdin(clamped(before.options.shutdown_timeout_nanos))
}

/// The first rung of the ladder: a running client asks the runtime to shut down. Where the
/// transport is closed already that fails, and stdin is closed at once. Any other client stays as
/// it is.
pub open spec fn close_begun(before: ClientView, after: ClientView, action: CloseAction) -> bool {
    if before.phase is Running {
        match before.peer->0.closed {
            Some(error) => stdin_ended(before, after, Some(error), action),
            None => {
                &&& after.peer matches Some(sent)
                &&& after == (ClientView {
                    phase: ClientPhase::ShuttingDown,
                    ..before.with_peer(sent)
                })
                &&& action matches CloseAction::SendShutdown(request)
                &&& hyphenated_form(request.id@)
                &&& request_sent(
                    before.peer->0,
                    sent,
                    "shutdown"@,
                    None,
                    Some(clamped(before.options.shutdown_timeout_nanos)),
                    Ok(request),
                )
            },
        }
    } else {
        after == before && action is Nothing
    }
}

/// The next rung of the ladder, by what came of the one before: after the `shutdown` request stdin
/// is closed; a process that outlives the wait for its exit is told to terminate; one that outlives
/// the next wait is killed. An event that does not belong to the phase changes nothing.
pub open spec fn close_advanced(
    before: ClientView,
    after: ClientView,
    event: CloseEvent,
    action: CloseAction,
) -> bool {
    match (before.phase, event) {
        (ClientPhase::ShuttingDown, CloseEvent::ShutdownAnswered) => stdin_ended(
            before,
            after,
            None,
            action,
        ),
        (ClientPhase::ShuttingDown, CloseEvent::ShutdownFailed(error)) => stdin_ended(
            before,
            after,
            Some(error@),
            action,
        ),
        (ClientPhase::Polling, CloseEvent::StillRunning) => {
            after == (ClientView { phase: ClientPhase::Terminating, ..before }) && action
                == CloseAction::Terminate(clamped(before.options.shutdown_timeout_nanos))
        },
        (ClientPhase::Polling, CloseEvent::Unknown) => close_finished(before, after, None, action),
        (ClientPhase::Terminating, CloseEvent::StillRunning) => {
            after == (ClientView { phase: ClientPhase::Killing, ..before }) && action is Kill
        },
        (ClientPhase::Terminating, CloseEvent::Unknown) => {
            after == (ClientView { phase: ClientPhase::Killing, ..before }) && action is Kill
        },
        (ClientPhase::Killing, CloseEvent::StillRunning) => close_finished(
            before,
            after,
            None,
            action,
        ),
        (ClientPhase::Killing, CloseEvent::Unknown) => close_finished(before, after, None, action),
        (ClientPhase::Polling, CloseEvent::Exited(code)) => close_finished(
            before,
            after,
            code,
            action,
        ),
        (ClientPhase::Terminating, CloseEvent::Exited(code)) => close_finished(
            before,
            after,
            code,
            action,
        ),
        (ClientPhase::Killing, CloseEvent::Exited(code)) => close_finished(
            before,
            after,
            code,
            action,
        ),
        _ => after == before && action is Nothing,
    }
}

impl HarnessClient {
    /// Goes on to the end of stdin.
    fn end_stdin(&mut self, failure: Option<SdkError>) -> (action: CloseAction)
        requires
            old(self).wf(),
            !(old(self)@.phase is New),
            !(old(self)@.phase is Closed),
        ensures
            final(self).wf(),
            stdin_ended(old(self)@, final(self)@, opt_error(failure), action),
    {
        if let Some(error) = &failure {
            self.shutdown_failure = Some(error.message());
        }
        self.phase = ClientPhase::Polling;
        CloseAction::CloseStdin(clamp_timeout(self.options.shutdown_timeout_nanos))
    }

    /// Takes in one line of the runtime's stderr.
    pub fn stderr_line(&mut self, line: String)
        requires
            old(self).wf(),
        ensures
            final(self).wf(),
            final(self)@ == old(self)@.with_line(line@),
    {
        proof {
            law_the_tail_keeps_the_last_lines(self.stderr@, line@);
            if let Some(peer) = self@.peer {
                if let Some(error) = peer.closed {
                    let n = choose|n: int|
                        0 <= n <= self.stderr@.len() && error->TransportClosed_stderr_tail
                            == last_lines(#[trigger] self.stderr@.take(n));
                    assert(self.stderr@.push(line@).take(n) =~= self.stderr@.take(n));
                }
            }
            self.stderr@ = self.stderr@.push(line@);
        }
        push_line(&mut self.stderr_tail, line);
    }

    /// Begins to close the runtime. Idempotent: a client that is closing or closed stays as it is.
    pub fn close(&mut self) -> (action: CloseAction)
        requires
            old(self).wf(),
        ensures
            final(self).wf(),
            close_begun(old(self)@, final(self)@, action),
    {
        match self.phase {
            ClientPhase::Running => {},
            _ => return CloseAction::Nothing,
        }
        let timeout: u64 = clamp_timeout(self.options.shutdown_timeout_nanos);
        match self.send_request("shutdown", None, Some(timeout)) {
            Ok(request) => {
                self.phase = ClientPhase::ShuttingDown;
                CloseAction::SendShutdown(request)
            },
            Err(error) => self.end_stdin(Some(error)),
        }
    }

    /// Goes on closing, by what came of the last action.
    pub fn close_step(&mut self, event: CloseEvent) -> (action: CloseAction)
        requires
            old(self).wf(),
        ensures
            final(self).wf(),
            close_advanced(old(self)@, final(self)@, event, action),
    {
        match (self.phase, event) {
            (ClientPhase::ShuttingDown, CloseEvent::ShutdownAnswered) => self.end_stdin(None),
            (ClientPhase::ShuttingDown, CloseEvent::ShutdownFailed(error)) => self.end_stdin(
                Some(error),
            ),
            (ClientPhase::Polling, CloseEvent::StillRunning) => {
                self.phase = ClientPhase::Terminating;
                CloseAction::Terminate(clamp_timeout(self.options.shutdown_timeout_nanos))
            },
            (ClientPhase::Polling, CloseEvent::Unknown) => self.finish_close(None),
            (ClientPhase::Terminating, CloseEvent::StillRunning) => {
                self.phase = ClientPhase::Killing;
                CloseAction::Kill
            },
            (ClientPhase::Terminating, CloseEvent::Unknown) => {
                self.phase = ClientPhase::Killing;
                CloseAction::Kill
            },
            (ClientPhase::Killing, CloseEvent::StillRunning) => self.finish_close(None),
            (ClientPhase::Killing, CloseEvent::Unknown) => self.finish_close(None),
            (ClientPhase::Polling, CloseEvent::Exited(code)) => self.finish_close(code),
            (ClientPhase::Terminating, CloseEvent::Exited(code)) => self.finish_close(code),
            (ClientPhase::Killing, CloseEvent::Exited(code)) => self.finish_close(code),
            _ => CloseAction::Nothing,
        }
    }

    /// Fails the transport for a reason, with the exit code and the stderr tail.
    fn fail(&mut self, reason: &str, exit_code: Option<i32>) -> (failed: Vec<String>)
        requires
            old(self).wf(),
        ensures
            final(self).wf(),
            final(self)@ == old(self)@.failed(reason@, exit_code),
            texts(failed@).no_duplicates(),
            forall|id: Seq<char>| #[trigger]
                texts(failed@).contains(id) <==> (old(self)@.peer matches Some(peer)
                    && peer.pending.contains_key(id)),
    {
        let error = SdkError::transport_closed(reason, exit_code, &self.stderr_tail);
        assert(self.stderr@.take(self.stderr@.len() as int) =~= self.stderr@);
        match &mut self.peer {
            Some(peer) => {
                let failed = peer.fail_closed(&error);
                proof {
                    crate::transport::law_reachable_states_are_consistent(*peer);
                }
                failed
            },
            None => Vec::new(),
        }
    }

    /// Closes the client with the exit code.
    fn finish_close(&mut self, exit_code: Option<i32>) -> (action: CloseAction)
        requires
            old(self).wf(),
            !(old(self)@.phase is New),
        ensures
            final(self).wf(),
            close_finished(old(self)@, final(self)@, exit_code, action),
    {
        let failed = match &self.shutdown_failure {
            Some(failure) => {
                let mut reason =
                    "DeepSeek Harness runtime closed\nshutdown request failed: ".to_owned();
                reason.append(failure.as_str());
                self.fail(reason.as_str(), exit_code)
            },
            None => self.fail("DeepSeek Harness runtime closed", exit_code),
        };
        self.phase = ClientPhase::Closed;
        CloseAction::Finished(failed)
    }

    /// The runtime's stdout has ended, or its stdin takes nothing more: the transport is closed,
    /// and the requests with the returned ids fail.
    pub fn runtime_gone(&mut self, exit_code: Option<i32>) -> (failed: Vec<String>)
        requires
            old(self).wf(),
        ensures
            final(self).wf(),
            final(self)@ == old(self)@.failed("DeepSeek Harness runtime stdout closed"@, exit_code),
            texts(failed@).no_duplicates(),
            forall|id: Seq<char>| #[trigger]
                texts(failed@).contains(id) <==> (old(self)@.peer matches Some(peer)
                    && peer.pending.contains_key(id)),
    {
        self.fail("DeepSeek Harness runtime stdout closed", exit_code)
    }
}

impl ClientView {
    /// The state after a line of the runtime's stdout, and what the line came to. The lineage that
    /// a notification announces is part of the state before the notification is handed out.
    pub open spec fn received(self, line: Seq<char>) -> (ClientView, ReceivedView) {
        match self.peer {
            None => (self, ReceivedView::Nothing),
            Some(peer) => {
                let (after, what) = peer.received(line);
                (
                    ClientView {
                        peer: Some(after),
                        parents: match what {
                            ReceivedView::Notification(notification) => recorded(
                                self.parents,
                                notification,
                            ),
                            _ => self.parents,
                        },
                        ..self
                    },
                    what,
                )
            },
        }
    }

    /// The state after a notification has been handed out.
    pub open spec fn delivered(
        self,
        notification: NotificationView,
        judgements: Seq<(u64, Judgement)>,
    ) -> ClientView {
        match self.peer {
            Some(peer) => self.with_peer(peer.delivered(notification, self.parents, judgements)),
            None => self,
        }
    }

    /// A server-to-client request waits to be answered.
    pub open spec fn is_asked(self) -> bool {
        self.peer matches Some(peer) && peer.closed is None && peer.requests.len() > 0
    }
}

impl HarnessClient {
    /// Takes in one line of the runtime's stdout.
    pub fn receive(&mut self, line: &str) -> (received: Received)
        requires
            old(self).wf(),
        ensures
            final(self).wf(),
            (final(self)@, received@) == old(self)@.received(line@),
    {
        let received = match &mut self.peer {
            Some(peer) => {
                let received = peer.receive(line);
                proof {
                    crate::transport::law_reachable_states_are_consistent(*peer);
                }
                received
            },
            None => Received::Nothing,
        };
        if let Received::Notification(notification) = &received {
            self.lineage.record(notification);
        }
        received
    }

    /// Hands a received notification out. `judgements` holds what the callers' own predicates
    /// said of it, by subscription id.
    pub fn deliver(&mut self, notification: Notification, judgements: &Vec<(u64, Judgement)>)
        requires
            old(self).wf(),
        ensures
            final(self).wf(),
            final(self)@ == old(self)@.delivered(notification@, judgements@),
    {
        if let Some(peer) = &mut self.peer {
            peer.deliver(notification, &self.lineage, judgements);
            proof {
                crate::transport::law_reachable_states_are_consistent(*peer);
            }
        }
    }

    /// Answers the oldest waiting server-to-client request: there is no handler for any, so the
    /// answer is the method-not-found error, under the request's own id. `None` when none waits.
    pub fn refuse_request(&mut self) -> (line: Option<String>)
        requires
            old(self).wf(),
        ensures
            final(self).wf(),
            match line {
                Some(line) => {
                    let peer = old(self)@.peer->0;
                    &&& old(self)@.is_asked()
                    &&& carries_error(
                        line@,
                        peer.requests[0]->Request_0.id,
                        METHOD_NOT_FOUND,
                        "Method not found"@,
                        None,
                    )
                    &&& final(self)@ == old(self)@.with_peer(
                        PeerView { requests: peer.requests.drop_first(), ..peer },
                    )
                },
                None => !old(self)@.is_asked() && final(self)@ == old(self)@,
            },
    {
        match &mut self.peer {
            Some(peer) => {
                if peer.closed_error().is_some() {
                    return None;
                }
                let delivery = peer.next_request();
                proof {
                    crate::transport::law_reachable_states_are_consistent(*peer);
                }
                match delivery {
                    RequestDelivery::Ready(request) => {
                        match peer.respond_error(
                            &request.id,
                            METHOD_NOT_FOUND,
                            "Method not found",
                            None,
                        ) {
                            Ok(line) => Some(line),
                            Err(_) => None,
                        }
                    },
                    _ => None,
                }
            },
            None => None,
        }
    }

    /// Gives up a request whose deadline has passed; the error carries the exit code, where the
    /// runtime has exited, and the stderr tail. `None` when the request no longer awaits a
    /// response.
    pub fn expire(&mut self, id: &str, exit_code: Option<i32>) -> (error: Option<SdkError>)
        requires
            old(self).wf(),
        ensures
            final(self).wf(),
            match old(self)@.peer {
                Some(peer) => {
                    &&& final(self)@ == old(self)@.with_peer(peer.settled(id@))
                    &&& opt_error(error) == (if peer.pending.contains_key(id@) {
                        Some(
                            SdkErrorView::RequestTimeout {
                                message: report(
                                    peer.pending[id@]
                                        + " timed out waiting for DeepSeek Harness runtime"@,
                                    exit_code,
                                    old(self)@.stderr_tail(),
                                ),
                            },
                        )
                    } else {
                        None
                    })
                },
                None => error is None && final(self)@ == old(self)@,
            },
    {
        match &mut self.peer {
            Some(peer) => {
                let error = peer.expire(id, exit_code, &self.stderr_tail);
                proof {
                    crate::transport::law_reachable_states_are_consistent(*peer);
                }
                error
            },
            None => None,
        }
    }

    /// Gives up a request whose frame could not be handed to the writer.
    pub fn write_failed(&mut self, id: &str) -> (error: SdkError)
        requires
            old(self).wf(),
        ensures
            final(self).wf(),
            match old(self)@.peer {
                Some(peer) => {
                    &&& final(self)@ == old(self)@.with_peer(peer.settled(id@))
                    &&& error@ == peer.closed_or("DeepSeek Harness runtime stdin closed"@)
                },
                None => error@ == ClientView::not_running() && final(self)@ == old(self)@,
            },
    {
        match &mut self.peer {
            Some(peer) => {
                let error = peer.write_failed(id);
                proof {
                    crate::transport::law_reachable_states_are_consistent(*peer);
                }
                error
            },
            None => not_running_error(),
        }
    }

    /// The error of a notification that could not be handed to the writer.
    pub fn write_error(&self) -> (error: SdkError)
        ensures
            error@ == (match self@.peer {
                Some(peer) => peer.closed_or("DeepSeek Harness runtime stdin closed"@),
                None => ClientView::not_running(),
            }),
    {
        match &self.peer {
            Some(peer) => peer.write_error(),
            None => not_running_error(),
        }
    }

    /// The error that closed the transport.
    pub fn closed_error(&self) -> (error: Option<SdkError>)
        ensures
            opt_error(error) == (match self@.peer {
                Some(peer) => peer.closed,
                None => None,
            }),
    {
        match &self.peer {
            Some(peer) => peer.closed_error(),
            None => None,
        }
    }
}

/// Every state that the methods of a [`HarnessClient`] lead to is consistent.
pub proof fn law_reachable_states_are_consistent(client: HarnessClient)
    requires
        client.wf(),
    ensures
        client@.consistent(),
{
}

/// A notification that announces a lineage edge is handed out with that edge in place: a session
/// tree sees the child from the very notification that starts it.
pub proof fn law_lineage_precedes_delivery(
    state: ClientView,
    line: Seq<char>,
    notification: NotificationView,
    judgements: Seq<(u64, Judgement)>,
)
    requires
        state.peer is Some,
        state.received(line).1 == ReceivedView::Notification(notification),
    ensures
        ({
            let taken = state.received(line).0;
            &&& taken.parents == recorded(state.parents, notification)
            &&& taken.delivered(notification, judgements).peer == Some(
                state.peer->0.delivered(
                    notification,
                    recorded(state.parents, notification),
                    judgements,
                ),
            )
        }),
{
}

/// The stderr tail is what the last lines are of everything that was taken in.
pub proof fn law_the_tail_keeps_the_last_lines(lines: Seq<Seq<char>>, line: Seq<char>)
    ensures
        last_lines(last_lines(lines).push(line)) == last_lines(lines.push(line)),
        last_lines(lines).len() <= STDERR_TAIL_LINES,
        lines.len() <= STDERR_TAIL_LINES ==> last_lines(lines) == lines,
{
    assert(last_lines(last_lines(lines).push(line)) =~= last_lines(lines.push(line)));
}

/// The error that closes a client is the report of a closed transport, and its tail is the last
/// lines of what the runtime wrote to its stderr, and of nothing else.
pub proof fn law_the_closing_report_carries_the_tail(
    before: ClientView,
    after: ClientView,
    exit_code: Option<i32>,
    action: CloseAction,
)
    requires
        before.consistent(),
        before.peer is Some,
        close_finished(before, after, exit_code, action),
    ensures
        after.peer->0.closed is Some,
        closing_report(after.peer->0.closed->0, after.stderr),
        (after.peer->0.closed->0)->TransportClosed_stderr_tail.len() <= STDERR_TAIL_LINES,
        before.peer->0.closed is None ==> (
        after.peer->0.closed->0)->TransportClosed_stderr_tail == last_lines(before.stderr),
{
    assert(before.stderr.take(before.stderr.len() as int) =~= before.stderr);
}

/// A closed client rejects further use with the error that closed it, and one that was not started
/// rejects all use; either error is the report of a closed transport.
pub proof fn law_a_closed_client_rejects_use(
    state: ClientView,
    after: ClientView,
    method: Seq<char>,
    params: Option<JsonView>,
    timeout: Option<u64>,
    sent: Result<OutgoingRequest, SdkError>,
    filter: FilterView,
    subscribed: Result<NotificationSubscription, SdkError>,
    frame: JsonView,
    written: Result<String, SdkError>,
)
    requires
        state.consistent(),
        state.phase is Closed || state.phase is New,
        client_request_sent(state, after, method, params, timeout, sent),
        client_subscribed(state, after, filter, subscribed),
        client_frame_sent(state, frame, written),
    ensures
        sent matches Err(error) && Some(error@) == state.refusal() && error is TransportClosed,
        subscribed matches Err(error) && Some(error@) == state.refusal() && error is TransportClosed,
        written matches Err(error) && Some(error@) == state.refusal() && error is TransportClosed,
        after == state,
{
}

/// A closed client stays closed, with the same error: closing it again sends nothing, and what
/// still arrives from the runtime completes no request and reaches no subscription.
pub proof fn law_a_closed_client_stays_closed(
    state: ClientView,
    begun: ClientView,
    first: CloseAction,
    advanced: ClientView,
    event: CloseEvent,
    second: CloseAction,
    line: Seq<char>,
    notification: NotificationView,
    judgements: Seq<(u64, Judgement)>,
    reason: Seq<char>,
    exit_code: Option<i32>,
)
    requires
        state.consistent(),
        state.phase is Closed,
        close_begun(state, begun, first),
        close_advanced(state, advanced, event, second),
    ensures
        first is Nothing && begun == state,
        second is Nothing && advanced == state,
        !(state.received(line).1 is Completed),
        state.received(line).0.phase is Closed,
        state.received(line).0.refusal() == state.refusal(),
        state.delivered(notification, judgements) == state,
        state.failed(reason, exit_code) == state,
        state.with_line(line).phase is Closed,
        state.with_line(line).refusal() == state.refusal(),
{
    crate::transport::law_a_closed_transport_is_inert(
        state.peer->0,
        line,
        notification,
        state.parents,
        judgements,
    );
}

/// Closing is idempotent: only a running client begins to close.
pub proof fn law_closing_is_idempotent(
    state: ClientView,
    begun: ClientView,
    first: CloseAction,
    after: ClientView,
    second: CloseAction,
)
    requires
        state.consistent(),
        close_begun(state, begun, first),
        close_begun(begun, after, second),
    ensures
        after == begun,
        second is Nothing,
{
}

/// How many rungs of the ladder are left.
pub open spec fn rungs_left(phase: ClientPhase) -> nat {
    match phase {
        ClientPhase::New => 0,
        ClientPhase::Running => 5,
        ClientPhase::ShuttingDown => 4,
        ClientPhase::Polling => 3,
        ClientPhase::Terminating => 2,
        ClientPhase::Killing => 1,
        ClientPhase::Closed => 0,
    }
}

/// The ladder is climbed in order and comes to an end: each step that does anything leaves fewer
/// rungs, SIGTERM follows only a process that outlived the wait behind the end of its stdin,
/// SIGKILL only one that outlived SIGTERM, each wait is the whole shutdown budget, and a client is
/// closed exactly when the ladder says it is finished: once the process has exited, was killed, or
/// can no longer be asked.
pub proof fn law_the_ladder_comes_to_an_end(
    before: ClientView,
    after: ClientView,
    event: CloseEvent,
    action: CloseAction,
)
    requires
        before.consistent(),
        close_advanced(before, after, event, action),
    ensures
        action is Nothing ==> after == before,
        !(action is Nothing) ==> rungs_left(after.phase) < rungs_left(before.phase),
        before.phase is ShuttingDown && !(action is Nothing) ==> action is CloseStdin,
        action matches CloseAction::CloseStdin(wait) ==> wait == clamped(
            before.options.shutdown_timeout_nanos,
        ),
        action matches CloseAction::Terminate(wait) ==> wait == clamped(
            before.options.shutdown_timeout_nanos,
        ),
        action is Terminate <==> before.phase is Polling && event is StillRunning,
        action is Kill <==> before.phase is Terminating && (event is StillRunning
            || event is Unknown),
        action is Finished <==> after.phase is Closed && !(before.phase is Closed),
        action is Finished ==> after.peer->0.closed is Some && (event is Exited || event is Unknown
            || before.phase is Killing),
{
}

/// Whatever the runtime does, closing ends with the error of the first failure: one that was
/// there before the ladder stays.
pub proof fn law_closing_keeps_the_first_error(
    before: ClientView,
    after: ClientView,
    event: CloseEvent,
    action: CloseAction,
    error: SdkErrorView,
)
    requires
        before.peer is Some,
        before.peer->0.closed == Some(error),
        close_advanced(before, after, event, action),
    ensures
        after.peer is Some,
        after.peer->0.closed == Some(error),
{
}

/// A negative deadline has passed already, and a deadline named for one request replaces the
/// configured one for it alone.
pub proof fn law_deadlines(options: HarnessClientOptions, nanos: i64)
    ensures
        nanos < 0 ==> deadline(options, Some(nanos)) == Some(0u64),
        nanos >= 0 ==> deadline(options, Some(nanos)) == Some(nanos as u64),
        deadline(options, None) == opt_clamped(options.request_timeout_nanos),
{
}

/// Closing ends everything: no request is awaited any more, those that were are all named as
/// failed, and every subscription that was still open ends with the closing error behind what it
/// had queued.
pub proof fn law_closing_ends_everything(
    before: ClientView,
    after: ClientView,
    exit_code: Option<i32>,
    action: CloseAction,
    request: Seq<char>,
    id: u64,
)
    requires
        before.consistent(),
        before.peer is Some,
        before.peer->0.closed is None,
        close_finished(before, after, exit_code, action),
    ensures
        after.peer->0.pending == Map::<Seq<char>, Seq<char>>::empty(),
        before.peer->0.pending.contains_key(request) ==> (action matches CloseAction::Finished(
            failed,
        ) && texts(failed@).contains(request)),
        before.peer->0.subscribers.contains_key(id) && before.peer->0.subscribers[id].inbox.ended
            is None ==> after.peer->0.subscribers[id].inbox == (InboxView {
            ended: Some(closed_view(before.closing_reason(), exit_code, before.stderr_tail())),
            ..before.peer->0.subscribers[id].inbox
        }),
{
}

/// A session tree takes in the descendants that it learns of: a subscription to a root receives
/// the notification that starts a child below it, and then the child's own notifications. The
/// chain of parents that leads from the child's parent to the root must not run through the child
/// itself.
pub proof fn law_descendants_reach_the_root_subscription(
    subscriber: SubscriberView,
    id: u64,
    root: Seq<char>,
    parents: Map<Seq<char>, Seq<char>>,
    started: NotificationView,
    child: Seq<char>,
    parent: Seq<char>,
    n: nat,
    later: NotificationView,
    judgements: Seq<(u64, Judgement)>,
)
    requires
        subscriber.filter == FilterView::SessionTree(root),
        subscriber.inbox.live(),
        announced_edge(started) == Some((child, parent)),
        ancestor(parents, parent, n) == Some(root),
        forall|m: nat| m < n ==> #[trigger] ancestor(parents, parent, m) != Some(child),
        later.payload.text_field("sessionId"@) == Some(child),
        later.method != "subagent.started"@,
        later.method != "subagent.finished"@,
    ensures
        judged(subscriber, id, started, recorded(parents, started), judgements) is Match,
        judged(subscriber, id, later, recorded(parents, started), judgements) is Match,
{
    crate::lineage::law_started_child_joins_the_tree(parents, root, started, n);
}

/// The shutdown budget as a waiting time: a negative one waits no time at all.
pub open spec fn is_budget(options: HarnessClientOptions, wait: u64) -> bool {
    if options.shutdown_timeout_nanos < 0 {
        wait == 0
    } else {
        wait == options.shutdown_timeout_nanos
    }
}

/// A running client closes by asking the runtime to shut down, with the shutdown budget as the
/// deadline; where its transport is closed already it closes stdin at once. A client that does not
/// run stays as it is.
pub proof fn law_closing_begins_with_a_shutdown_request(
    client: &mut HarnessClient,
    action: CloseAction,
)
    requires
        call_ensures(HarnessClient::close, (client,), action),
        old(client)@.consistent(),
    ensures
        !(old(client)@.phase is Running) ==> action is Nothing && final(client)@ == old(client)@,
        old(client)@.phase is Running && old(client)@.peer->0.closed is None ==> (action
            matches CloseAction::SendShutdown(request) && {
            &&& carries(request.line@, request_frame(request.id@, "shutdown"@, None))
            &&& hyphenated_form(request.id@)
            &&& request.timeout matches Some(wait) && is_budget(old(client)@.options, wait)
            &&& final(client)@.phase is ShuttingDown
            &&& final(client)@.peer == Some(
                PeerView {
                    pending: old(client)@.peer->0.pending.insert(request.id@, "shutdown"@),
                    ..old(client)@.peer->0
                },
            )
            &&& final(client)@.shutdown_failure == old(client)@.shutdown_failure
        }),
        old(client)@.phase is Running && old(client)@.peer->0.closed is Some ==> (action
            matches CloseAction::CloseStdin(wait) && is_budget(old(client)@.options, wait)
            && final(client)@.phase is Polling && final(client)@.peer == old(client)@.peer
            && final(client)@.shutdown_failure == Some((old(client)@.peer->0.closed->0).text())),
        final(client)@.options == old(client)@.options,
        final(client)@.stderr == old(client)@.stderr,
        final(client)@.parents == old(client)@.parents,
{
}

/// Once the runtime has answered the shutdown request or failed to, stdin is closed and the process
/// has the shutdown budget to exit. The failure is remembered.
pub proof fn law_stdin_is_closed_behind_the_shutdown_request(
    client: &mut HarnessClient,
    event: CloseEvent,
    action: CloseAction,
)
    requires
        call_ensures(HarnessClient::close_step, (client, event), action),
        old(client)@.phase is ShuttingDown,
    ensures
        event is ShutdownAnswered || event is ShutdownFailed ==> (action
            matches CloseAction::CloseStdin(wait) && is_budget(old(client)@.options, wait))
            && final(client)@.phase is Polling && final(client)@.peer == old(client)@.peer,
        event is ShutdownAnswered ==> final(client)@.shutdown_failure
            == old(client)@.shutdown_failure,
        event matches CloseEvent::ShutdownFailed(error) ==> final(client)@.shutdown_failure == Some(
            error@.text(),
        ),
        !(event is ShutdownAnswered) && !(event is ShutdownFailed) ==> action is Nothing
            && final(client)@ == old(client)@,
{
}

/// Whenever the process exits after the end of its stdin, after SIGTERM or after SIGKILL, the client
/// is closed: every awaited request fails, and where the transport was open it is closed with the
/// report that carries this exit code and the last lines of stderr.
pub proof fn law_an_exit_closes_the_client(
    client: &mut HarnessClient,
    event: CloseEvent,
    action: CloseAction,
    code: Option<i32>,
    request: Seq<char>,
)
    requires
        call_ensures(HarnessClient::close_step, (client, event), action),
        old(client)@.consistent(),
        old(client)@.phase is Polling || old(client)@.phase is Terminating || old(client)@.phase
            is Killing,
        event == CloseEvent::Exited(code),
    ensures
        final(client)@.phase is Closed,
        action matches CloseAction::Finished(failed) && (texts(failed@).contains(request)
            <==> old(client)@.peer->0.pending.contains_key(request)),
        final(client)@.peer is Some,
        final(client)@.peer->0.pending.dom().is_empty(),
        old(client)@.peer->0.closed is Some ==> final(client)@.peer->0.closed
            == old(client)@.peer->0.closed,
        old(client)@.peer->0.closed is None ==> (final(client)@.peer->0.closed matches Some(
            SdkErrorView::TransportClosed { message, exit_code, stderr_tail },
        ) && exit_code == code && stderr_tail == last_lines(old(client)@.stderr) && message
            == report(
            match old(client)@.shutdown_failure {
                None => "DeepSeek Harness runtime closed"@,
                Some(failure) => "DeepSeek Harness runtime closed\nshutdown request failed: "@
                    + failure,
            },
            code,
            last_lines(old(client)@.stderr),
        )),
{
}

/// A process that outlives the wait behind the end of its stdin is told to terminate, and has the
/// shutdown budget again; one that outlives that wait too, or can no longer be asked, is killed; and
/// after the kill the client is closed in any case. So every event of the process is answered until
/// the client is closed.
pub proof fn law_the_ladder_goes_on_until_the_end(
    client: &mut HarnessClient,
    event: CloseEvent,
    action: CloseAction,
)
    requires
        call_ensures(HarnessClient::close_step, (client, event), action),
        event is StillRunning || event is Unknown,
    ensures
        old(client)@.phase is Polling && event is StillRunning ==> (action
            matches CloseAction::Terminate(wait) && is_budget(old(client)@.options, wait))
            && final(client)@ == (ClientView { phase: ClientPhase::Terminating, ..old(client)@ }),
        old(client)@.phase is Polling && event is Unknown ==> action is Finished && final(
            client
        )@.phase is Closed,
        old(client)@.phase is Terminating ==> action is Kill && final(client)@ == (ClientView {
            phase: ClientPhase::Killing,
            ..old(client)@
        }),
        old(client)@.phase is Killing ==> action is Finished && final(client)@.phase is Closed,
        old(client)@.consistent() && action is Finished ==> (final(client)@.peer
            matches Some(peer) && peer.closed matches Some(error) && (old(client)@.peer->0.closed
            is None ==> (error matches SdkErrorView::TransportClosed { exit_code, .. } && exit_code
            is None))),
{
}

/// An event that does not belong to the phase changes nothing: before the ladder has begun and once
/// it has ended nothing does, and on the rungs of the process a late answer to the shutdown request
/// does not.
pub proof fn law_events_count_in_their_phase_alone(
    client: &mut HarnessClient,
    event: CloseEvent,
    action: CloseAction,
)
    requires
        call_ensures(HarnessClient::close_step, (client, event), action),
    ensures
        old(client)@.phase is New || old(client)@.phase is Running || old(client)@.phase is Closed
            ==> action is Nothing && final(client)@ == old(client)@,
        !(old(client)@.phase is ShuttingDown) && (event is ShutdownAnswered || event
            is ShutdownFailed) ==> action is Nothing && final(client)@ == old(client)@,
{
}

/// The kept lines are the last ones, in order, and as many as there are up to the limit.
pub proof fn law_the_kept_lines_are_the_last_ones(lines: Seq<Seq<char>>, i: int)
    ensures
        last_lines(lines).len() == if lines.len() <= 400 {
            lines.len() as int
        } else {
            400
        },
        0 <= i < last_lines(lines).len() ==> last_lines(lines)[i] == lines[lines.len()
            - last_lines(lines).len() + i],
{
}

/// Each line of the runtime's stderr is recorded behind the others, and changes nothing else.
pub proof fn law_stderr_lines_are_recorded_in_order(client: &mut HarnessClient, line: String)
    requires
        call_ensures(HarnessClient::stderr_line, (client, line), ()),
    ensures
        final(client)@ == (ClientView { stderr: old(client)@.stderr.push(line@), ..old(client)@ }),
{
}

/// Only a client that was never started takes a runtime on: it then runs, on a transport on which
/// nothing has happened, with the configured deadline, a negative one counting as none left.
pub proof fn law_a_client_is_started_once(
    client: &mut HarnessClient,
    attached: bool,
    options: HarnessClientOptions,
    fresh: HarnessClient,
)
    requires
        call_ensures(HarnessClient::start, (client,), attached),
        call_ensures(HarnessClient::new, (options,), fresh),
    ensures
        fresh@.phase is New && fresh@.peer is None && fresh@.options == options,
        fresh@.stderr.len() == 0 && fresh@.parents.dom().is_empty() && fresh@.shutdown_failure
            is None,
        attached <==> old(client)@.phase is New,
        !attached ==> final(client)@ == old(client)@,
        attached ==> final(client)@.phase is Running && (final(client)@.peer matches Some(peer)
            && peer.pending.dom().is_empty() && peer.subscribers.dom().is_empty() && peer.closed
            is None && peer.requests.len() == 0 && peer.unmatched is None && match old(
            client
        )@.options.request_timeout_nanos {
            None => peer.request_timeout is None,
            Some(nanos) => peer.request_timeout == Some(
                if nanos < 0 {
                    0
                } else {
                    nanos as u64
                },
            ),
        }),
        final(client)@.options == old(client)@.options,
        final(client)@.stderr == old(client)@.stderr,
{
}

/// A request of a client is written with its method and params under a drawn id and awaited under
/// it, with the deadline that is named for it or else the configured one; before the start and on a
/// closed transport it is refused.
pub proof fn law_a_client_sends_what_it_is_asked_to(
    client: &mut HarnessClient,
    method: &str,
    params: Option<Json>,
    timeout: Option<i64>,
    result: Result<OutgoingRequest, SdkError>,
)
    requires
        call_ensures(
            HarnessClient::request_with_timeout,
            (client, method, params, timeout),
            result,
        ),
    ensures
        old(client)@.peer is None ==> final(client)@ == old(client)@ && (result matches Err(error)
            && error@ == closed_view("DeepSeek Harness runtime is not running"@, None, seq![])),
        old(client)@.peer matches Some(peer) ==> match peer.closed {
            Some(closed) => final(client)@ == old(client)@ && (result matches Err(error) && error@
                == closed),
            None => result matches Ok(request) && {
                &&& carries(request.line@, request_frame(request.id@, method@, opt_tree(params)))
                &&& hyphenated_form(request.id@)
                &&& final(client)@ == (ClientView {
                    peer: Some(
                        PeerView { pending: peer.pending.insert(request.id@, method@), ..peer },
                    ),
                    ..old(client)@
                })
                &&& match (timeout, old(client)@.options.request_timeout_nanos) {
                    (Some(nanos), _) => request.timeout == Some(
                        if nanos < 0 {
                            0
                        } else {
                            nanos as u64
                        },
                    ),
                    (None, Some(nanos)) => request.timeout == Some(
                        if nanos < 0 {
                            0
                        } else {
                            nanos as u64
                        },
                    ),
                    (None, None) => request.timeout is None,
                }
            },
        },
{
}

/// A request without a deadline of its own is one with the configured deadline.
pub proof fn law_a_plain_request_keeps_the_configured_deadline(
    client: &mut HarnessClient,
    method: &str,
    params: Option<Json>,
    result: Result<OutgoingRequest, SdkError>,
)
    requires
        call_ensures(HarnessClient::request, (client, method, params), result),
    ensures
        result matches Ok(request) ==> carries(
            request.line@,
            request_frame(request.id@, method@, opt_tree(params)),
        ) && match old(client)@.options.request_timeout_nanos {
            None => request.timeout is None,
            Some(nanos) => request.timeout == Some(
                if nanos < 0 {
                    0
                } else {
                    nanos as u64
                },
            ),
        },
        result is Ok <==> (old(client)@.peer matches Some(peer) && peer.closed is None),
{
}

/// The handshake names the working directory, the provider, the model and, where there is one, the
/// token cap, and nothing else.
pub proof fn law_the_handshake_names_what_runs_where(
    client: &mut HarnessClient,
    params: InitializeParams,
    result: Result<OutgoingRequest, SdkError>,
    key: Seq<char>,
)
    requires
        call_ensures(HarnessClient::initialize, (client, &params), result),
    ensures
        result is Ok <==> (old(client)@.peer matches Some(peer) && peer.closed is None),
        result matches Ok(request) ==> {
            let sent = initialize_payload(
                params.cwd,
                params.provider@,
                params.model@,
                params.max_tokens,
            );
            &&& carries(request.line@, request_frame(request.id@, "initialize"@, Some(sent)))
            &&& sent.field("cwd"@) == Some(JsonView::String(lossy_text(params.cwd)))
            &&& sent.field("provider"@) == Some(JsonView::String(params.provider@))
            &&& sent.field("model"@) == Some(JsonView::String(params.model@))
            &&& sent.field("maxTokens"@) == (match params.max_tokens {
                Some(tokens) => Some(JsonView::Number(natural_number(tokens))),
                None => None,
            })
            &&& sent.field(key) is Some ==> key == "cwd"@ || key == "provider"@ || key == "model"@
                || key == "maxTokens"@
        },
{
    reveal_strlit("cwd");
    reveal_strlit("provider");
    reveal_strlit("model");
    reveal_strlit("maxTokens");
    assert("cwd"@.len() == 3);
    assert("provider"@.len() == 8);
    assert("model"@.len() == 5);
    assert("maxTokens"@.len() == 9);
}

/// A prompt names its session and carries its content blocks as they are, and nothing else.
pub proof fn law_a_prompt_carries_its_blocks(
    client: &mut HarnessClient,
    session_id: &str,
    blocks: Vec<Json>,
    result: Result<OutgoingRequest, SdkError>,
    key: Seq<char>,
)
    requires
        call_ensures(HarnessClient::session_prompt, (client, session_id, &blocks), result),
    ensures
        result is Ok <==> (old(client)@.peer matches Some(peer) && peer.closed is None),
        result matches Ok(request) ==> {
            let sent = prompt_payload(session_id@, items_tree(blocks@));
            &&& carries(request.line@, request_frame(request.id@, "session/prompt"@, Some(sent)))
            &&& sent.field("sessionId"@) == Some(JsonView::String(session_id@))
            &&& sent.field("contentBlocks"@) matches Some(JsonView::Array(items)) && items.len()
                == blocks@.len() && forall|i: int|
                0 <= i < items.len() ==> #[trigger] items[i] == blocks@[i]@
            &&& sent.field(key) is Some ==> key == "sessionId"@ || key == "contentBlocks"@
        },
{
    reveal_strlit("sessionId");
    reveal_strlit("contentBlocks");
    assert("sessionId"@.len() == 9);
    assert("contentBlocks"@.len() == 13);
}

/// A handshake result names the server as the response does: not at all where it has no
/// `serverInfo`, and otherwise by the string members `name` and `version` of that.
pub proof fn law_the_handshake_reports_the_server(
    response: Json,
    result: InitializeResult,
    info: JsonView,
)
    requires
        call_ensures(read_handshake, (&response,), result),
    ensures
        response@.field("serverInfo"@) is None ==> result.server_info is None,
        response@.field("serverInfo"@) == Some(info) ==> (result.server_info matches Some(server)
            && opt_text(server.name) == info.text_field("name"@) && opt_text(server.version)
            == info.text_field("version"@)),
{
}

/// A prompt came to the string `messageId` of its response; a response without one is a violation
/// of the protocol, and a failed request keeps its error.
pub proof fn law_a_prompt_comes_to_its_message_id(
    outcome: Result<Json, SdkError>,
    result: Result<String, SdkError>,
    id: Seq<char>,
)
    requires
        call_ensures(read_prompt, (outcome,), result),
    ensures
        outcome matches Ok(response) ==> response@.field("messageId"@) == Some(JsonView::String(id))
            ==> (result matches Ok(text) && text@ == id),
        outcome matches Ok(response) ==> !(response@.field("messageId"@) matches Some(
            JsonView::String(_),
        )) ==> (result matches Err(error) && error@ == (SdkErrorView::Protocol {
            message: "session/prompt response requires a string messageId"@,
        })),
        outcome matches Err(failure) ==> (result matches Err(error) && error@ == failure@),
{
}

/// A handshake that succeeds changes nothing; one that fails gives its error back and begins to
/// close the client.
pub proof fn law_a_failed_handshake_closes(
    client: &mut HarnessClient,
    outcome: Result<Json, SdkError>,
    result: (Result<InitializeResult, SdkError>, CloseAction),
)
    requires
        call_ensures(HarnessClient::finish_initialize, (client, outcome), result),
    ensures
        outcome is Ok ==> result.0 is Ok && result.1 is Nothing && final(client)@ == old(client)@,
        outcome matches Err(failure) ==> (result.0 matches Err(error) && error@ == failure@),
        outcome is Err && old(client)@.phase is Running ==> !(result.1 is Nothing) && (final(
            client
        )@.phase is ShuttingDown || final(client)@.phase is Polling),
        outcome is Err && !(old(client)@.phase is Running) ==> result.1 is Nothing && final(
            client
        )@ == old(client)@,
{
}

/// A notification that arrives is recorded in the lineage before it is handed out, and nothing else
/// that arrives changes the lineage; the transport takes the line in.
pub proof fn law_lines_reach_the_transport_and_the_lineage(
    client: &mut HarnessClient,
    line: &str,
    received: Received,
)
    requires
        call_ensures(HarnessClient::receive, (client, line), received),
    ensures
        old(client)@.peer is None ==> received is Nothing && final(client)@ == old(client)@,
        old(client)@.peer matches Some(peer) ==> final(client)@.peer == Some(peer.received(line@).0)
            && received@ == peer.received(line@).1,
        received matches Received::Notification(notification) ==> final(client)@.parents == recorded(
            old(client)@.parents,
            notification@,
        ),
        !(received is Notification) ==> final(client)@.parents == old(client)@.parents,
        final(client)@.phase == old(client)@.phase,
        final(client)@.stderr == old(client)@.stderr,
        final(client)@.options == old(client)@.options,
{
}

/// A notification is handed out by the transport, with the lineage as it is then.
pub proof fn law_notifications_are_handed_out_by_the_lineage(
    client: &mut HarnessClient,
    notification: Notification,
    judgements: Vec<(u64, Judgement)>,
)
    requires
        call_ensures(HarnessClient::deliver, (client, notification, &judgements), ()),
    ensures
        old(client)@.peer is None ==> final(client)@ == old(client)@,
        old(client)@.peer matches Some(peer) ==> final(client)@ == (ClientView {
            peer: Some(peer.delivered(notification@, old(client)@.parents, judgements@)),
            ..old(client)@
        }),
{
}

/// The oldest waiting server-to-client request is answered, under its own id, that its method is
/// not there, and then waits no more; where none waits, or the transport is closed, nothing is
/// answered.
pub proof fn law_requests_to_the_client_are_refused(
    client: &mut HarnessClient,
    line: Option<String>,
)
    requires
        call_ensures(HarnessClient::refuse_request, (client,), line),
    ensures
        line is Some <==> (old(client)@.peer matches Some(peer) && peer.closed is None
            && peer.requests.len() > 0),
        line is None ==> final(client)@ == old(client)@,
        line matches Some(answer) ==> carries_error(
            answer@,
            old(client)@.peer->0.requests[0]->Request_0.id,
            METHOD_NOT_FOUND,
            "Method not found"@,
            None,
        ) && METHOD_NOT_FOUND == -32601 && final(client)@.peer == Some(
            PeerView {
                requests: old(client)@.peer->0.requests.drop_first(),
                ..old(client)@.peer->0
            },
        ),
{
}

/// A runtime that is gone closes the transport with a report that says so, with its exit code and
/// the last lines of its stderr; every awaited request fails, and a transport that was closed before
/// keeps its error.
pub proof fn law_a_runtime_that_is_gone_closes_the_transport(
    client: &mut HarnessClient,
    exit_code: Option<i32>,
    failed: Vec<String>,
    request: Seq<char>,
)
    requires
        call_ensures(HarnessClient::runtime_gone, (client, exit_code), failed),
    ensures
        final(client)@.phase == old(client)@.phase,
        old(client)@.peer is None ==> final(client)@ == old(client)@ && failed@.len() == 0,
        old(client)@.peer matches Some(peer) ==> {
            &&& texts(failed@).contains(request) <==> peer.pending.contains_key(request)
            &&& peer.closed is Some ==> final(client)@ == old(client)@
            &&& peer.closed is None ==> final(client)@.peer->0.closed == Some(
                closed_view(
                    "DeepSeek Harness runtime stdout closed"@,
                    exit_code,
                    last_lines(old(client)@.stderr),
                ),
            ) && final(client)@.peer->0.pending.dom().is_empty()
        },
{
    if old(client)@.peer is None && failed@.len() > 0 {
        assert(texts(failed@)[0] == failed@[0]@);
        assert(texts(failed@).contains(failed@[0]@));
    }
}

/// A client's subscription is one of its transport, refused before the start; a session tree is
/// subscribed to by its root.
pub proof fn law_a_client_subscribes_by_its_transport(
    client: &mut HarnessClient,
    session_id: &str,
    result: Result<NotificationSubscription, SdkError>,
)
    requires
        call_ensures(HarnessClient::subscribe_session_tree, (client, session_id), result),
        old(client)@.consistent(),
    ensures
        old(client)@.peer is None ==> final(client)@ == old(client)@ && (result matches Err(error)
            && error@ == closed_view("DeepSeek Harness runtime is not running"@, None, seq![])),
        old(client)@.peer matches Some(peer) ==> match peer.closed {
            Some(closed) => final(client)@ == old(client)@ && (result matches Err(error) && error@
                == closed),
            None => result matches Ok(subscription) && !peer.subscribers.contains_key(
                subscription.id,
            ) && final(client)@.peer->0.subscribers == peer.subscribers.insert(
                subscription.id,
                SubscriberView {
                    filter: FilterView::SessionTree(session_id@),
                    inbox: InboxView { queue: seq![], ended: None, superseded: false },
                },
            ),
        },
{
}

/// A deadline that passes fails its request with a timeout that carries the runtime's diagnostics,
/// and leaves the others awaited.
pub proof fn law_a_late_request_fails_with_diagnostics(
    client: &mut HarnessClient,
    id: &str,
    exit_code: Option<i32>,
    late: Option<SdkError>,
    other: Seq<char>,
)
    requires
        call_ensures(HarnessClient::expire, (client, id, exit_code), late),
    ensures
        late is Some <==> (old(client)@.peer matches Some(peer) && peer.pending.contains_key(id@)),
        late matches Some(error) ==> error@ == (SdkErrorView::RequestTimeout {
            message: report(
                old(client)@.peer->0.pending[id@]
                    + " timed out waiting for DeepSeek Harness runtime"@,
                exit_code,
                last_lines(old(client)@.stderr),
            ),
        }),
        final(client)@.peer matches Some(peer) ==> !peer.pending.contains_key(id@) && (other != id@
            ==> peer.pending.contains_key(other) == old(client)@.peer->0.pending.contains_key(
            other,
        )),
        final(client)@.phase == old(client)@.phase,
{
}

/// Taking from a subscription of a client gives its oldest notification, then its error, and nothing
/// while it has neither; a client that was never started has none to give.
pub proof fn law_a_client_hands_out_what_its_subscriptions_hold(
    client: &mut HarnessClient,
    subscription: &mut NotificationSubscription,
    delivery: Delivery,
    peer: PeerView,
)
    requires
        call_ensures(HarnessClient::next, (client, subscription), delivery),
    ensures
        final(subscription).id == old(subscription).id,
        old(client)@.peer is None ==> final(client)@ == old(client)@ && (delivery
            matches Delivery::Ended(error) && error@ == closed_view(
            "DeepSeek Harness runtime is not running"@,
            None,
            seq![],
        )),
        old(client)@.peer == Some(peer) && peer.subscribers.contains_key(old(subscription).id) && !(
        peer.unmatched matches Some(unmatched) && unmatched.id == old(subscription).id) ==> {
            let inbox = peer.subscribers[old(subscription).id].inbox;
            let after = final(client)@.peer->0.subscribers[old(subscription).id].inbox;
            &&& inbox.queue.len() > 0 ==> (delivery matches Delivery::Ready(notification)
                && notification@ == inbox.queue[0]) && after.queue == inbox.queue.drop_first()
            &&& inbox.queue.len() == 0 && inbox.ended is Some ==> (delivery matches Delivery::Ended(
                error,
            ) && Some(error@) == inbox.ended) && after == inbox
            &&& inbox.queue.len() == 0 && inbox.ended is None && !inbox.superseded ==> delivery
                is Waiting && after == inbox
        },
        final(client)@.phase == old(client)@.phase,
        final(client)@.parents == old(client)@.parents,
        final(client)@.stderr == old(client)@.stderr,
{
}

/// A client subscribes with the filter that it is given, and ends the subscription that it is given.
pub proof fn law_a_client_subscribes_and_unsubscribes(
    client: &mut HarnessClient,
    filter: NotificationFilter,
    result: Result<NotificationSubscription, SdkError>,
    ending: &mut HarnessClient,
    subscription: NotificationSubscription,
    other: u64,
)
    requires
        call_ensures(HarnessClient::subscribe, (client, filter), result),
        call_ensures(HarnessClient::unsubscribe, (ending, subscription), ()),
        old(client)@.consistent(),
    ensures
        result is Ok <==> (old(client)@.peer matches Some(peer) && peer.closed is None),
        result matches Ok(made) ==> !old(client)@.peer->0.subscribers.contains_key(made.id)
            && final(client)@.peer->0.subscribers == old(client)@.peer->0.subscribers.insert(
            made.id,
            SubscriberView {
                filter: match filter {
                    NotificationFilter::All => FilterView::All,
                    NotificationFilter::SessionTree(root) => FilterView::SessionTree(root@),
                    NotificationFilter::Custom => FilterView::Custom,
                },
                inbox: InboxView { queue: seq![], ended: None, superseded: false },
            },
        ),
        result is Err ==> final(client)@ == old(client)@,
        final(client)@.peer is Some ==> final(client)@.peer->0.pending
            == old(client)@.peer->0.pending,
        old(ending)@.peer matches Some(peer) ==> {
            let left = final(ending)@.peer->0.subscribers;
            &&& !left.contains_key(subscription.id)
            &&& other != subscription.id ==> left.contains_key(other)
                == peer.subscribers.contains_key(other)
            &&& other != subscription.id && peer.subscribers.contains_key(other) ==> left[other]
                == peer.subscribers[other]
            &&& final(ending)@.peer->0.pending == peer.pending
        },
        old(ending)@.peer is None ==> final(ending)@ == old(ending)@,
{
}

/// A client reports the error that closed its transport, and fails what cannot be written with it,
/// or with the report that stdin is closed, or that nothing runs.
pub proof fn law_a_client_reports_why_it_is_closed(
    client: &mut HarnessClient,
    id: &str,
    failed: SdkError,
    plain: SdkError,
    closed: Option<SdkError>,
    method: &str,
    params: Option<Json>,
    notified: Result<String, SdkError>,
)
    requires
        call_ensures(HarnessClient::write_failed, (client, id), failed),
        call_ensures(HarnessClient::write_error, (&*old(client),), plain),
        call_ensures(HarnessClient::closed_error, (&*old(client),), closed),
        call_ensures(HarnessClient::notify, (&*old(client), method, params), notified),
    ensures
        plain@ == failed@,
        old(client)@.peer is None ==> closed is None && failed@ == closed_view(
            "DeepSeek Harness runtime is not running"@,
            None,
            seq![],
        ) && (notified matches Err(error) && error@ == failed@),
        old(client)@.peer matches Some(peer) ==> {
            &&& opt_error(closed) == peer.closed
            &&& peer.closed matches Some(error) ==> failed@ == error && (notified matches Err(
                refused,
            ) && refused@ == error)
            &&& peer.closed is None ==> failed@ == closed_view(
                "DeepSeek Harness runtime stdin closed"@,
                None,
                seq![],
            ) && (notified matches Ok(line) && carries(
                line@,
                notification_frame(method@, opt_tree(params)),
            ))
            &&& final(client)@ == (ClientView {
                peer: Some(PeerView { pending: peer.pending.remove(id@), ..peer }),
                ..old(client)@
            })
        },
{
}

/// Unless told otherwise, a client waits for answers as long as it takes and for a shutdown one
/// second, and everything else is left open.
pub proof fn law_the_default_options(options: HarnessClientOptions)
    requires
        call_ensures(<HarnessClientOptions as Default>::default, (), options),
    ensures
        options.request_timeout_nanos is None,
        options.shutdown_timeout_nanos == 1_000_000_000,
        options.command is None && options.runtime_bin is None && options.launch_args_override
            is None,
        options.args@.len() == 0,
        options.cwd is None && options.env is None,
        options.runtime_index_url is None && options.runtime_version is None
            && options.runtime_cache_dir is None,
{
}

/// A negative timeout is no time at all, and any other is kept.
pub proof fn law_a_timeout_is_never_negative(nanos: i64, wait: u64)
    requires
        call_ensures(clamp_timeout, (nanos,), wait),
    ensures
        nanos <= 0 ==> wait == 0,
        nanos >= 0 ==> wait == nanos,
{
}

/// A client gives its options and its phase as they are, and has room as long as its transport has;
/// a copy of a notification is the same notification.
pub proof fn law_a_client_tells_its_state(
    client: HarnessClient,
    options: &HarnessClientOptions,
    phase: ClientPhase,
    room: bool,
    notification: Notification,
    copy: Notification,
)
    requires
        call_ensures(HarnessClient::options, (&client,), options),
        call_ensures(HarnessClient::phase, (&client,), phase),
        call_ensures(HarnessClient::has_room, (&client,), room),
        call_ensures(<Notification as Clone>::clone, (&notification,), copy),
    ensures
        *options == client@.options,
        phase == client@.phase,
        client@.peer is None ==> room,
        client@.peer matches Some(peer) ==> (room <==> peer.next_id < u64::MAX),
        copy.method@ == notification.method@,
        copy.payload@ == notification.payload@,
{
}

} // verus!
