//! The high-level own-runtime API: what a harness launches, how one run is collected, and what it
//! results in.

use std::path::PathBuf;

use vstd::prelude::*;
use vstd::string::*;

use crate::client::{
    CloseAction, CloseEvent, ClientPhase, HarnessClient, HarnessClientOptions, InitializeParams,
    Notification,
};
#[allow(unused_imports)]
use crate::client::{
    client_request_sent, close_advanced, close_begun, deadline, initialize_payload,
    opt_clamped, prompt_payload, ClientView, NotificationView,
};
use crate::error::SdkError;
#[allow(unused_imports)]
use crate::error::SdkErrorView;
use crate::events::{final_response, finish_reason, is_inbox_receipt, is_text};
#[allow(unused_imports)]
use crate::events::{inbox_receipt, last_committed_text, last_finish, FinishView};
#[allow(unused_imports)]
use crate::frames::{carries, request_frame};
use crate::json::{set_member, Json};
#[allow(unused_imports)]
use crate::json::{items_tree, JsonView};
use crate::launch::{copy_opt_path, copy_opt_text};
use crate::text::{copy_texts, same_text};
#[allow(unused_imports)]
use crate::text::{opt_text, texts};
use crate::text_map::TextMap;
#[allow(unused_imports)]
use crate::text_map::text_values;
use crate::transport::{NotificationSubscription, OutgoingRequest};
#[allow(unused_imports)]
use crate::transport::{notification_views, FilterView, PeerView};
use crate::trusted::ident::new_simple_uuid;
#[allow(unused_imports)]
use crate::trusted::ident::{hyphenated_form, simple_form};
use crate::trusted::path::{copy_path, path_lossy};
#[allow(unused_imports)]
use crate::trusted::path::lossy_text;

verus! {

/// Configuration for launching the local DeepSeek Harness SDK runtime.
///
/// The runtime inherits the caller's environment by default, so existing `DEEPSEEK_API_KEY` and
/// `DEEPSEEK_BASE_URL` settings keep working; `env` entries overlay it for the subprocess.
#[derive(Debug, PartialEq)]
pub struct DeepSeekHarnessConfig {
    /// Provider route for the `initialize` handshake. Default `deepseek-official`.
    pub provider: String,
    /// Model name for the `initialize` handshake. Default `deepseek-v4-flash`.
    pub model: String,
    /// Optional positive output-token cap inherited by SDK-created agents.
    pub max_tokens: Option<u64>,
    /// Workspace directory recorded on every SDK-created session; resolved to an absolute,
    /// symlink-free path. Default the process working directory.
    pub cwd: Option<PathBuf>,
    /// Working directory of the spawned runtime; resolved the same way. Default the workspace
    /// `cwd`.
    pub runtime_cwd: Option<PathBuf>,
    /// Persistent session root; sets `DSH_SESSION_ROOT` when given.
    pub session_root: Option<PathBuf>,
    /// Explicit runtime `cordis.yml`; sets `DSH_CORDIS_CONFIG` when given.
    pub cordis: Option<PathBuf>,
    /// Extra environment entries for the runtime subprocess.
    pub env: TextMap<String>,
    /// Explicit path of the single-file runtime executable.
    pub runtime_bin: Option<PathBuf>,
    /// Explicit argv tuple; wins over every other launch channel.
    pub launch_args_override: Option<Vec<String>>,
    /// Request deadline in nanoseconds; `None` waits indefinitely.
    pub request_timeout_nanos: Option<i64>,
    /// Budget in nanoseconds for the protocol `shutdown` request and each wait in the shutdown
    /// ladder. Default one second.
    pub shutdown_timeout_nanos: i64,
    /// Provider base URL; sets `DEEPSEEK_BASE_URL` when given.
    pub base_url: Option<String>,
    /// Provider API key; sets `DEEPSEEK_API_KEY` when given.
    pub api_key: Option<String>,
    /// PyPI-style index the downloader reads; default `https://pypi.org/pypi`.
    pub runtime_index_url: Option<String>,
    /// Runtime wheel version to download; default the crate version.
    pub runtime_version: Option<String>,
    /// Downloader cache directory; default the platform cache directory.
    pub runtime_cache_dir: Option<PathBuf>,
}

impl Default for DeepSeekHarnessConfig {
    fn default() -> (config: Self)
        ensures
            config.provider@ == "deepseek-official"@,
            config.model@ == "deepseek-v4-flash"@,
            config.max_tokens is None,
            config.cwd is None,
            config.runtime_cwd is None,
            config.session_root is None,
            config.cordis is None,
            config.env@ == Map::<Seq<char>, String>::empty(),
            config.runtime_bin is None,
            config.launch_args_override is None,
            config.request_timeout_nanos is None,
            config.shutdown_timeout_nanos == 1_000_000_000,
            config.base_url is None,
            config.api_key is None,
            config.runtime_index_url is None,
            config.runtime_version is None,
            config.runtime_cache_dir is None,
    {
        DeepSeekHarnessConfig {
            provider: "deepseek-official".to_owned(),
            model: "deepseek-v4-flash".to_owned(),
            max_tokens: None,
            cwd: None,
            runtime_cwd: None,
            session_root: None,
            cordis: None,
            env: TextMap::new(),
            runtime_bin: None,
            launch_args_override: None,
            request_timeout_nanos: None,
            shutdown_timeout_nanos: 1_000_000_000,
            base_url: None,
            api_key: None,
            runtime_index_url: None,
            runtime_version: None,
            runtime_cache_dir: None,
        }
    }
}

/// Prompt input: plain text becomes one text content block; a block list is sent verbatim as the
/// user message.
#[derive(Debug, PartialEq)]
pub enum Input {
    /// One text content block.
    Text(String),
    /// Content blocks sent verbatim.
    Blocks(Vec<Json>),
}

/// The content block of a text.
pub open spec fn text_block(text: Seq<char>) -> JsonView {
    JsonView::Object(
        Map::<Seq<char>, JsonView>::empty().insert("type"@, JsonView::String("text"@)).insert(
            "text"@,
            JsonView::String(text),
        ),
    )
}

impl View for Input {
    type V = Seq<JsonView>;

    /// The content blocks that are sent.
    open spec fn view(&self) -> Seq<JsonView> {
        match *self {
            Input::Text(text) => seq![text_block(text@)],
            Input::Blocks(blocks) => items_tree(blocks@),
        }
    }
}

impl Input {
    /// The content blocks that are sent.
    pub fn into_blocks(self) -> (blocks: Vec<Json>)
        ensures
            items_tree(blocks@) == self@,
    {
        match self {
            Input::Text(text) => {
                let mut members: Vec<(String, Json)> = Vec::new();
                set_member(&mut members, "type", Json::text("text"));
                set_member(&mut members, "text", Json::String(text));
                let mut blocks: Vec<Json> = Vec::new();
                blocks.push(Json::Object(members));
                assert(items_tree(blocks@) =~= seq![text_block(text@)]);
                blocks
            },
            Input::Blocks(blocks) => blocks,
        }
    }
}

impl From<&str> for Input {
    fn from(text: &str) -> (input: Self)
        ensures
            input@ == seq![text_block(text@)],
    {
        Input::Text(text.to_owned())
    }
}

impl vstd::std_specs::convert::FromSpecImpl<&str> for Input {
    open spec fn obeys_from_spec() -> bool {
        false
    }

    open spec fn from_spec(text: &str) -> Input {
        arbitrary()
    }
}

impl From<String> for Input {
    fn from(text: String) -> (input: Self) {
        Input::Text(text)
    }
}

impl vstd::std_specs::convert::FromSpecImpl<String> for Input {
    open spec fn obeys_from_spec() -> bool {
        true
    }

    open spec fn from_spec(text: String) -> Input {
        Input::Text(text)
    }
}

impl From<Vec<Json>> for Input {
    fn from(blocks: Vec<Json>) -> (input: Self) {
        Input::Blocks(blocks)
    }
}

impl vstd::std_specs::convert::FromSpecImpl<Vec<Json>> for Input {
    open spec fn obeys_from_spec() -> bool {
        true
    }

    open spec fn from_spec(blocks: Vec<Json>) -> Input {
        Input::Blocks(blocks)
    }
}

/// The environment entries of a harness: the configured ones, and over them what the rest of the
/// configuration sets.
pub open spec fn harness_env(config: DeepSeekHarnessConfig, cwd: PathBuf) -> Map<
    Seq<char>,
    Seq<char>,
> {
    let env = text_values(config.env@);
    let env = match config.session_root {
        Some(root) => env.insert("DSH_SESSION_ROOT"@, lossy_text(root)),
        None => env,
    };
    let env = match config.cordis {
        Some(cordis) => env.insert("DSH_CORDIS_CONFIG"@, lossy_text(cordis)),
        None => env,
    };
    let env = env.insert("DSH_CWD"@, lossy_text(cwd));
    let env = match config.base_url {
        Some(url) => env.insert("DEEPSEEK_BASE_URL"@, url@),
        None => env,
    };
    match config.api_key {
        Some(key) => env.insert("DEEPSEEK_API_KEY"@, key@),
        None => env,
    }
}

/// The contents of an optional list of strings.
pub open spec fn opt_texts(lines: Option<Vec<String>>) -> Option<Seq<Seq<char>>> {
    match lines {
        Some(lines) => Some(texts(lines@)),
        None => None,
    }
}

/// The client options that a configuration comes to.
pub open spec fn derived_options(
    config: DeepSeekHarnessConfig,
    cwd: PathBuf,
    runtime_cwd: Option<PathBuf>,
    options: HarnessClientOptions,
) -> bool {
    &&& options.command is None
    &&& options.args@.len() == 0
    &&& options.runtime_bin == config.runtime_bin
    &&& opt_texts(options.launch_args_override) == opt_texts(config.launch_args_override)
    &&& options.cwd == Some(
        match runtime_cwd {
            Some(dir) => dir,
            None => cwd,
        },
    )
    &&& options.env matches Some(env)
    &&& text_values(env@) == harness_env(config, cwd)
    &&& options.request_timeout_nanos == config.request_timeout_nanos
    &&& options.shutdown_timeout_nanos == config.shutdown_timeout_nanos
    &&& opt_text(options.runtime_index_url) == opt_text(config.runtime_index_url)
    &&& opt_text(options.runtime_version) == opt_text(config.runtime_version)
    &&& options.runtime_cache_dir == config.runtime_cache_dir
}

/// Sets a text entry.
fn set_entry(env: &mut TextMap<String>, key: &str, value: String)
    ensures
        text_values(final(env)@) == text_values(old(env)@).insert(key@, value@),
{
    env.insert(key.to_owned(), value);
    assert(text_values(env@) =~= text_values(old(env)@).insert(key@, value@));
}

/// A copy of text entries.
fn copy_entries(env: &TextMap<String>) -> (copy: TextMap<String>)
    ensures
        text_values(copy@) == text_values(env@),
{
    let mut copy: TextMap<String> = TextMap::new();
    let mut i: usize = 0;
    assert(env.entries@.take(0) =~= seq![]);
    assert(text_values(copy@) =~= text_values(crate::text_map::entries_map(env.entries@.take(0))));
    while i < env.entries.len()
        invariant
            i <= env.entries@.len(),
            text_values(copy@) == text_values(
                crate::text_map::entries_map(env.entries@.take(i as int)),
            ),
        decreases env.entries@.len() - i,
    {
        let ghost some = crate::text_map::entries_map(env.entries@.take(i as int));
        let ghost key = env.entries@[i as int].0@;
        let ghost value = env.entries@[i as int].1;
        set_entry(&mut copy, env.entries[i].0.as_str(), env.entries[i].1.clone());
        proof {
            assert(env.entries@.take(i + 1).drop_last() =~= env.entries@.take(i as int));
            assert(crate::text_map::entries_map(env.entries@.take(i + 1)) == some.insert(
                key,
                value,
            ));
            assert(text_values(some.insert(key, value)) =~= text_values(some).insert(key, value@));
        }
        i += 1;
    }
    assert(env.entries@.take(i as int) =~= env.entries@);
    copy
}

impl DeepSeekHarnessConfig {
    /// The environment entries of a harness.
    fn assemble_env(&self, cwd: &PathBuf) -> (env: TextMap<String>)
        ensures
            text_values(env@) == harness_env(*self, *cwd),
    {
        let mut env = copy_entries(&self.env);
        if let Some(root) = &self.session_root {
            set_entry(&mut env, "DSH_SESSION_ROOT", path_lossy(root));
        }
        if let Some(cordis) = &self.cordis {
            set_entry(&mut env, "DSH_CORDIS_CONFIG", path_lossy(cordis));
        }
        set_entry(&mut env, "DSH_CWD", path_lossy(cwd));
        if let Some(url) = &self.base_url {
            set_entry(&mut env, "DEEPSEEK_BASE_URL", url.clone());
        }
        if let Some(key) = &self.api_key {
            set_entry(&mut env, "DEEPSEEK_API_KEY", key.clone());
        }
        env
    }

    /// The client options that the configuration comes to, with the workspace directory and, where
    /// it was configured, the runtime's own working directory, both resolved.
    pub fn client_options(&self, cwd: &PathBuf, runtime_cwd: Option<PathBuf>) -> (options:
        HarnessClientOptions)
        ensures
            derived_options(*self, *cwd, runtime_cwd, options),
    {
        HarnessClientOptions {
            command: None,
            args: Vec::new(),
            runtime_bin: copy_opt_path(&self.runtime_bin),
            launch_args_override: match &self.launch_args_override {
                Some(argv) => Some(copy_texts(argv)),
                None => None,
            },
            cwd: match runtime_cwd {
                Some(dir) => Some(dir),
                None => Some(copy_path(cwd)),
            },
            env: Some(self.assemble_env(cwd)),
            request_timeout_nanos: self.request_timeout_nanos,
            shutdown_timeout_nanos: self.shutdown_timeout_nanos,
            runtime_index_url: copy_opt_text(&self.runtime_index_url),
            runtime_version: copy_opt_text(&self.runtime_version),
            runtime_cache_dir: copy_opt_path(&self.runtime_cache_dir),
        }
    }
}

/// The result of one owned run interval.
#[derive(Debug, PartialEq)]
pub struct RunResult {
    /// Session the prompt ran on.
    pub session_id: String,
    /// Last committed assistant text of the root session within the interval.
    pub final_response: String,
    /// Reason kind of the last `turn/end` in the interval, if any.
    pub finish_reason: Option<String>,
    /// Root-session events collected during the interval, in protocol order.
    pub events: Vec<Json>,
    /// All collected notifications, in protocol order.
    pub notifications: Vec<Notification>,
    /// The configured persistent session root, if any.
    pub session_root: Option<PathBuf>,
}

/// The event that a notification brings of a session: the object `event` of its `session.event`.
pub open spec fn root_event(notification: NotificationView, session_id: Seq<char>) -> Option<
    JsonView,
> {
    if notification.method == "session.event"@ && notification.payload.text_field("sessionId"@)
        == Some(session_id) {
        match notification.payload.field("event"@) {
            Some(event) if event is Object => Some(event),
            _ => None,
        }
    } else {
        None
    }
}

/// The notification says that a session is idle.
pub open spec fn root_idle(notification: NotificationView, session_id: Seq<char>) -> bool {
    &&& notification.method == "session.status"@
    &&& notification.payload.text_field("sessionId"@) == Some(session_id)
    &&& notification.payload.text_field("status"@) == Some("idle"@)
}

/// What has been collected of a run.
pub struct RunView {
    /// The session that was prompted.
    pub session_id: Seq<char>,
    /// The id of the queued prompt.
    pub message_id: Seq<char>,
    /// Whether the prompt's inbox receipt has come.
    pub received: bool,
    /// Whether the session has gone idle since.
    pub done: bool,
    /// The events of the session.
    pub events: Seq<JsonView>,
    /// All notifications of the interval.
    pub notifications: Seq<NotificationView>,
}

impl RunView {
    /// A run of which nothing has been collected.
    pub open spec fn fresh(session_id: Seq<char>, message_id: Seq<char>) -> RunView {
        RunView {
            session_id,
            message_id,
            received: false,
            done: false,
            events: seq![],
            notifications: seq![],
        }
    }

    /// The notification belongs to the run's interval: the interval is open, or this is the
    /// receipt that opens it.
    pub open spec fn collects(self, notification: NotificationView) -> bool {
        !self.done && (self.received || inbox_receipt(
            notification,
            self.session_id,
            self.message_id,
        ))
    }

    /// The run after one more notification.
    pub open spec fn step(self, notification: NotificationView) -> RunView {
        if self.collects(notification) {
            RunView {
                received: true,
                done: root_idle(notification, self.session_id),
                events: match root_event(notification, self.session_id) {
                    Some(event) => self.events.push(event),
                    None => self.events,
                },
                notifications: self.notifications.push(notification),
                ..self
            }
        } else {
            self
        }
    }
}

/// What came of one notification of a run.
#[derive(Debug, PartialEq, Eq, Clone, Copy, Structural)]
pub enum RunStep {
    /// It is not part of the interval.
    Ignored,
    /// It was collected, and the interval goes on.
    Collected,
    /// It was collected, and closes the interval.
    Finished,
}

/// Collects one run: from the inbox receipt of the prompt to the next time the session is idle.
pub struct RunCollector {
    session_id: String,
    message_id: String,
    received: bool,
    done: bool,
    events: Vec<Json>,
    notifications: Vec<Notification>,
}

impl View for RunCollector {
    type V = RunView;

    closed spec fn view(&self) -> RunView {
        RunView {
            session_id: self.session_id@,
            message_id: self.message_id@,
            received: self.received,
            done: self.done,
            events: items_tree(self.events@),
            notifications: notification_views(self.notifications@),
        }
    }
}

/// The event that a notification brings of a session.
fn find_root_event(notification: &Notification, session_id: &str) -> (event: Option<Json>)
    ensures
        crate::json::opt_tree(event) == root_event(notification@, session_id@),
{
    if !same_text(notification.method.as_str(), "session.event") || !is_text(
        notification.payload.get_str("sessionId"),
        session_id,
    ) {
        return None;
    }
    match notification.payload.get("event") {
        Some(event) => if event.is_object() {
            Some(event.clone())
        } else {
            None
        },
        None => None,
    }
}

/// Whether the notification says that a session is idle.
fn is_root_idle(notification: &Notification, session_id: &str) -> (idle: bool)
    ensures
        idle == root_idle(notification@, session_id@),
{
    same_text(notification.method.as_str(), "session.status") && is_text(
        notification.payload.get_str("sessionId"),
        session_id,
    ) && is_text(notification.payload.get_str("status"), "idle")
}

impl RunCollector {
    /// Begins to collect the run of one queued prompt.
    pub fn new(session_id: &str, message_id: &str) -> (collector: Self)
        ensures
            collector@ == RunView::fresh(session_id@, message_id@),
    {
        let collector = RunCollector {
            session_id: session_id.to_owned(),
            message_id: message_id.to_owned(),
            received: false,
            done: false,
            events: Vec::new(),
            notifications: Vec::new(),
        };
        assert(collector@.events =~= seq![]);
        assert(collector@.notifications =~= seq![]);
        collector
    }

    /// Takes one notification of the session tree.
    pub fn take(&mut self, notification: &Notification) -> (step: RunStep)
        ensures
            final(self)@ == old(self)@.step(notification@),
            step == (if !old(self)@.collects(notification@) {
                RunStep::Ignored
            } else if root_idle(notification@, old(self)@.session_id) {
                RunStep::Finished
            } else {
                RunStep::Collected
            }),
    {
        if self.done {
            return RunStep::Ignored;
        }
        if !self.received {
            if !is_inbox_receipt(
                notification,
                self.session_id.as_str(),
                self.message_id.as_str(),
            ) {
                return RunStep::Ignored;
            }
            self.received = true;
        }
        let ghost events = items_tree(self.events@);
        let ghost notifications = notification_views(self.notifications@);
        if let Some(event) = find_root_event(notification, self.session_id.as_str()) {
            self.events.push(event);
            assert(items_tree(self.events@) =~= events.push(event@));
        }
        self.notifications.push(notification.clone());
        assert(notification_views(self.notifications@) =~= notifications.push(notification@));
        if is_root_idle(notification, self.session_id.as_str()) {
            self.done = true;
            RunStep::Finished
        } else {
            RunStep::Collected
        }
    }

    /// The result of the run. A last `turn/end` without a string `data.reason.kind` is a protocol
    /// violation.
    pub fn finish(self, session_root: Option<PathBuf>) -> (result: Result<RunResult, SdkError>)
        ensures
            match (last_finish(self@.events), result) {
                (FinishView::Malformed, Err(error)) => error@ == (SdkErrorView::Protocol {
                    message: "turn/end event requires a string data.reason.kind"@,
                }),
                (FinishView::Malformed, Ok(_)) => false,
                (finish, Ok(result)) => {
                    &&& result.session_id@ == self@.session_id
                    &&& result.final_response@ == last_committed_text(self@.events)
                    &&& opt_text(result.finish_reason) == (match finish {
                        FinishView::Reason(kind) => Some(kind),
                        _ => None,
                    })
                    &&& items_tree(result.events@) == self@.events
                    &&& notification_views(result.notifications@) == self@.notifications
                    &&& result.session_root == session_root
                },
                _ => false,
            },
    {
        let response = final_response(&self.events);
        match finish_reason(&self.events) {
            Ok(reason) => Ok(
                RunResult {
                    session_id: self.session_id,
                    final_response: response,
                    finish_reason: reason,
                    events: self.events,
                    notifications: self.notifications,
                    session_root,
                },
            ),
            Err(error) => Err(error),
        }
    }
}

/// A run after a sequence of notifications.
pub open spec fn run_over(start: RunView, notifications: Seq<NotificationView>) -> RunView
    decreases notifications.len(),
{
    if notifications.len() == 0 {
        start
    } else {
        run_over(start, notifications.drop_last()).step(notifications.last())
    }
}

/// The events that a sequence of notifications brings of a session, in order.
pub open spec fn root_events(
    notifications: Seq<NotificationView>,
    session_id: Seq<char>,
) -> Seq<JsonView>
    decreases notifications.len(),
{
    if notifications.len() == 0 {
        seq![]
    } else {
        let before = root_events(notifications.drop_last(), session_id);
        match root_event(notifications.last(), session_id) {
            Some(event) => before.push(event),
            None => before,
        }
    }
}

/// The place of a prompt's inbox receipt among notifications: nothing before it is one.
pub open spec fn first_receipt(
    notifications: Seq<NotificationView>,
    session_id: Seq<char>,
    message_id: Seq<char>,
    at: int,
) -> bool {
    &&& 0 <= at < notifications.len()
    &&& inbox_receipt(notifications[at], session_id, message_id)
    &&& forall|i: int|
        0 <= i < at ==> !inbox_receipt(#[trigger] notifications[i], session_id, message_id)
}

/// Before the prompt's inbox receipt nothing is collected.
pub proof fn law_nothing_precedes_the_receipt(
    notifications: Seq<NotificationView>,
    session_id: Seq<char>,
    message_id: Seq<char>,
)
    requires
        forall|i: int|
            0 <= i < notifications.len() ==> !inbox_receipt(
                #[trigger] notifications[i],
                session_id,
                message_id,
            ),
    ensures
        run_over(RunView::fresh(session_id, message_id), notifications) == RunView::fresh(
            session_id,
            message_id,
        ),
    decreases notifications.len(),
{
    if notifications.len() > 0 {
        let rest = notifications.drop_last();
        assert forall|i: int| 0 <= i < rest.len() implies !inbox_receipt(
            #[trigger] rest[i],
            session_id,
            message_id,
        ) by {
            assert(rest[i] == notifications[i]);
        }
        law_nothing_precedes_the_receipt(rest, session_id, message_id);
        assert(notifications.last() == notifications[notifications.len() - 1]);
    }
}

/// While the session has not gone idle since the receipt, everything from the receipt on is
/// collected.
pub proof fn law_the_interval_opens_with_the_receipt(
    notifications: Seq<NotificationView>,
    session_id: Seq<char>,
    message_id: Seq<char>,
    receipt: int,
)
    requires
        first_receipt(notifications, session_id, message_id, receipt),
        forall|i: int|
            receipt <= i < notifications.len() ==> !root_idle(
                #[trigger] notifications[i],
                session_id,
            ),
    ensures
        run_over(RunView::fresh(session_id, message_id), notifications) == (RunView {
            session_id,
            message_id,
            received: true,
            done: false,
            events: root_events(notifications.skip(receipt), session_id),
            notifications: notifications.skip(receipt),
        }),
    decreases notifications.len(),
{
    let rest = notifications.drop_last();
    let last = notifications.last();
    assert(last == notifications[notifications.len() - 1]);
    let interval = notifications.skip(receipt);
    assert(interval.last() == last);
    assert forall|i: int| 0 <= i < rest.len() implies rest[i] == notifications[i] by {}
    if receipt == notifications.len() - 1 {
        assert forall|i: int| 0 <= i < rest.len() implies !inbox_receipt(
            #[trigger] rest[i],
            session_id,
            message_id,
        ) by {
            assert(rest[i] == notifications[i]);
        }
        law_nothing_precedes_the_receipt(rest, session_id, message_id);
        assert(interval.drop_last() =~= seq![]);
        assert(root_events(seq![], session_id) =~= seq![]);
        assert(interval =~= seq![].push(last));
    } else {
        assert(first_receipt(rest, session_id, message_id, receipt)) by {
            assert(rest[receipt] == notifications[receipt]);
            assert forall|i: int| 0 <= i < receipt implies !inbox_receipt(
                #[trigger] rest[i],
                session_id,
                message_id,
            ) by {
                assert(rest[i] == notifications[i]);
            }
        }
        assert forall|i: int| receipt <= i < rest.len() implies !root_idle(
            #[trigger] rest[i],
            session_id,
        ) by {
            assert(rest[i] == notifications[i]);
        }
        law_the_interval_opens_with_the_receipt(rest, session_id, message_id, receipt);
        assert(interval.drop_last() =~= rest.skip(receipt));
        assert(interval =~= rest.skip(receipt).push(last));
    }
}

/// A run owns the interval from its prompt's inbox receipt to the next time its session is idle,
/// both ends included: exactly those notifications are collected, in order, with exactly the
/// session's events among them, whatever follows.
pub proof fn law_a_run_owns_its_interval(
    notifications: Seq<NotificationView>,
    session_id: Seq<char>,
    message_id: Seq<char>,
    receipt: int,
    idle: int,
)
    requires
        first_receipt(notifications, session_id, message_id, receipt),
        receipt <= idle < notifications.len(),
        root_idle(notifications[idle], session_id),
        forall|i: int|
            receipt <= i < idle ==> !root_idle(#[trigger] notifications[i], session_id),
    ensures
        run_over(RunView::fresh(session_id, message_id), notifications) == (RunView {
            session_id,
            message_id,
            received: true,
            done: true,
            events: root_events(notifications.subrange(receipt, idle + 1), session_id),
            notifications: notifications.subrange(receipt, idle + 1),
        }),
    decreases notifications.len(),
{
    let rest = notifications.drop_last();
    let last = notifications.last();
    assert(last == notifications[notifications.len() - 1]);
    assert forall|i: int| 0 <= i < rest.len() implies rest[i] == notifications[i] by {}
    if idle < notifications.len() - 1 {
        assert(first_receipt(rest, session_id, message_id, receipt)) by {
            assert(rest[receipt] == notifications[receipt]);
            assert forall|i: int| 0 <= i < receipt implies !inbox_receipt(
                #[trigger] rest[i],
                session_id,
                message_id,
            ) by {
                assert(rest[i] == notifications[i]);
            }
        }
        assert(rest[idle] == notifications[idle]);
        assert forall|i: int| receipt <= i < idle implies !root_idle(
            #[trigger] rest[i],
            session_id,
        ) by {
            assert(rest[i] == notifications[i]);
        }
        law_a_run_owns_its_interval(rest, session_id, message_id, receipt, idle);
        assert(rest.subrange(receipt, idle + 1) =~= notifications.subrange(receipt, idle + 1));
    } else {
        let interval = notifications.subrange(receipt, idle + 1);
        assert(interval.last() == last);
        if receipt == idle {
            reveal_strlit("session.event");
            reveal_strlit("session.status");
            assert("session.event"@.len() != "session.status"@.len());
            assert(false);
        }
        assert(first_receipt(rest, session_id, message_id, receipt)) by {
            assert(rest[receipt] == notifications[receipt]);
            assert forall|i: int| 0 <= i < receipt implies !inbox_receipt(
                #[trigger] rest[i],
                session_id,
                message_id,
            ) by {
                assert(rest[i] == notifications[i]);
            }
        }
        assert forall|i: int| receipt <= i < rest.len() implies !root_idle(
            #[trigger] rest[i],
            session_id,
        ) by {
            assert(rest[i] == notifications[i]);
        }
        law_the_interval_opens_with_the_receipt(rest, session_id, message_id, receipt);
        assert(interval.drop_last() =~= rest.skip(receipt));
        assert(interval =~= rest.skip(receipt).push(last));
    }
}

/// The id of a fresh session: a prefix and a random identifier.
pub open spec fn is_fresh_session_id(id: Seq<char>) -> bool {
    exists|random: Seq<char>| #[trigger] simple_form(random) && id == "session-"@ + random
}

/// The session to prompt: the named one, or a fresh one.
pub fn choose_session(session_id: Option<&str>) -> (id: String)
    ensures
        match session_id {
            Some(named) => id@ == named@,
            None => is_fresh_session_id(id@),
        },
{
    match session_id {
        Some(named) => named.to_owned(),
        None => {
            let random = new_simple_uuid();
            let mut id = "session-".to_owned();
            id.append(random.as_str());
            assert(simple_form(random@) && id@ == "session-"@ + random@);
            id
        },
    }
}

/// A named session handle.
#[derive(Debug, PartialEq)]
pub struct Session {
    id: String,
}

impl View for Session {
    type V = Seq<char>;

    closed spec fn view(&self) -> Seq<char> {
        self.id@
    }
}

impl Session {
    /// The session id prompts run on.
    pub fn id(&self) -> (id: &str)
        ensures
            id@ == self@,
    {
        self.id.as_str()
    }

    /// Enqueues a prompt on this session.
    pub fn run(&self, harness: &mut DeepSeekHarness, input: Input) -> (result: Result<
        RunStart,
        SdkError,
    >)
        requires
            old(harness).wf(),
            old(harness)@.client.peer matches Some(peer) ==> peer.next_id < u64::MAX,
        ensures
            final(harness).wf(),
            run_begun(old(harness)@, final(harness)@, input@, result),
            result matches Ok(start) ==> start.session_id@ == self@,
    {
        harness.run(Some(self.id.as_str()), input)
    }
}

/// What starting a harness wants done.
#[derive(Debug, PartialEq)]
pub enum StartStep {
    /// Nothing: the harness is initialized.
    Ready,
    /// Launch the runtime and attach it with [`DeepSeekHarness::attach`], then start again.
    Launch,
    /// Send the handshake, and report its outcome to [`DeepSeekHarness::finish_start`].
    Handshake(OutgoingRequest),
    /// The handshake cannot be sent; the client begins to close.
    Failed(SdkError, CloseAction),
}

/// A run whose prompt is on its way.
#[derive(Debug, PartialEq)]
pub struct RunStart {
    /// The session that is prompted.
    pub session_id: String,
    /// The subscription to the session's tree.
    pub subscription: NotificationSubscription,
    /// The prompt request.
    pub request: OutgoingRequest,
}

/// What a [`DeepSeekHarness`] holds.
pub struct HarnessView {
    /// The configuration.
    pub config: DeepSeekHarnessConfig,
    /// The protocol client.
    pub client: ClientView,
    /// Whether the handshake has been made.
    pub initialized: bool,
    /// The resolved workspace directory.
    pub cwd: PathBuf,
}

impl HarnessView {
    /// The state with another client state.
    pub open spec fn with_client(self, client: ClientView) -> HarnessView {
        HarnessView { client, ..self }
    }

    /// The params of the handshake request.
    pub open spec fn handshake_payload(self) -> JsonView {
        initialize_payload(
            self.cwd,
            self.config.provider@,
            self.config.model@,
            self.config.max_tokens,
        )
    }
}

/// Reusable harness: the runtime subprocess starts lazily and stays owned by this instance across
/// runs.
pub struct DeepSeekHarness {
    config: DeepSeekHarnessConfig,
    client: HarnessClient,
    initialized: bool,
    cwd: PathBuf,
}

impl View for DeepSeekHarness {
    type V = HarnessView;

    closed spec fn view(&self) -> HarnessView {
        HarnessView {
            config: self.config,
            client: self.client@,
            initialized: self.initialized,
            cwd: self.cwd,
        }
    }
}

/// What starting a harness decides: an initialized one is ready, one without a runtime launches
/// it, and any other makes the handshake. Where that cannot be sent the client closes.
pub open spec fn start_decided(before: HarnessView, after: HarnessView, step: StartStep) -> bool {
    if before.initialized {
        step is Ready && after == before
    } else if before.client.phase is New {
        step is Launch && after == before
    } else {
        &&& after == before.with_client(after.client)
        &&& match before.client.peer->0.closed {
            None => step matches StartStep::Handshake(request) && client_request_sent(
                before.client,
                after.client,
                "initialize"@,
                Some(before.handshake_payload()),
                deadline(before.client.options, None),
                Ok(request),
            ),
            Some(closed) => step matches StartStep::Failed(error, action) && error@ == closed
                && close_begun(before.client, after.client, action),
        }
    }
}

/// What prompting decides: refused before the start and on a closed transport; otherwise the
/// session's tree is subscribed to first, and then the prompt is sent.
pub open spec fn run_begun(
    before: HarnessView,
    after: HarnessView,
    blocks: Seq<JsonView>,
    result: Result<RunStart, SdkError>,
) -> bool {
    match before.client.peer {
        None => result matches Err(error) && error@ == ClientView::not_running() && after == before,
        Some(peer) => match peer.closed {
            Some(closed) => result matches Err(error) && error@ == closed && after == before,
            None => {
                &&& result matches Ok(start)
                &&& start.subscription.id == peer.next_id
                &&& hyphenated_form(start.request.id@)
                &&& start.request.timeout == deadline(before.client.options, None)
                &&& carries(
                    start.request.line@,
                    request_frame(
                        start.request.id@,
                        "session/prompt"@,
                        Some(prompt_payload(start.session_id@, blocks)),
                    ),
                )
                &&& after == before.with_client(
                    before.client.with_peer(
                        peer.subscribed(FilterView::SessionTree(start.session_id@)).awaiting(
                            start.request.id@,
                            "session/prompt"@,
                        ),
                    ),
                )
            },
        },
    }
}

impl DeepSeekHarness {
    /// The state is one that the methods lead to.
    pub closed spec fn wf(self) -> bool {
        self.client.wf()
    }

    /// A harness for the given configuration. `cwd` is the configured workspace directory, or the
    /// process working directory where there is none, resolved; `runtime_cwd` is the configured
    /// working directory of the runtime, resolved.
    pub fn new(config: DeepSeekHarnessConfig, cwd: PathBuf, runtime_cwd: Option<PathBuf>) -> (harness:
        Self)
        ensures
            harness.wf(),
            derived_options(config, cwd, runtime_cwd, harness@.client.options),
            harness@ == (HarnessView {
                config,
                client: ClientView {
                    options: harness@.client.options,
                    phase: ClientPhase::New,
                    peer: None,
                    parents: Map::empty(),
                    stderr: seq![],
                    shutdown_failure: None,
                },
                initialized: false,
                cwd,
            }),
    {
        let options = config.client_options(&cwd, runtime_cwd);
        DeepSeekHarness { config, client: HarnessClient::new(options), initialized: false, cwd }
    }

    /// The configuration this harness was built with.
    pub fn config(&self) -> (config: &DeepSeekHarnessConfig)
        ensures
            *config == self@.config,
    {
        &self.config
    }

    /// The underlying protocol client, for callers that need the low-level surface.
    pub fn client(&self) -> (client: &HarnessClient)
        requires
            self.wf(),
        ensures
            client.wf(),
            client@ == self@.client,
    {
        &self.client
    }

    /// The underlying protocol client, to be changed.
    pub fn client_mut(&mut self) -> (client: &mut HarnessClient)
        requires
            old(self).wf(),
        ensures
            old(self)@.client == client@,
            client.wf(),
            final(self)@ == old(self)@.with_client(final(client)@),
            final(client).wf() ==> final(self).wf(),
    {
        &mut self.client
    }

    /// The next step of starting the runtime and making the memoized `initialize` handshake.
    pub fn start(&mut self) -> (step: StartStep)
        requires
            old(self).wf(),
        ensures
            final(self).wf(),
            start_decided(old(self)@, final(self)@, step),
    {
        if self.initialized {
            return StartStep::Ready;
        }
        match self.client.phase() {
            ClientPhase::New => return StartStep::Launch,
            _ => {},
        }
        proof {
            crate::client::law_reachable_states_are_consistent(self.client);
        }
        let params = InitializeParams {
            cwd: copy_path(&self.cwd),
            provider: self.config.provider.clone(),
            model: self.config.model.clone(),
            max_tokens: self.config.max_tokens,
        };
        match self.client.initialize(&params) {
            Ok(request) => StartStep::Handshake(request),
            Err(error) => {
                let action = self.client.close();
                StartStep::Failed(error, action)
            },
        }
    }

    /// Attaches the runtime that was just launched; see [`HarnessClient::start`].
    pub fn attach(&mut self) -> (attached: bool)
        requires
            old(self).wf(),
        ensures
            final(self).wf(),
            attached == (old(self)@.client.phase is New),
            final(self)@ == old(self)@.with_client(
                if attached {
                    ClientView {
                        phase: ClientPhase::Running,
                        peer: Some(
                            PeerView::fresh(
                                opt_clamped(old(self)@.client.options.request_timeout_nanos),
                            ),
                        ),
                        ..old(self)@.client
                    }
                } else {
                    old(self)@.client
                },
            ),
    {
        self.client.start()
    }

    /// Takes the outcome of the handshake: a success is remembered, a failure begins to close the
    /// client.
    pub fn finish_start(&mut self, outcome: Result<Json, SdkError>) -> (result: (
        Result<(), SdkError>,
        CloseAction,
    ))
        requires
            old(self).wf(),
        ensures
            final(self).wf(),
            match outcome {
                Ok(_) => {
                    &&& result.0 is Ok
                    &&& result.1 is Nothing
                    &&& final(self)@ == (HarnessView { initialized: true, ..old(self)@ })
                },
                Err(failure) => {
                    &&& result.0 matches Err(error) && error@ == failure@
                    &&& close_begun(old(self)@.client, final(self)@.client, result.1)
                    &&& final(self)@ == old(self)@.with_client(final(self)@.client)
                },
            },
    {
        let (result, action) = self.client.finish_initialize(outcome);
        match result {
            Ok(_) => {
                self.initialized = true;
                (Ok(()), action)
            },
            Err(error) => (Err(error), action),
        }
    }

    /// Begins to close the runtime with the shutdown ladder; the harness has to be started again.
    pub fn close(&mut self) -> (action: CloseAction)
        requires
            old(self).wf(),
        ensures
            final(self).wf(),
            close_begun(old(self)@.client, final(self)@.client, action),
            final(self)@ == (HarnessView {
                client: final(self)@.client,
                initialized: false,
                ..old(self)@
            }),
    {
        self.initialized = false;
        self.client.close()
    }

    /// Goes on closing, by what came of the last action.
    pub fn close_step(&mut self, event: CloseEvent) -> (action: CloseAction)
        requires
            old(self).wf(),
        ensures
            final(self).wf(),
            close_advanced(old(self)@.client, final(self)@.client, event, action),
            final(self)@ == old(self)@.with_client(final(self)@.client),
    {
        self.client.close_step(event)
    }

    /// A named session handle, or that of a fresh session when `session_id` is `None`.
    pub fn start_session(&self, session_id: Option<&str>) -> (session: Session)
        ensures
            match session_id {
                Some(named) => session@ == named@,
                None => is_fresh_session_id(session@),
            },
    {
        Session { id: choose_session(session_id) }
    }

    /// Begins one run: subscribes to the session's tree, and then enqueues the prompt.
    /// [`crate::client::read_prompt`] reads the prompt's outcome, and a [`RunCollector`] collects
    /// the run.
    pub fn run(&mut self, session_id: Option<&str>, input: Input) -> (result: Result<
        RunStart,
        SdkError,
    >)
        requires
            old(self).wf(),
            old(self)@.client.peer matches Some(peer) ==> peer.next_id < u64::MAX,
        ensures
            final(self).wf(),
            run_begun(old(self)@, final(self)@, input@, result),
            result matches Ok(start) ==> match session_id {
                Some(named) => start.session_id@ == named@,
                None => is_fresh_session_id(start.session_id@),
            },
    {
        let session_id = choose_session(session_id);
        let blocks = input.into_blocks();
        let subscription = match self.client.subscribe_session_tree(session_id.as_str()) {
            Ok(subscription) => subscription,
            Err(error) => return Err(error),
        };
        match self.client.session_prompt(session_id.as_str(), &blocks) {
            Ok(request) => Ok(RunStart { session_id, subscription, request }),
            Err(error) => Err(error),
        }
    }
}

/// Starting is memoized: a harness that has made its handshake does nothing more.
pub proof fn law_starting_is_memoized(
    before: HarnessView,
    after: HarnessView,
    step: StartStep,
)
    requires
        before.initialized,
        start_decided(before, after, step),
    ensures
        step is Ready,
        after == before,
{
}

/// A harness that was closed does not start again: its client keeps the error that closed it.
pub proof fn law_a_closed_harness_stays_closed(
    before: HarnessView,
    after: HarnessView,
    step: StartStep,
)
    requires
        before.client.consistent(),
        before.client.phase is Closed,
        !before.initialized,
        start_decided(before, after, step),
    ensures
        after == before,
        step matches StartStep::Failed(error, action) && Some(error@)
            == before.client.peer->0.closed && action is Nothing,
{
}

/// What the rest of the configuration sets wins over the configured environment entries; every
/// other entry stays.
pub proof fn law_the_configuration_overrides_its_environment(
    config: DeepSeekHarnessConfig,
    cwd: PathBuf,
    key: Seq<char>,
)
    ensures
        ({
            let env = harness_env(config, cwd);
            &&& env["DSH_CWD"@] == lossy_text(cwd)
            &&& config.session_root matches Some(root) ==> env["DSH_SESSION_ROOT"@] == lossy_text(
                root,
            )
            &&& config.cordis matches Some(cordis) ==> env["DSH_CORDIS_CONFIG"@] == lossy_text(
                cordis,
            )
            &&& config.base_url matches Some(url) ==> env["DEEPSEEK_BASE_URL"@] == url@
            &&& config.api_key matches Some(secret) ==> env["DEEPSEEK_API_KEY"@] == secret@
            &&& key != "DSH_CWD"@ && key != "DSH_SESSION_ROOT"@ && key != "DSH_CORDIS_CONFIG"@ && key
                != "DEEPSEEK_BASE_URL"@ && key != "DEEPSEEK_API_KEY"@ ==> {
                &&& env.contains_key(key) == text_values(config.env@).contains_key(key)
                &&& env.contains_key(key) ==> env[key] == text_values(config.env@)[key]
            }
        }),
{
    reveal_strlit("DSH_CWD");
    reveal_strlit("DSH_SESSION_ROOT");
    reveal_strlit("DSH_CORDIS_CONFIG");
    reveal_strlit("DEEPSEEK_BASE_URL");
    reveal_strlit("DEEPSEEK_API_KEY");
    assert("DSH_CWD"@.len() == 7);
    assert("DSH_SESSION_ROOT"@.len() == 16);
    assert("DSH_CORDIS_CONFIG"@.len() == 17);
    assert("DEEPSEEK_BASE_URL"@.len() == 17);
    assert("DEEPSEEK_API_KEY"@.len() == 16);
    assert("DSH_CORDIS_CONFIG"@[1] == 'S');
    assert("DSH_SESSION_ROOT"@[1] == 'S');
    assert("DEEPSEEK_BASE_URL"@[1] == 'E');
    assert("DEEPSEEK_API_KEY"@[1] == 'E');
}

/// A run takes nothing before the receipt of its prompt and nothing after its session has gone
/// idle. In between it takes every notification, whichever session it is of, and of those that are a
/// `session.event` of its own session the object `event`. It ends with the `session.status` of its
/// own session that says `idle`, and with no other.
pub proof fn law_a_run_takes_what_falls_into_its_interval(
    collector: &mut RunCollector,
    notification: Notification,
    step: RunStep,
)
    requires
        call_ensures(RunCollector::take, (collector, &notification), step),
    ensures
        ({
            let before = old(collector)@;
            let after = final(collector)@;
            let payload = notification@.payload;
            let open = !before.done && (before.received || inbox_receipt(
                notification@,
                before.session_id,
                before.message_id,
            ));
            let own = payload.text_field("sessionId"@) == Some(before.session_id);
            let idle = notification@.method == "session.status"@ && own && payload.text_field(
                "status"@,
            ) == Some("idle"@);
            let brings = notification@.method == "session.event"@ && own && (payload.field("event"@)
                matches Some(JsonView::Object(_)));
            &&& after.session_id == before.session_id
            &&& after.message_id == before.message_id
            &&& !open ==> step is Ignored && after == before
            &&& open ==> {
                &&& after.received
                &&& after.notifications == before.notifications.push(notification@)
                &&& after.done <==> idle
                &&& step is Finished <==> idle
                &&& step is Collected <==> !idle
                &&& brings ==> after.events == before.events.push(payload.field("event"@)->0)
                &&& !brings ==> after.events == before.events
            }
        }),
{
}

/// A run begins with nothing collected.
pub proof fn law_a_run_begins_empty(session_id: &str, message_id: &str, collector: RunCollector)
    requires
        call_ensures(RunCollector::new, (session_id, message_id), collector),
    ensures
        collector@.session_id == session_id@,
        collector@.message_id == message_id@,
        !collector@.received,
        !collector@.done,
        collector@.events.len() == 0,
        collector@.notifications.len() == 0,
{
}

/// The result of a run holds what was collected, in order: the session, its events and all
/// notifications, the text of the last event that commits one, and the reason of the last turn end.
/// A last turn end without a reason is a violation of the protocol.
pub proof fn law_the_result_holds_what_was_collected(
    collector: RunCollector,
    session_root: Option<PathBuf>,
    result: Result<RunResult, SdkError>,
    last: int,
)
    requires
        call_ensures(RunCollector::finish, (collector, session_root), result),
        -1 <= last < collector@.events.len(),
        last >= 0 ==> collector@.events[last].text_field("type"@) == Some("turn/end"@),
        forall|i: int|
            last < i < collector@.events.len() ==> (#[trigger] collector@.events[i]).text_field(
                "type"@,
            ) != Some("turn/end"@),
    ensures
        result matches Ok(run) ==> {
            &&& run.session_id@ == collector@.session_id
            &&& items_tree(run.events@) == collector@.events
            &&& notification_views(run.notifications@) == collector@.notifications
            &&& run.session_root == session_root
            &&& run.final_response@ == last_committed_text(collector@.events)
            &&& last < 0 ==> run.finish_reason is None
            &&& last >= 0 ==> (run.finish_reason matches Some(kind) && (
            collector@.events[last].field("data"@) matches Some(data) && data.field("reason"@)
                matches Some(why) && why.text_field("kind"@) == Some(kind@)))
        },
        result matches Err(error) ==> last >= 0 && error@ == (SdkErrorView::Protocol {
            message: "turn/end event requires a string data.reason.kind"@,
        }),
        result is Err <==> last >= 0 && !(collector@.events[last].field("data"@) matches Some(data)
            && data.field("reason"@) matches Some(why) && why.text_field("kind"@) is Some),
{
    let events = collector@.events;
    assert forall|i: int| last < i < events.len() implies !crate::events::is_turn_end(
        #[trigger] events[i],
    ) by {}
    crate::events::law_the_last_turn_end_wins(events, last);
}

/// The notifications are viewed one for one.
pub proof fn law_notifications_are_one_for_one(notifications: Seq<Notification>, i: int)
    ensures
        notification_views(notifications).len() == notifications.len(),
        0 <= i < notifications.len() ==> notification_views(notifications)[i]
            == notifications[i]@,
{
}

/// The events of two stretches of notifications, one behind the other, are those of the first and
/// then those of the second, and a single notification brings its event or none.
pub proof fn law_the_events_of_stretches_add_up(
    first: Seq<NotificationView>,
    second: Seq<NotificationView>,
    one: NotificationView,
    session_id: Seq<char>,
)
    ensures
        root_events(first + second, session_id) == root_events(first, session_id) + root_events(
            second,
            session_id,
        ),
        one.method == "session.event"@ && one.payload.text_field("sessionId"@) == Some(session_id)
            ==> (one.payload.field("event"@) matches Some(event) ==> event is Object ==> root_events(
            seq![one],
            session_id,
        ) == seq![event]),
        one.method != "session.event"@ || one.payload.text_field("sessionId"@) != Some(session_id)
            || !(one.payload.field("event"@) matches Some(JsonView::Object(_))) ==> root_events(
            seq![one],
            session_id,
        ) == Seq::<JsonView>::empty(),
    decreases second.len(),
{
    assert(seq![one].drop_last() =~= seq![]);
    assert(root_events(seq![], session_id) =~= seq![]);
    if let Some(event) = root_event(one, session_id) {
        assert(Seq::<JsonView>::empty().push(event) =~= seq![event]);
    }
    if second.len() == 0 {
        assert(first + second =~= first);
        assert(root_events(first, session_id) + root_events(second, session_id) =~= root_events(
            first,
            session_id,
        ));
    } else {
        law_the_events_of_stretches_add_up(first, second.drop_last(), one, session_id);
        assert((first + second).drop_last() =~= first + second.drop_last());
        assert((first + second).last() == second.last());
        assert(root_events(first + second, session_id) =~= root_events(first, session_id)
            + root_events(second, session_id));
    }
}

/// A text is sent as one block of type `text` that holds it, and a list of blocks as it is.
pub proof fn law_inputs_become_blocks(input: Input, blocks: Vec<Json>, key: Seq<char>)
    requires
        call_ensures(Input::into_blocks, (input,), blocks),
    ensures
        input matches Input::Text(text) ==> blocks@.len() == 1 && {
            let block = blocks@[0]@;
            &&& block.field("type"@) == Some(JsonView::String("text"@))
            &&& block.field("text"@) == Some(JsonView::String(text@))
            &&& block.field(key) is Some ==> key == "type"@ || key == "text"@
        },
        input matches Input::Blocks(given) ==> items_tree(blocks@) == items_tree(given@),
{
    reveal_strlit("type");
    reveal_strlit("text");
    assert("type"@[1] == 'y');
    assert("text"@[1] == 'e');
    if let Input::Text(text) = input {
        assert(items_tree(blocks@).len() == 1);
        assert(items_tree(blocks@)[0] == text_block(text@));
        assert(items_tree(blocks@)[0] == blocks@[0]@);
    }
}

/// What the configuration sets is in the runtime's environment, and what it does not set stays as
/// the configured entries have it.
pub proof fn law_only_what_is_configured_is_set(
    config: DeepSeekHarnessConfig,
    cwd: PathBuf,
    runtime_cwd: Option<PathBuf>,
    options: HarnessClientOptions,
    key: Seq<char>,
)
    requires
        call_ensures(DeepSeekHarnessConfig::client_options, (&config, &cwd, runtime_cwd), options),
    ensures
        options.env matches Some(env) && {
            let set = text_values(env@);
            let given = text_values(config.env@);
            &&& set.contains_key("DSH_CWD"@) && set["DSH_CWD"@] == lossy_text(cwd)
            &&& match config.session_root {
                Some(root) => set.contains_key("DSH_SESSION_ROOT"@) && set["DSH_SESSION_ROOT"@]
                    == lossy_text(root),
                None => key == "DSH_SESSION_ROOT"@ ==> set.contains_key(key) == given.contains_key(
                    key,
                ) && (set.contains_key(key) ==> set[key] == given[key]),
            }
            &&& match config.cordis {
                Some(cordis) => set.contains_key("DSH_CORDIS_CONFIG"@) && set["DSH_CORDIS_CONFIG"@]
                    == lossy_text(cordis),
                None => key == "DSH_CORDIS_CONFIG"@ ==> set.contains_key(key) == given.contains_key(
                    key,
                ) && (set.contains_key(key) ==> set[key] == given[key]),
            }
            &&& match config.base_url {
                Some(url) => set.contains_key("DEEPSEEK_BASE_URL"@) && set["DEEPSEEK_BASE_URL"@]
                    == url@,
                None => key == "DEEPSEEK_BASE_URL"@ ==> set.contains_key(key) == given.contains_key(
                    key,
                ) && (set.contains_key(key) ==> set[key] == given[key]),
            }
            &&& match config.api_key {
                Some(secret) => set.contains_key("DEEPSEEK_API_KEY"@) && set["DEEPSEEK_API_KEY"@]
                    == secret@,
                None => key == "DEEPSEEK_API_KEY"@ ==> set.contains_key(key) == given.contains_key(
                    key,
                ) && (set.contains_key(key) ==> set[key] == given[key]),
            }
            &&& key != "DSH_CWD"@ && key != "DSH_SESSION_ROOT"@ && key != "DSH_CORDIS_CONFIG"@ && key
                != "DEEPSEEK_BASE_URL"@ && key != "DEEPSEEK_API_KEY"@ ==> set.contains_key(key)
                == given.contains_key(key) && (set.contains_key(key) ==> set[key] == given[key])
        },
{
    law_the_configuration_overrides_its_environment(config, cwd, key);
    reveal_strlit("DSH_CWD");
    reveal_strlit("DSH_SESSION_ROOT");
    reveal_strlit("DSH_CORDIS_CONFIG");
    reveal_strlit("DEEPSEEK_BASE_URL");
    reveal_strlit("DEEPSEEK_API_KEY");
    assert("DSH_CWD"@.len() == 7);
    assert("DSH_SESSION_ROOT"@.len() == 16);
    assert("DSH_CORDIS_CONFIG"@.len() == 17);
    assert("DEEPSEEK_BASE_URL"@.len() == 17);
    assert("DEEPSEEK_API_KEY"@.len() == 16);
    assert("DSH_CORDIS_CONFIG"@[1] == 'S');
    assert("DSH_SESSION_ROOT"@[1] == 'S');
    assert("DEEPSEEK_BASE_URL"@[1] == 'E');
    assert("DEEPSEEK_API_KEY"@[1] == 'E');
}

/// The configured launch and deadlines are the client's, and the runtime works where it was told
/// to, or else in the workspace.
pub proof fn law_the_client_is_launched_as_configured(
    config: DeepSeekHarnessConfig,
    cwd: PathBuf,
    runtime_cwd: Option<PathBuf>,
    options: HarnessClientOptions,
)
    requires
        call_ensures(DeepSeekHarnessConfig::client_options, (&config, &cwd, runtime_cwd), options),
    ensures
        options.command is None,
        options.args@.len() == 0,
        options.runtime_bin == config.runtime_bin,
        options.launch_args_override is Some <==> config.launch_args_override is Some,
        options.launch_args_override matches Some(argv) ==> texts(argv@) == texts(
            config.launch_args_override->0@,
        ),
        runtime_cwd matches Some(dir) ==> options.cwd == Some(dir),
        runtime_cwd is None ==> options.cwd == Some(cwd),
        options.request_timeout_nanos == config.request_timeout_nanos,
        options.shutdown_timeout_nanos == config.shutdown_timeout_nanos,
        opt_text(options.runtime_index_url) == opt_text(config.runtime_index_url),
        opt_text(options.runtime_version) == opt_text(config.runtime_version),
        options.runtime_cache_dir == config.runtime_cache_dir,
{
}

/// A harness that is not initialized launches the runtime, and once one is attached makes the
/// handshake with the configured provider, model and token cap and the resolved workspace; where the
/// transport is closed it gives its error and closes.
pub proof fn law_starting_launches_and_makes_the_handshake(
    harness: &mut DeepSeekHarness,
    step: StartStep,
)
    requires
        call_ensures(DeepSeekHarness::start, (harness,), step),
        old(harness)@.client.consistent(),
    ensures
        old(harness)@.initialized ==> step is Ready && final(harness)@ == old(harness)@,
        !old(harness)@.initialized && old(harness)@.client.phase is New ==> step is Launch
            && final(harness)@ == old(harness)@,
        !old(harness)@.initialized && !(old(harness)@.client.phase is New)
            && old(harness)@.client.peer->0.closed is None ==> (step matches StartStep::Handshake(
            request,
        ) && carries(
            request.line@,
            request_frame(
                request.id@,
                "initialize"@,
                Some(
                    initialize_payload(
                        old(harness)@.cwd,
                        old(harness)@.config.provider@,
                        old(harness)@.config.model@,
                        old(harness)@.config.max_tokens,
                    ),
                ),
            ),
        ) && hyphenated_form(request.id@)),
        !old(harness)@.initialized && !(old(harness)@.client.phase is New)
            && old(harness)@.client.peer->0.closed is Some ==> (step matches StartStep::Failed(
            error,
            action,
        ) && Some(error@) == old(harness)@.client.peer->0.closed),
        final(harness)@.initialized == old(harness)@.initialized,
        final(harness)@.config == old(harness)@.config,
        final(harness)@.cwd == old(harness)@.cwd,
{
}

/// A handshake that succeeds is remembered; one that fails gives its error, leaves the harness
/// uninitialized, and closes a client that runs.
pub proof fn law_a_handshake_is_remembered(
    harness: &mut DeepSeekHarness,
    outcome: Result<Json, SdkError>,
    result: (Result<(), SdkError>, CloseAction),
)
    requires
        call_ensures(DeepSeekHarness::finish_start, (harness, outcome), result),
    ensures
        outcome is Ok ==> result.0 is Ok && result.1 is Nothing && final(harness)@.initialized
            && final(harness)@.client == old(harness)@.client,
        outcome matches Err(failure) ==> (result.0 matches Err(error) && error@ == failure@)
            && final(harness)@.initialized == old(harness)@.initialized,
        outcome is Err && old(harness)@.client.phase is Running ==> !(result.1 is Nothing),
        final(harness)@.config == old(harness)@.config,
        final(harness)@.cwd == old(harness)@.cwd,
{
}

/// Closing a harness closes its client, and the harness is then no longer initialized.
pub proof fn law_a_closed_harness_is_not_initialized(
    harness: &mut DeepSeekHarness,
    action: CloseAction,
)
    requires
        call_ensures(DeepSeekHarness::close, (harness,), action),
    ensures
        !final(harness)@.initialized,
        close_begun(old(harness)@.client, final(harness)@.client, action),
        final(harness)@.config == old(harness)@.config,
        final(harness)@.cwd == old(harness)@.cwd,
{
}

/// A harness goes on closing as its client does.
pub proof fn law_a_harness_closes_with_its_client(
    harness: &mut DeepSeekHarness,
    event: CloseEvent,
    action: CloseAction,
)
    requires
        call_ensures(DeepSeekHarness::close_step, (harness, event), action),
    ensures
        close_advanced(old(harness)@.client, final(harness)@.client, event, action),
        final(harness)@.initialized == old(harness)@.initialized,
        final(harness)@.config == old(harness)@.config,
        final(harness)@.cwd == old(harness)@.cwd,
{
}

/// A run prompts the named session, or one with a fresh id, with the given blocks; it subscribes to
/// that session's tree before the prompt is on its way, so that nothing of it is missed.
pub proof fn law_a_run_subscribes_before_it_prompts(
    harness: &mut DeepSeekHarness,
    session_id: Option<&str>,
    input: Input,
    result: Result<RunStart, SdkError>,
)
    requires
        call_ensures(DeepSeekHarness::run, (harness, session_id, input), result),
        old(harness)@.client.consistent(),
    ensures
        result is Ok <==> (old(harness)@.client.peer matches Some(peer) && peer.closed is None),
        result is Err ==> final(harness)@ == old(harness)@,
        result matches Err(error) ==> (old(harness)@.client.peer matches Some(peer) && peer.closed
            == Some(error@)) || old(harness)@.client.peer is None,
        result matches Ok(start) ==> {
            let before = old(harness)@.client.peer->0;
            let after = final(harness)@.client.peer->0;
            &&& session_id matches Some(named) ==> start.session_id@ == named@
            &&& session_id is None ==> start.session_id@.len() == 40
                && crate::text::has_prefix(start.session_id@, "session-"@)
            &&& carries(
                start.request.line@,
                request_frame(
                    start.request.id@,
                    "session/prompt"@,
                    Some(prompt_payload(start.session_id@, input@)),
                ),
            )
            &&& after.pending == before.pending.insert(start.request.id@, "session/prompt"@)
            &&& !before.subscribers.contains_key(start.subscription.id)
            &&& after.subscribers.contains_key(start.subscription.id)
            &&& after.subscribers[start.subscription.id].filter == FilterView::SessionTree(
                start.session_id@,
            )
            &&& after.subscribers[start.subscription.id].inbox.queue.len() == 0
            &&& after.subscribers[start.subscription.id].inbox.ended is None
            &&& after.closed is None
        },
{
    if result is Ok && session_id is None {
        lemma_fresh_session_id(result->Ok_0.session_id@);
    }
}

proof fn lemma_fresh_session_id(id: Seq<char>)
    requires
        is_fresh_session_id(id),
    ensures
        id.len() == 40,
        crate::text::has_prefix(id, "session-"@),
        forall|i: int| 8 <= i < 40 ==> crate::trusted::ident::is_lower_hex(#[trigger] id[i]),
{
    reveal_strlit("session-");
    let random = choose|random: Seq<char>| #[trigger] simple_form(random) && id == "session-"@
        + random;
    assert(id.take(8) =~= "session-"@);
    assert forall|i: int| 8 <= i < 40 implies crate::trusted::ident::is_lower_hex(
        #[trigger] id[i],
    ) by {
        assert(id[i] == random[i - 8]);
    }
}

/// A session handle keeps the id it was made for; without one it gets a fresh id, the word
/// `session`, a hyphen and 32 lowercase hexadecimal digits. Its runs prompt that session.
pub proof fn law_a_session_keeps_its_id(
    harness: &mut DeepSeekHarness,
    session_id: Option<&str>,
    session: Session,
    input: Input,
    result: Result<RunStart, SdkError>,
)
    requires
        call_ensures(DeepSeekHarness::start_session, (&*old(harness), session_id), session),
        call_ensures(Session::run, (&session, harness, input), result),
    ensures
        session_id matches Some(named) ==> session@ == named@,
        session_id is None ==> session@.len() == 40 && crate::text::has_prefix(
            session@,
            "session-"@,
        ) && forall|i: int|
            8 <= i < 40 ==> crate::trusted::ident::is_lower_hex(#[trigger] session@[i]),
        result matches Ok(start) ==> start.session_id@ == session@,
{
    if session_id is None {
        lemma_fresh_session_id(session@);
    }
}

/// A harness begins with its configuration and its workspace, a client that was not started, and no
/// handshake made; a runtime is attached once.
pub proof fn law_a_harness_begins_without_a_runtime(
    config: DeepSeekHarnessConfig,
    cwd: PathBuf,
    runtime_cwd: Option<PathBuf>,
    harness: DeepSeekHarness,
    started: &mut DeepSeekHarness,
    attached: bool,
)
    requires
        call_ensures(DeepSeekHarness::new, (config, cwd, runtime_cwd), harness),
        call_ensures(DeepSeekHarness::attach, (started,), attached),
    ensures
        harness@.config == config,
        harness@.cwd == cwd,
        !harness@.initialized,
        harness@.client.phase is New,
        harness@.client.peer is None,
        derived_options(config, cwd, runtime_cwd, harness@.client.options),
        attached <==> old(started)@.client.phase is New,
        attached ==> final(started)@.client.phase is Running && (final(started)@.client.peer
            matches Some(peer) && peer.closed is None),
        !attached ==> final(started)@ == old(started)@,
        final(started)@.initialized == old(started)@.initialized,
{
}

/// Unless told otherwise, a harness runs the official provider with its default model, waits for
/// answers as long as it takes and for a shutdown one second, and everything else is left open.
pub proof fn law_the_default_configuration(config: DeepSeekHarnessConfig)
    requires
        call_ensures(<DeepSeekHarnessConfig as Default>::default, (), config),
    ensures
        config.provider@ == "deepseek-official"@,
        config.model@ == "deepseek-v4-flash"@,
        config.max_tokens is None && config.request_timeout_nanos is None,
        config.shutdown_timeout_nanos == 1_000_000_000,
        config.env@.dom().is_empty(),
        config.cwd is None && config.runtime_cwd is None && config.session_root is None,
        config.cordis is None && config.base_url is None && config.api_key is None,
        config.runtime_bin is None && config.launch_args_override is None,
{
}

/// A harness gives its configuration and its client as they are, and a change of the client is a
/// change of the client alone.
pub proof fn law_a_harness_lends_its_client(
    harness: DeepSeekHarness,
    config: &DeepSeekHarnessConfig,
    client: &HarnessClient,
)
    requires
        call_ensures(DeepSeekHarness::config, (&harness,), config),
        call_ensures(DeepSeekHarness::client, (&harness,), client),
    ensures
        *config == harness@.config,
        client@ == harness@.client,
{
}

/// A text becomes an input of that text, whether it is borrowed or given, and blocks become an input
/// of those blocks.
pub proof fn law_texts_and_blocks_become_inputs(
    borrowed: &str,
    of_borrowed: Input,
    text: String,
    of_text: Input,
    blocks: Vec<Json>,
    of_blocks: Input,
)
    requires
        call_ensures(<Input as From<&str>>::from, (borrowed,), of_borrowed),
        call_ensures(<Input as From<String>>::from, (text,), of_text),
        call_ensures(<Input as From<Vec<Json>>>::from, (blocks,), of_blocks),
    ensures
        of_borrowed@ == Input::Text(text)@ <==> borrowed@ == text@,
        of_text@ == Input::Text(text)@,
        of_blocks@ == Input::Blocks(blocks)@,
{
    let of = |t: Seq<char>| seq![text_block(t)];
    assert(of_borrowed@ == of(borrowed@));
    assert(Input::Text(text)@ == of(text@));
    if of(borrowed@) == of(text@) {
        assert(of(borrowed@)[0] == of(text@)[0]);
        assert(text_block(borrowed@)->Object_0["text"@] == JsonView::String(borrowed@)) by {
            reveal_strlit("type");
            reveal_strlit("text");
            assert("type"@[1] != "text"@[1]);
        }
        assert(text_block(text@)->Object_0["text"@] == JsonView::String(text@)) by {
            reveal_strlit("type");
            reveal_strlit("text");
            assert("type"@[1] != "text"@[1]);
        }
    }
}

/// The session to prompt is the one that is named; a fresh one is `session-` and 32 digits.
pub proof fn law_a_named_session_is_chosen(
    session_id: Option<&str>,
    id: String,
    session: Session,
    own: &str,
)
    requires
        call_ensures(choose_session, (session_id,), id),
        call_ensures(Session::id, (&session,), own),
    ensures
        session_id matches Some(named) ==> id@ == named@,
        session_id is None ==> id@.len() == "session-"@.len() + 32 && id@.take(
            "session-"@.len() as int,
        ) == "session-"@,
        own@ == session@,
{
    if session_id is None {
        lemma_fresh_session_id(id@);
    }
}

} // verus!
