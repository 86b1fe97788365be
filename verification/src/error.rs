//! The errors of the SDK.

use vstd::prelude::*;
use vstd::string::*;

use crate::json::{Json, JsonView};
#[allow(unused_imports)]
use crate::json::opt_tree;
use crate::text::{copy_texts, decimal_i64, join};
#[allow(unused_imports)]
use crate::text::{decimal, joined, texts};

verus! {

/// Errors surfaced by the SDK.
#[derive(Debug, PartialEq)]
pub enum SdkError {
    /// The runtime answered a request with a JSON-RPC error response; `code` and `data` are
    /// preserved from the protocol frame.
    JsonRpcResponse {
        /// Error code from the response, if it was a JSON integer.
        code: Option<i64>,
        /// Error message from the response.
        message: String,
        /// Optional error data from the response.
        data: Option<Json>,
    },
    /// The request deadline elapsed with no response.
    RequestTimeout {
        /// Human-readable timeout report, carrying the exit code and stderr tail.
        message: String,
    },
    /// The runtime sent data outside the documented protocol.
    Protocol {
        /// Human-readable protocol violation report.
        message: String,
    },
    /// The runtime subprocess exited or closed its stdout.
    TransportClosed {
        /// Human-readable report, carrying the exit code and stderr tail below.
        message: String,
        /// Process exit code when the runtime was observed exited, if any.
        exit_code: Option<i32>,
        /// Bounded tail of the runtime's stderr.
        stderr_tail: Vec<String>,
    },
    /// I/O failure talking to the runtime or the local filesystem.
    Io {
        /// What the operating system reported.
        source: String,
    },
    /// The blocking facade was called from inside an async runtime context.
    NestedRuntime,
    /// Runtime acquisition (the downloader) failed.
    RuntimeResolve {
        /// Human-readable resolution failure report.
        message: String,
    },
}

/// The mathematical value of an [`SdkError`].
pub enum SdkErrorView {
    /// See [`SdkError::JsonRpcResponse`].
    JsonRpcResponse { code: Option<i64>, message: Seq<char>, data: Option<JsonView> },
    /// See [`SdkError::RequestTimeout`].
    RequestTimeout { message: Seq<char> },
    /// See [`SdkError::Protocol`].
    Protocol { message: Seq<char> },
    /// See [`SdkError::TransportClosed`].
    TransportClosed { message: Seq<char>, exit_code: Option<i32>, stderr_tail: Seq<Seq<char>> },
    /// See [`SdkError::Io`].
    Io { source: Seq<char> },
    /// See [`SdkError::NestedRuntime`].
    NestedRuntime,
    /// See [`SdkError::RuntimeResolve`].
    RuntimeResolve { message: Seq<char> },
}

impl View for SdkError {
    type V = SdkErrorView;

    open spec fn view(&self) -> SdkErrorView {
        match *self {
            SdkError::JsonRpcResponse { code, message, data } => SdkErrorView::JsonRpcResponse {
                code,
                message: message@,
                data: opt_tree(data),
            },
            SdkError::RequestTimeout { message } => SdkErrorView::RequestTimeout {
                message: message@,
            },
            SdkError::Protocol { message } => SdkErrorView::Protocol { message: message@ },
            SdkError::TransportClosed { message, exit_code, stderr_tail } => {
                SdkErrorView::TransportClosed {
                    message: message@,
                    exit_code,
                    stderr_tail: texts(stderr_tail@),
                }
            },
            SdkError::Io { source } => SdkErrorView::Io { source: source@ },
            SdkError::NestedRuntime => SdkErrorView::NestedRuntime,
            SdkError::RuntimeResolve { message } => SdkErrorView::RuntimeResolve {
                message: message@,
            },
        }
    }
}

/// The error inside an optional error.
pub open spec fn opt_error(error: Option<SdkError>) -> Option<SdkErrorView> {
    match error {
        Some(error) => Some(error@),
        None => None,
    }
}

/// A report with its diagnostics: the reason, then the exit code when known, then the stderr tail
/// when there is any, each on lines of its own.
pub open spec fn report(
    reason: Seq<char>,
    exit_code: Option<i32>,
    stderr_tail: Seq<Seq<char>>,
) -> Seq<char> {
    let with_code = match exit_code {
        Some(code) => reason + "\nexit code: "@ + decimal(code as int),
        None => reason,
    };
    if stderr_tail.len() == 0 {
        with_code
    } else {
        with_code + "\nstderr tail:\n"@ + joined(stderr_tail, "\n"@)
    }
}

/// The error that reports a closed transport.
pub open spec fn closed_view(
    reason: Seq<char>,
    exit_code: Option<i32>,
    stderr_tail: Seq<Seq<char>>,
) -> SdkErrorView {
    SdkErrorView::TransportClosed {
        message: report(reason, exit_code, stderr_tail),
        exit_code,
        stderr_tail,
    }
}

impl SdkErrorView {
    /// The text that stands for the error.
    pub open spec fn text(self) -> Seq<char> {
        match self {
            SdkErrorView::JsonRpcResponse { message, .. } => message,
            SdkErrorView::RequestTimeout { message } => message,
            SdkErrorView::Protocol { message } => message,
            SdkErrorView::TransportClosed { message, .. } => message,
            SdkErrorView::Io { source } => "io error: "@ + source,
            SdkErrorView::NestedRuntime =>
                "the deepseek-harness-sdk-rs sync API cannot be called from within an async runtime"@,
            SdkErrorView::RuntimeResolve { message } => message,
        }
    }
}

/// Writes a report with its diagnostics.
fn write_report(reason: &str, exit_code: Option<i32>, stderr_tail: &Vec<String>) -> (text: String)
    ensures
        text@ == report(reason@, exit_code, texts(stderr_tail@)),
{
    let mut text = reason.to_owned();
    if let Some(code) = exit_code {
        text.append("\nexit code: ");
        text.append(decimal_i64(code as i64).as_str());
    }
    if stderr_tail.len() > 0 {
        text.append("\nstderr tail:\n");
        text.append(join(stderr_tail, "\n").as_str());
    }
    text
}

impl SdkError {
    /// A [`SdkError::TransportClosed`] whose message carries the reason, the exit code when known,
    /// and the stderr tail when non-empty.
    pub fn transport_closed(reason: &str, exit_code: Option<i32>, stderr_tail: &Vec<String>) -> (error:
        Self)
        ensures
            error@ == closed_view(reason@, exit_code, texts(stderr_tail@)),
    {
        SdkError::TransportClosed {
            message: write_report(reason, exit_code, stderr_tail),
            exit_code,
            stderr_tail: copy_texts(stderr_tail),
        }
    }

    /// A [`SdkError::RequestTimeout`] for a method, with the same diagnostics.
    pub fn request_timeout(method: &str, exit_code: Option<i32>, stderr_tail: &Vec<String>) -> (error:
        Self)
        ensures
            error@ == (SdkErrorView::RequestTimeout {
                message: report(
                    method@ + " timed out waiting for DeepSeek Harness runtime"@,
                    exit_code,
                    texts(stderr_tail@),
                ),
            }),
    {
        let mut reason = method.to_owned();
        reason.append(" timed out waiting for DeepSeek Harness runtime");
        SdkError::RequestTimeout { message: write_report(reason.as_str(), exit_code, stderr_tail) }
    }

    /// A [`SdkError::Protocol`] for data outside the documented protocol.
    pub fn protocol(message: &str) -> (error: Self)
        ensures
            error@ == (SdkErrorView::Protocol { message: message@ }),
    {
        SdkError::Protocol { message: message.to_owned() }
    }

    /// The text that stands for the error.
    pub fn message(&self) -> (text: String)
        ensures
            text@ == self@.text(),
    {
        match self {
            SdkError::JsonRpcResponse { message, .. } => message.clone(),
            SdkError::RequestTimeout { message } => message.clone(),
            SdkError::Protocol { message } => message.clone(),
            SdkError::TransportClosed { message, .. } => message.clone(),
            SdkError::Io { source } => {
                let mut text = "io error: ".to_owned();
                text.append(source.as_str());
                text
            },
            SdkError::NestedRuntime =>
                "the deepseek-harness-sdk-rs sync API cannot be called from within an async runtime".to_owned(),
            SdkError::RuntimeResolve { message } => message.clone(),
        }
    }
}

impl Clone for SdkError {
    fn clone(&self) -> (copy: Self)
        ensures
            copy@ == self@,
    {
        match self {
            SdkError::JsonRpcResponse { code, message, data } => SdkError::JsonRpcResponse {
                code: *code,
                message: message.clone(),
                data: match data {
                    Some(data) => Some(data.clone()),
                    None => None,
                },
            },
            SdkError::RequestTimeout { message } => SdkError::RequestTimeout {
                message: message.clone(),
            },
            SdkError::Protocol { message } => SdkError::Protocol { message: message.clone() },
            SdkError::TransportClosed { message, exit_code, stderr_tail } => {
                SdkError::TransportClosed {
                    message: message.clone(),
                    exit_code: *exit_code,
                    stderr_tail: copy_texts(stderr_tail),
                }
            },
            SdkError::Io { source } => SdkError::Io { source: source.clone() },
            SdkError::NestedRuntime => SdkError::NestedRuntime,
            SdkError::RuntimeResolve { message } => SdkError::RuntimeResolve {
                message: message.clone(),
            },
        }
    }
}

/// A report is its reason, then the exit code where it is known, then the stderr tail where there is
/// any, each on lines of its own, and nothing else.
pub proof fn law_a_report_carries_its_diagnostics(
    reason: Seq<char>,
    code: i32,
    exit_code: Option<i32>,
    stderr_tail: Seq<Seq<char>>,
)
    ensures
        report(reason, None, seq![]) == reason,
        report(reason, Some(code), seq![]) == reason + "\nexit code: "@ + decimal(code as int),
        stderr_tail.len() > 0 ==> report(reason, exit_code, stderr_tail) == report(
            reason,
            exit_code,
            seq![],
        ) + "\nstderr tail:\n"@ + joined(stderr_tail, "\n"@),
{
}

/// The errors of a closed transport and of a passed deadline carry the report of their diagnostics,
/// and the first also the diagnostics themselves.
pub proof fn law_errors_carry_their_diagnostics(
    reason: &str,
    exit_code: Option<i32>,
    stderr_tail: Vec<String>,
    closed: SdkError,
    late: SdkError,
    violation: SdkError,
)
    requires
        call_ensures(SdkError::transport_closed, (reason, exit_code, &stderr_tail), closed),
        call_ensures(SdkError::request_timeout, (reason, exit_code, &stderr_tail), late),
        call_ensures(SdkError::protocol, (reason,), violation),
    ensures
        closed matches SdkError::TransportClosed { message, exit_code: code, stderr_tail: tail }
            && message@ == report(reason@, exit_code, texts(stderr_tail@)) && code == exit_code
            && texts(tail@) == texts(stderr_tail@),
        late matches SdkError::RequestTimeout { message } && message@ == report(
            reason@ + " timed out waiting for DeepSeek Harness runtime"@,
            exit_code,
            texts(stderr_tail@),
        ),
        violation matches SdkError::Protocol { message } && message@ == reason@,
{
}

/// The text of an error is its message.
pub proof fn law_the_text_of_an_error_is_its_message(error: SdkError, text: String)
    requires
        call_ensures(SdkError::message, (&error,), text),
    ensures
        match error {
            SdkError::JsonRpcResponse { message, .. } => text@ == message@,
            SdkError::RequestTimeout { message } => text@ == message@,
            SdkError::Protocol { message } => text@ == message@,
            SdkError::TransportClosed { message, .. } => text@ == message@,
            SdkError::Io { source } => text@ == "io error: "@ + source@,
            SdkError::NestedRuntime => text@
                == "the deepseek-harness-sdk-rs sync API cannot be called from within an async runtime"@,
            SdkError::RuntimeResolve { message } => text@ == message@,
        },
{
}

/// A copy of an error is the same error.
pub proof fn law_a_copy_of_an_error_is_the_error(error: SdkError, copy: SdkError)
    requires
        call_ensures(<SdkError as Clone>::clone, (&error,), copy),
    ensures
        copy@ == error@,
{
}

} // verus!
