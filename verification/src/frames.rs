//! The frames of the line-delimited JSON-RPC 2.0 protocol.
//!
//! One compact JSON object per line. A frame whose `id` is a string or a number is a request when
//! it has a `method` and a response when it has none; any other frame with a `method` is a
//! notification. Lines that are no such frame are ignored.

use vstd::prelude::*;

use crate::client::{IncomingRequest, Notification};
#[allow(unused_imports)]
use crate::client::{IncomingRequestView, NotificationView};
use crate::error::SdkError;
#[allow(unused_imports)]
use crate::error::SdkErrorView;
use crate::json::{parse_json, set_member, write_json, Json};
#[allow(unused_imports)]
use crate::json::{opt_tree, JsonView, ParsedView};
#[allow(unused_imports)]
use crate::text::decimal;
use crate::trusted::json::number_text;
#[allow(unused_imports)]
use crate::trusted::json::{
    integral_within, json_text, number_integer, number_spelling, parsed_text, reader_depth,
    signed_number,
};

verus! {

/// What a request came to.
pub enum OutcomeView {
    /// The `result` of the response.
    Success(JsonView),
    /// The error the request failed with.
    Failure(SdkErrorView),
}

/// The mathematical value of a request's outcome.
pub open spec fn outcome_view(outcome: Result<Json, SdkError>) -> OutcomeView {
    match outcome {
        Ok(result) => OutcomeView::Success(result@),
        Err(error) => OutcomeView::Failure(error@),
    }
}

/// One line of the runtime's output, understood.
pub enum Frame {
    /// No frame of the protocol.
    Ignored,
    /// A server-to-client request.
    Request(IncomingRequest),
    /// A response to the request with this key.
    Response {
        /// The key of the request that is answered.
        key: String,
        /// What the request came to.
        outcome: Result<Json, SdkError>,
    },
    /// A notification.
    Notification(Notification),
}

/// The mathematical value of a [`Frame`].
pub enum FrameView {
    /// See [`Frame::Ignored`].
    Ignored,
    /// See [`Frame::Request`].
    Request(IncomingRequestView),
    /// See [`Frame::Response`].
    Response { key: Seq<char>, outcome: OutcomeView },
    /// See [`Frame::Notification`].
    Notification(NotificationView),
}

impl View for Frame {
    type V = FrameView;

    open spec fn view(&self) -> FrameView {
        match *self {
            Frame::Ignored => FrameView::Ignored,
            Frame::Request(request) => FrameView::Request(request@),
            Frame::Response { key, outcome } => FrameView::Response {
                key: key@,
                outcome: outcome_view(outcome),
            },
            Frame::Notification(notification) => FrameView::Notification(notification@),
        }
    }
}

/// The value can be the id of a frame.
pub open spec fn valid_id(id: JsonView) -> bool {
    id is String || id is Number
}

/// The key that an id correlates by: strings verbatim, numbers as their decimal spelling.
pub open spec fn key_of(id: JsonView) -> Seq<char> {
    match id {
        JsonView::String(text) => text,
        JsonView::Number(number) => number_spelling(number),
        _ => seq![],
    }
}

/// The payload of a frame: its `params` when they are an object, no members otherwise.
pub open spec fn payload_of(message: JsonView) -> JsonView {
    match message.field("params"@) {
        Some(params) if params is Object => params,
        _ => JsonView::empty_object(),
    }
}

/// The error that the `error` member of a response reports.
pub open spec fn reported_error(error: JsonView) -> SdkErrorView {
    SdkErrorView::JsonRpcResponse {
        code: match error.field("code"@) {
            Some(code) => code.as_integer(),
            None => None,
        },
        message: match error.text_field("message"@) {
            Some(message) => message,
            None => "JSON-RPC error"@,
        },
        data: error.field("data"@),
    }
}

/// What a response brings: the error it reports, or else its `result`, `null` where it has none.
pub open spec fn outcome_of(message: JsonView) -> OutcomeView {
    match message.field("error"@) {
        Some(error) => OutcomeView::Failure(reported_error(error)),
        None => OutcomeView::Success(
            match message.field("result"@) {
                Some(result) => result,
                None => JsonView::Null,
            },
        ),
    }
}

/// The frame that a JSON value is.
pub open spec fn frame_of(message: JsonView) -> FrameView {
    match (message.field("id"@), message.text_field("method"@)) {
        (Some(id), Some(method)) if valid_id(id) => FrameView::Request(
            IncomingRequestView { id, method, payload: payload_of(message) },
        ),
        (Some(id), None) if valid_id(id) => FrameView::Response {
            key: key_of(id),
            outcome: outcome_of(message),
        },
        (_, Some(method)) => FrameView::Notification(
            NotificationView { method, payload: payload_of(message) },
        ),
        _ => FrameView::Ignored,
    }
}

/// The frame that a line is.
pub open spec fn line_frame(line: Seq<char>) -> FrameView {
    match parsed_text(line) {
        ParsedView::Tree(message) => frame_of(message),
        ParsedView::Failure(_) => FrameView::Ignored,
    }
}

/// The frame of a request.
pub open spec fn request_frame(
    id: Seq<char>,
    method: Seq<char>,
    params: Option<JsonView>,
) -> JsonView {
    let members = Map::<Seq<char>, JsonView>::empty().insert(
        "jsonrpc"@,
        JsonView::String("2.0"@),
    ).insert("id"@, JsonView::String(id)).insert("method"@, JsonView::String(method));
    JsonView::Object(
        match params {
            Some(params) => members.insert("params"@, params),
            None => members,
        },
    )
}

/// The frame of a notification.
pub open spec fn notification_frame(method: Seq<char>, params: Option<JsonView>) -> JsonView {
    let members = Map::<Seq<char>, JsonView>::empty().insert(
        "jsonrpc"@,
        JsonView::String("2.0"@),
    ).insert("method"@, JsonView::String(method));
    JsonView::Object(
        match params {
            Some(params) => members.insert("params"@, params),
            None => members,
        },
    )
}

/// The frame of a response that brings a result.
pub open spec fn response_frame(id: JsonView, result: JsonView) -> JsonView {
    JsonView::Object(
        Map::<Seq<char>, JsonView>::empty().insert("jsonrpc"@, JsonView::String("2.0"@)).insert(
            "id"@,
            id,
        ).insert("result"@, result),
    )
}

/// The `error` member of a response that reports an error.
pub open spec fn error_member(code: i64, message: Seq<char>, data: Option<JsonView>) -> JsonView {
    let members = Map::<Seq<char>, JsonView>::empty().insert(
        "code"@,
        JsonView::Number(signed_number(code)),
    ).insert("message"@, JsonView::String(message));
    JsonView::Object(
        match data {
            Some(data) => members.insert("data"@, data),
            None => members,
        },
    )
}

/// The frame of a response that reports an error.
pub open spec fn error_frame(
    id: JsonView,
    code: i64,
    message: Seq<char>,
    data: Option<JsonView>,
) -> JsonView {
    JsonView::Object(
        Map::<Seq<char>, JsonView>::empty().insert("jsonrpc"@, JsonView::String("2.0"@)).insert(
            "id"@,
            id,
        ).insert("error"@, error_member(code, message, data)),
    )
}

/// A line carries a frame: it is the compact JSON text of it, on one line, and reading it gives
/// the frame back. The last is left open for numbers that are no 64-bit integers, whose spelling
/// may be rounded, and for nesting that the reader refuses.
pub open spec fn carries(line: Seq<char>, frame: JsonView) -> bool {
    &&& line == json_text(frame)
    &&& !line.contains('\n')
    &&& integral_within(frame, reader_depth()) ==> parsed_text(line) == ParsedView::Tree(frame)
}

/// A line carries the report of an error: it carries the frame, and the number in the frame is the
/// error code.
pub open spec fn carries_error(
    line: Seq<char>,
    id: JsonView,
    code: i64,
    message: Seq<char>,
    data: Option<JsonView>,
) -> bool {
    &&& carries(line, error_frame(id, code, message, data))
    &&& number_integer(signed_number(code)) == Some(code as int)
}

/// The key that an id correlates by.
pub fn id_key(id: &Json) -> (key: String)
    ensures
        key@ == key_of(id@),
        id@ matches JsonView::Number(number) ==> (number_integer(number) matches Some(k) ==> key@
            == decimal(k)),
{
    match id {
        Json::String(text) => text.clone(),
        Json::Number(number) => number_text(number),
        _ => String::new(),
    }
}

/// Whether a value can be the id of a frame.
fn is_valid_id(id: &Json) -> (valid: bool)
    ensures
        valid == valid_id(id@),
{
    match id {
        Json::String(_) => true,
        Json::Number(_) => true,
        _ => false,
    }
}

/// The payload of a frame.
fn payload(message: &Json) -> (payload: Json)
    ensures
        payload@ == payload_of(message@),
{
    match message.get("params") {
        Some(params) => if params.is_object() {
            params.clone()
        } else {
            Json::empty_object()
        },
        None => Json::empty_object(),
    }
}

/// The error that the `error` member of a response reports.
fn read_error(error: &Json) -> (reported: SdkError)
    ensures
        reported@ == reported_error(error@),
{
    let code = match error.get("code") {
        Some(code) => code.as_i64(),
        None => None,
    };
    let message = match error.get_str("message") {
        Some(message) => message.to_owned(),
        None => "JSON-RPC error".to_owned(),
    };
    let data = match error.get("data") {
        Some(data) => Some(data.clone()),
        None => None,
    };
    SdkError::JsonRpcResponse { code, message, data }
}

/// What a response brings.
fn read_outcome(message: &Json) -> (outcome: Result<Json, SdkError>)
    ensures
        outcome_view(outcome) == outcome_of(message@),
{
    match message.get("error") {
        Some(error) => Err(read_error(error)),
        None => match message.get("result") {
            Some(result) => Ok(result.clone()),
            None => Ok(Json::Null),
        },
    }
}

/// The frame that a JSON value is.
pub fn classify(message: &Json) -> (frame: Frame)
    ensures
        frame@ == frame_of(message@),
{
    let method = message.get_str("method");
    let id = match message.get("id") {
        Some(id) => if is_valid_id(id) {
            Some(id)
        } else {
            None
        },
        None => None,
    };
    match (id, method) {
        (Some(id), Some(method)) => Frame::Request(
            IncomingRequest {
                id: id.clone(),
                method: method.to_owned(),
                payload: payload(message),
            },
        ),
        (Some(id), None) => Frame::Response { key: id_key(id), outcome: read_outcome(message) },
        (None, Some(method)) => Frame::Notification(
            Notification { method: method.to_owned(), payload: payload(message) },
        ),
        (None, None) => Frame::Ignored,
    }
}

/// The frame that a line is.
pub fn read_line(line: &str) -> (frame: Frame)
    ensures
        frame@ == line_frame(line@),
{
    match parse_json(line) {
        Ok(message) => classify(&message),
        Err(_) => Frame::Ignored,
    }
}

/// The line of a request.
pub fn request_line(id: &str, method: &str, params: Option<Json>) -> (line: String)
    ensures
        carries(line@, request_frame(id@, method@, opt_tree(params))),
{
    let mut members: Vec<(String, Json)> = Vec::new();
    set_member(&mut members, "jsonrpc", Json::text("2.0"));
    set_member(&mut members, "id", Json::text(id));
    set_member(&mut members, "method", Json::text(method));
    if let Some(params) = params {
        set_member(&mut members, "params", params);
    }
    write_json(&Json::Object(members))
}

/// The line of a notification.
pub fn notification_line(method: &str, params: Option<Json>) -> (line: String)
    ensures
        carries(line@, notification_frame(method@, opt_tree(params))),
{
    let mut members: Vec<(String, Json)> = Vec::new();
    set_member(&mut members, "jsonrpc", Json::text("2.0"));
    set_member(&mut members, "method", Json::text(method));
    if let Some(params) = params {
        set_member(&mut members, "params", params);
    }
    write_json(&Json::Object(members))
}

/// The line of a response that brings a result.
pub fn response_line(id: &Json, result: Json) -> (line: String)
    ensures
        carries(line@, response_frame(id@, result@)),
{
    let mut members: Vec<(String, Json)> = Vec::new();
    set_member(&mut members, "jsonrpc", Json::text("2.0"));
    set_member(&mut members, "id", id.clone());
    set_member(&mut members, "result", result);
    write_json(&Json::Object(members))
}

/// The line of a response that reports an error.
pub fn error_line(id: &Json, code: i64, message: &str, data: Option<Json>) -> (line: String)
    ensures
        carries_error(line@, id@, code, message@, opt_tree(data)),
{
    let mut error: Vec<(String, Json)> = Vec::new();
    set_member(&mut error, "code", Json::integer(code));
    set_member(&mut error, "message", Json::text(message));
    if let Some(data) = data {
        set_member(&mut error, "data", data);
    }
    let mut members: Vec<(String, Json)> = Vec::new();
    set_member(&mut members, "jsonrpc", Json::text("2.0"));
    set_member(&mut members, "id", id.clone());
    set_member(&mut members, "error", Json::Object(error));
    write_json(&Json::Object(members))
}

/// A request reads back as the request it is: same id, same method, and the params as payload
/// when they are an object.
pub proof fn law_requests_read_back(
    line: Seq<char>,
    id: Seq<char>,
    method: Seq<char>,
    params: Option<JsonView>,
)
    requires
        carries(line, request_frame(id, method, params)),
        integral_within(request_frame(id, method, params), reader_depth()),
    ensures
        line_frame(line) == FrameView::Request(
            IncomingRequestView {
                id: JsonView::String(id),
                method,
                payload: match params {
                    Some(params) if params is Object => params,
                    _ => JsonView::empty_object(),
                },
            },
        ),
{
    lemma_member_names();
}

/// A notification reads back as the notification it is.
pub proof fn law_notifications_read_back(
    line: Seq<char>,
    method: Seq<char>,
    params: Option<JsonView>,
)
    requires
        carries(line, notification_frame(method, params)),
        integral_within(notification_frame(method, params), reader_depth()),
    ensures
        line_frame(line) == FrameView::Notification(
            NotificationView {
                method,
                payload: match params {
                    Some(params) if params is Object => params,
                    _ => JsonView::empty_object(),
                },
            },
        ),
{
    lemma_member_names();
}

/// A response that brings a result reads back as a response to the same id with that result.
pub proof fn law_results_read_back(line: Seq<char>, id: JsonView, result: JsonView)
    requires
        valid_id(id),
        carries(line, response_frame(id, result)),
        integral_within(response_frame(id, result), reader_depth()),
    ensures
        line_frame(line) == (FrameView::Response {
            key: key_of(id),
            outcome: OutcomeView::Success(result),
        }),
{
    lemma_member_names();
}

/// A response that reports an error reads back as a response to the same id that reports it:
/// code, message and data are preserved.
pub proof fn law_errors_read_back(
    line: Seq<char>,
    id: JsonView,
    code: i64,
    message: Seq<char>,
    data: Option<JsonView>,
)
    requires
        valid_id(id),
        carries_error(line, id, code, message, data),
        integral_within(error_frame(id, code, message, data), reader_depth()),
    ensures
        line_frame(line) == (FrameView::Response {
            key: key_of(id),
            outcome: OutcomeView::Failure(
                SdkErrorView::JsonRpcResponse { code: Some(code), message, data },
            ),
        }),
{
    lemma_member_names();
}

/// Only a string or a number is an id: a frame whose id is anything else is a notification when
/// it has a method, and no frame at all otherwise.
pub proof fn law_other_ids_do_not_count(message: JsonView, id: JsonView)
    requires
        message.field("id"@) == Some(id),
        !valid_id(id),
    ensures
        match message.text_field("method"@) {
            Some(method) => frame_of(message) == FrameView::Notification(
                NotificationView { method, payload: payload_of(message) },
            ),
            None => frame_of(message) == FrameView::Ignored,
        },
{
}

/// The names of a frame's members differ.
proof fn lemma_member_names()
    ensures
        "jsonrpc"@ != "id"@,
        "jsonrpc"@ != "method"@,
        "jsonrpc"@ != "params"@,
        "jsonrpc"@ != "result"@,
        "jsonrpc"@ != "error"@,
        "id"@ != "method"@,
        "id"@ != "params"@,
        "id"@ != "result"@,
        "id"@ != "error"@,
        "method"@ != "params"@,
        "method"@ != "result"@,
        "method"@ != "error"@,
        "result"@ != "error"@,
        "code"@ != "message"@,
        "code"@ != "data"@,
        "message"@ != "data"@,
{
    reveal_strlit("jsonrpc");
    reveal_strlit("id");
    reveal_strlit("method");
    reveal_strlit("params");
    reveal_strlit("result");
    reveal_strlit("error");
    reveal_strlit("code");
    reveal_strlit("message");
    reveal_strlit("data");
    assert("jsonrpc"@.len() == 7);
    assert("id"@.len() == 2);
    assert("method"@.len() == 6);
    assert("error"@.len() == 5);
    assert("method"@[0] == 'm');
    assert("params"@[0] == 'p');
    assert("result"@[0] == 'r');
    assert("code"@[0] == 'c');
    assert("data"@[0] == 'd');
}

/// A frame is told by two members: with an id that is a string or a number it is a request where it
/// has a string `method` and a response where it has none; with any other id, or none, it is a
/// notification where it has a string `method` and nothing otherwise. Id and method are taken as
/// they came, and the payload is the `params` member where that is an object.
pub proof fn law_frames_are_told_apart(
    message: Json,
    frame: Frame,
    members: Map<Seq<char>, JsonView>,
    payload: JsonView,
)
    requires
        call_ensures(classify, (&message,), frame),
        message@ == JsonView::Object(members),
        payload == (if members.contains_key("params"@) && members["params"@] is Object {
            members["params"@]
        } else {
            JsonView::Object(Map::empty())
        }),
    ensures
        ({
            let correlated = members.contains_key("id"@) && (members["id"@] is String
                || members["id"@] is Number);
            if members.contains_key("method"@) && members["method"@] is String {
                let method = members["method"@]->String_0;
                if correlated {
                    frame@ == FrameView::Request(
                        IncomingRequestView { id: members["id"@], method, payload },
                    )
                } else {
                    frame@ == FrameView::Notification(NotificationView { method, payload })
                }
            } else if correlated {
                frame@ matches FrameView::Response { key, .. } && match members["id"@] {
                    JsonView::String(text) => key == text,
                    JsonView::Number(number) => key == number_spelling(number),
                    _ => false,
                }
            } else {
                frame@ is Ignored
            }
        }),
{
}

/// A response fails where it has an `error` member, with the code, the message and the data that
/// this holds, and succeeds otherwise, with its `result`, or with `null` where it has none.
pub proof fn law_responses_bring_result_or_error(
    message: Json,
    frame: Frame,
    members: Map<Seq<char>, JsonView>,
)
    requires
        call_ensures(classify, (&message,), frame),
        message@ == JsonView::Object(members),
        frame@ is Response,
    ensures
        !members.contains_key("error"@) && members.contains_key("result"@)
            ==> frame@->Response_outcome == OutcomeView::Success(members["result"@]),
        !members.contains_key("error"@) && !members.contains_key("result"@)
            ==> frame@->Response_outcome == OutcomeView::Success(JsonView::Null),
        members.contains_key("error"@) ==> (frame@->Response_outcome matches OutcomeView::Failure(
            SdkErrorView::JsonRpcResponse { code, message: text, data },
        ) && ({
            let error = members["error"@];
            &&& code == (match error.field("code"@) {
                Some(JsonView::Number(number)) => match number_integer(number) {
                    Some(k) if i64::MIN <= k <= i64::MAX => Some(k as i64),
                    _ => None,
                },
                _ => None,
            })
            &&& text == (match error.field("message"@) {
                Some(JsonView::String(text)) => text,
                _ => "JSON-RPC error"@,
            })
            &&& data == error.field("data"@)
        })),
{
}

/// A line that is no JSON, or no JSON object, is no frame; any other is the frame that its object
/// is.
pub proof fn law_only_objects_are_frames(line: &str, frame: Frame, message: Json, same: Frame)
    requires
        call_ensures(read_line, (line,), frame),
        call_ensures(classify, (&message,), same),
    ensures
        parsed_text(line@) is Failure ==> frame@ is Ignored,
        parsed_text(line@) matches ParsedView::Tree(tree) ==> !(tree is Object) ==> frame@
            is Ignored,
        parsed_text(line@) == ParsedView::Tree(message@) ==> frame@ == same@,
{
}

/// A string id correlates by its own text and an integer id by its decimal spelling, so that an
/// integer and its spelling correlate alike.
pub proof fn law_ids_correlate_by_their_text(id: Json, key: String, k: int)
    requires
        call_ensures(id_key, (&id,), key),
    ensures
        id@ matches JsonView::String(text) ==> key@ == text,
        id@ matches JsonView::Number(number) ==> number_integer(number) == Some(k) ==> key@
            == decimal(k),
        !(id@ is String) && !(id@ is Number) ==> key@.len() == 0,
{
}

/// A line that is written for a request names the version, the id, the method and, where there are
/// any, the params, and nothing else; it holds no line feed.
pub proof fn law_request_lines_hold_the_request(
    id: &str,
    method: &str,
    params: Option<Json>,
    line: String,
    key: Seq<char>,
)
    requires
        call_ensures(request_line, (id, method, params), line),
    ensures
        ({
            let frame = request_frame(id@, method@, opt_tree(params));
            &&& line@ == json_text(frame)
            &&& !line@.contains('\n')
            &&& frame is Object
            &&& frame.field("jsonrpc"@) == Some(JsonView::String("2.0"@))
            &&& frame.field("id"@) == Some(JsonView::String(id@))
            &&& frame.field("method"@) == Some(JsonView::String(method@))
            &&& frame.field("params"@) == opt_tree(params)
            &&& frame.field(key) is Some ==> key == "jsonrpc"@ || key == "id"@ || key == "method"@
                || key == "params"@
        }),
{
    lemma_member_names();
}

/// A line that is written for a notification names the version, the method and, where there are
/// any, the params, and nothing else; it holds no line feed.
pub proof fn law_notification_lines_hold_the_notification(
    method: &str,
    params: Option<Json>,
    line: String,
    key: Seq<char>,
)
    requires
        call_ensures(notification_line, (method, params), line),
    ensures
        ({
            let frame = notification_frame(method@, opt_tree(params));
            &&& line@ == json_text(frame)
            &&& !line@.contains('\n')
            &&& frame is Object
            &&& frame.field("jsonrpc"@) == Some(JsonView::String("2.0"@))
            &&& frame.field("method"@) == Some(JsonView::String(method@))
            &&& frame.field("params"@) == opt_tree(params)
            &&& frame.field(key) is Some ==> key == "jsonrpc"@ || key == "method"@ || key
                == "params"@
        }),
{
    lemma_member_names();
}

/// A line that is written for an answer names the version, the id as it came, and either the result
/// or the error with its code, its message and, where there is any, its data; it holds no line
/// feed.
pub proof fn law_response_lines_hold_the_answer(
    id: Json,
    result: Json,
    answered: String,
    code: i64,
    message: &str,
    data: Option<Json>,
    refused: String,
    key: Seq<char>,
)
    requires
        call_ensures(response_line, (&id, result), answered),
        call_ensures(error_line, (&id, code, message, data), refused),
    ensures
        ({
            let success = response_frame(id@, result@);
            let failure = error_frame(id@, code, message@, opt_tree(data));
            &&& answered@ == json_text(success) && !answered@.contains('\n')
            &&& refused@ == json_text(failure) && !refused@.contains('\n')
            &&& success.field("jsonrpc"@) == Some(JsonView::String("2.0"@))
            &&& success.field("id"@) == Some(id@)
            &&& success.field("result"@) == Some(result@)
            &&& success.field(key) is Some ==> key == "jsonrpc"@ || key == "id"@ || key == "result"@
            &&& failure.field("jsonrpc"@) == Some(JsonView::String("2.0"@))
            &&& failure.field("id"@) == Some(id@)
            &&& failure.field(key) is Some ==> key == "jsonrpc"@ || key == "id"@ || key == "error"@
            &&& failure.field("error"@) matches Some(error) && {
                &&& error.field("code"@) matches Some(JsonView::Number(number))
                    && number_integer(number) == Some(code as int)
                &&& error.field("message"@) == Some(JsonView::String(message@))
                &&& error.field("data"@) == opt_tree(data)
                &&& error.field(key) is Some ==> key == "code"@ || key == "message"@ || key
                    == "data"@
            }
        }),
{
    lemma_member_names();
}

} // verus!
