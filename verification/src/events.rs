//! Structural extraction over the opaque session-event stream.
//!
//! Event payloads ride the wire as JSON and pass through verbatim; this module reads them at
//! exactly three points: the inbox receipt, the last committed assistant text, and the last
//! `turn/end` reason kind.

use vstd::prelude::*;
use vstd::string::*;

use crate::client::Notification;
#[allow(unused_imports)]
use crate::client::NotificationView;
use crate::error::SdkError;
#[allow(unused_imports)]
use crate::error::SdkErrorView;
use crate::json::Json;
#[allow(unused_imports)]
use crate::json::{items_tree, JsonView};
use crate::text::same_text;

verus! {

/// Some item is an object whose `id` is `message_id`.
pub open spec fn lists_message(items: Seq<JsonView>, message_id: Seq<char>) -> bool {
    exists|i: int|
        0 <= i < items.len() && (#[trigger] items[i]).text_field("id"@) == Some(message_id)
}

/// The notification is the `agent/inbox/spliced` event of the session that lists the message.
pub open spec fn inbox_receipt(
    notification: NotificationView,
    session_id: Seq<char>,
    message_id: Seq<char>,
) -> bool {
    &&& notification.method == "session.event"@
    &&& notification.payload.text_field("sessionId"@) == Some(session_id)
    &&& notification.payload.field("event"@) matches Some(event)
    &&& event.text_field("type"@) == Some("agent/inbox/spliced"@)
    &&& event.field("data"@) matches Some(data)
    &&& data.field("inserted"@) matches Some(inserted)
    &&& inserted.as_items() matches Some(items)
    &&& lists_message(items, message_id)
}

/// The `text` members of the blocks of type `text`, concatenated.
pub open spec fn blocks_text(blocks: Seq<JsonView>) -> Seq<char>
    decreases blocks.len(),
{
    if blocks.len() == 0 {
        seq![]
    } else {
        let block = blocks.last();
        let before = blocks_text(blocks.drop_last());
        if block.text_field("type"@) == Some("text"@) {
            match block.text_field("text"@) {
                Some(text) => before + text,
                None => before,
            }
        } else {
            before
        }
    }
}

/// The value that holds the content of a message event: `data.message` when it is an object,
/// `data` itself otherwise.
pub open spec fn content_owner(data: JsonView) -> JsonView {
    match data.field("message"@) {
        Some(message) if message is Object => message,
        _ => data,
    }
}

/// The text that an event commits; `None` when it is no `assistant/message` with a content list.
pub open spec fn committed_text(event: JsonView) -> Option<Seq<char>> {
    if event.text_field("type"@) != Some("assistant/message"@) {
        None
    } else {
        match event.field("data"@) {
            Some(data) => match content_owner(data).field("content"@) {
                Some(content) => match content.as_items() {
                    Some(blocks) => Some(blocks_text(blocks)),
                    None => None,
                },
                None => None,
            },
            None => None,
        }
    }
}

/// The text of the last event that commits one; empty when none does.
pub open spec fn last_committed_text(events: Seq<JsonView>) -> Seq<char>
    decreases events.len(),
{
    if events.len() == 0 {
        seq![]
    } else {
        match committed_text(events.last()) {
            Some(text) => text,
            None => last_committed_text(events.drop_last()),
        }
    }
}

/// What a run's events say of how its last turn ended.
pub enum FinishView {
    /// No event ends a turn.
    NoTurnEnd,
    /// The last turn ended for a reason of this kind.
    Reason(Seq<char>),
    /// The last `turn/end` has no string `data.reason.kind`.
    Malformed,
}

/// The event is a `turn/end`.
pub open spec fn is_turn_end(event: JsonView) -> bool {
    event.text_field("type"@) == Some("turn/end"@)
}

/// The string `data.reason.kind` of an event.
pub open spec fn reason_kind(event: JsonView) -> Option<Seq<char>> {
    match event.field("data"@) {
        Some(data) => match data.field("reason"@) {
            Some(reason) => reason.text_field("kind"@),
            None => None,
        },
        None => None,
    }
}

/// How the last turn of the events ended.
pub open spec fn last_finish(events: Seq<JsonView>) -> FinishView
    decreases events.len(),
{
    if events.len() == 0 {
        FinishView::NoTurnEnd
    } else if is_turn_end(events.last()) {
        match reason_kind(events.last()) {
            Some(kind) => FinishView::Reason(kind),
            None => FinishView::Malformed,
        }
    } else {
        last_finish(events.drop_last())
    }
}

/// Whether an optional text is the given one.
pub(crate) fn is_text(text: Option<&str>, expected: &str) -> (equal: bool)
    ensures
        equal == (text matches Some(text) && text@ == expected@),
{
    match text {
        Some(text) => same_text(text, expected),
        None => false,
    }
}

/// Whether some message of a list has the given id.
fn lists_id(messages: &Vec<Json>, message_id: &str) -> (found: bool)
    ensures
        found == lists_message(items_tree(messages@), message_id@),
{
    let ghost items = items_tree(messages@);
    let mut i: usize = 0;
    while i < messages.len()
        invariant
            items == items_tree(messages@),
            i <= messages@.len(),
            forall|j: int|
                0 <= j < i ==> (#[trigger] items[j]).text_field("id"@) != Some(message_id@),
        decreases messages@.len() - i,
    {
        assert(items[i as int] == messages@[i as int]@);
        if is_text(messages[i].get_str("id"), message_id) {
            return true;
        }
        i += 1;
    }
    false
}

/// Whether `notification` is the `agent/inbox/spliced` receipt proving that `message_id` was
/// durably enqueued on `session_id`.
pub fn is_inbox_receipt(notification: &Notification, session_id: &str, message_id: &str) -> (receipt:
    bool)
    ensures
        receipt == inbox_receipt(notification@, session_id@, message_id@),
{
    if !same_text(notification.method.as_str(), "session.event") {
        return false;
    }
    if !is_text(notification.payload.get_str("sessionId"), session_id) {
        return false;
    }
    let event = match notification.payload.get("event") {
        Some(event) => event,
        None => return false,
    };
    if !is_text(event.get_str("type"), "agent/inbox/spliced") {
        return false;
    }
    let inserted = match event.get("data") {
        Some(data) => match data.get("inserted") {
            Some(inserted) => inserted,
            None => return false,
        },
        None => return false,
    };
    let messages = match inserted.as_array() {
        Some(messages) => messages,
        None => return false,
    };
    lists_id(messages, message_id)
}

/// The text of a list of content blocks.
fn text_of_blocks(blocks: &Vec<Json>) -> (text: String)
    ensures
        text@ == blocks_text(items_tree(blocks@)),
{
    let mut text = String::new();
    let ghost items = items_tree(blocks@);
    let mut i: usize = 0;
    while i < blocks.len()
        invariant
            items == items_tree(blocks@),
            i <= blocks@.len(),
            text@ == blocks_text(items.take(i as int)),
        decreases blocks@.len() - i,
    {
        assert(items[i as int] == blocks@[i as int]@);
        assert(items.take(i + 1).drop_last() =~= items.take(i as int));
        if is_text(blocks[i].get_str("type"), "text") {
            if let Some(part) = blocks[i].get_str("text") {
                text.append(part);
            }
        }
        i += 1;
    }
    assert(items.take(items.len() as int) =~= items);
    text
}

/// The text that one event commits.
fn event_text(event: &Json) -> (text: Option<String>)
    ensures
        match text {
            Some(text) => committed_text(event@) == Some(text@),
            None => committed_text(event@) is None,
        },
{
    if !is_text(event.get_str("type"), "assistant/message") {
        return None;
    }
    let data = match event.get("data") {
        Some(data) => data,
        None => return None,
    };
    let owner = match data.get("message") {
        Some(message) => if message.is_object() {
            message
        } else {
            data
        },
        None => data,
    };
    match owner.get("content") {
        Some(content) => match content.as_array() {
            Some(blocks) => Some(text_of_blocks(blocks)),
            None => None,
        },
        None => None,
    }
}

/// The text blocks of the last committed `assistant/message` event, concatenated; empty when no
/// such event exists.
pub fn final_response(events: &Vec<Json>) -> (text: String)
    ensures
        text@ == last_committed_text(items_tree(events@)),
{
    let ghost items = items_tree(events@);
    let mut i: usize = events.len();
    assert(items.take(i as int) =~= items);
    while i > 0
        invariant
            items == items_tree(events@),
            i <= events@.len(),
            last_committed_text(items) == last_committed_text(items.take(i as int)),
        decreases i,
    {
        assert(items.take(i as int).last() == events@[i - 1]@);
        assert(items.take(i as int).drop_last() =~= items.take(i - 1));
        if let Some(text) = event_text(&events[i - 1]) {
            return text;
        }
        i -= 1;
    }
    String::new()
}

/// The reason kind of the last `turn/end` event; `None` when the events contain no turn end. A
/// `turn/end` without a string `data.reason.kind` is a protocol violation.
pub fn finish_reason(events: &Vec<Json>) -> (reason: Result<Option<String>, SdkError>)
    ensures
        match last_finish(items_tree(events@)) {
            FinishView::NoTurnEnd => reason matches Ok(None),
            FinishView::Reason(kind) => reason matches Ok(Some(text)) && text@ == kind,
            FinishView::Malformed => reason matches Err(error) && error@ == (
            SdkErrorView::Protocol { message: "turn/end event requires a string data.reason.kind"@ }),
        },
{
    let ghost items = items_tree(events@);
    let mut i: usize = events.len();
    assert(items.take(i as int) =~= items);
    while i > 0
        invariant
            items == items_tree(events@),
            i <= events@.len(),
            last_finish(items) == last_finish(items.take(i as int)),
        decreases i,
    {
        assert(items.take(i as int).last() == events@[i - 1]@);
        assert(items.take(i as int).drop_last() =~= items.take(i - 1));
        let event = &events[i - 1];
        if is_text(event.get_str("type"), "turn/end") {
            let kind = match event.get("data") {
                Some(data) => match data.get("reason") {
                    Some(reason) => reason.get_str("kind"),
                    None => None,
                },
                None => None,
            };
            return match kind {
                Some(kind) => Ok(Some(kind.to_owned())),
                None => Err(SdkError::protocol("turn/end event requires a string data.reason.kind")),
            };
        }
        i -= 1;
    }
    Ok(None)
}

/// The final response is the text of the last event that commits one, whatever else follows, and
/// empty where none does.
pub proof fn law_the_last_committed_text_wins(events: Seq<JsonView>, last: int)
    requires
        -1 <= last < events.len(),
        last >= 0 ==> committed_text(events[last]) is Some,
        forall|i: int| last < i < events.len() ==> committed_text(#[trigger] events[i]) is None,
    ensures
        last_committed_text(events) == if last >= 0 {
            committed_text(events[last])->0
        } else {
            seq![]
        },
    decreases events.len(),
{
    if events.len() > 0 && last < events.len() - 1 {
        let rest = events.drop_last();
        assert(committed_text(events[events.len() - 1]) is None);
        assert forall|i: int| last < i < rest.len() implies committed_text(
            #[trigger] rest[i],
        ) is None by {
            assert(rest[i] == events[i]);
        }
        law_the_last_committed_text_wins(rest, last);
    }
}

/// The finish reason is read from the last `turn/end`, whatever else follows, and there is none
/// where no turn ends.
pub proof fn law_the_last_turn_end_wins(events: Seq<JsonView>, last: int)
    requires
        -1 <= last < events.len(),
        last >= 0 ==> is_turn_end(events[last]),
        forall|i: int| last < i < events.len() ==> !is_turn_end(#[trigger] events[i]),
    ensures
        last_finish(events) == if last >= 0 {
            match reason_kind(events[last]) {
                Some(kind) => FinishView::Reason(kind),
                None => FinishView::Malformed,
            }
        } else {
            FinishView::NoTurnEnd
        },
    decreases events.len(),
{
    if events.len() > 0 && last < events.len() - 1 {
        let rest = events.drop_last();
        assert(!is_turn_end(events[events.len() - 1]));
        assert forall|i: int| last < i < rest.len() implies !is_turn_end(#[trigger] rest[i]) by {
            assert(rest[i] == events[i]);
        }
        law_the_last_turn_end_wins(rest, last);
    }
}

/// The text of two lists of blocks, one behind the other, is the text of the first and then that of
/// the second: whatever stands beside a block takes nothing from it and adds nothing to it.
pub proof fn law_the_text_of_blocks_adds_up(first: Seq<JsonView>, second: Seq<JsonView>)
    ensures
        blocks_text(first + second) == blocks_text(first) + blocks_text(second),
    decreases second.len(),
{
    if second.len() == 0 {
        assert(first + second =~= first);
        assert(blocks_text(first) + blocks_text(second) =~= blocks_text(first));
    } else {
        law_the_text_of_blocks_adds_up(first, second.drop_last());
        assert((first + second).drop_last() =~= first + second.drop_last());
        assert((first + second).last() == second.last());
        assert(blocks_text(first + second) =~= blocks_text(first) + blocks_text(second));
    }
}

/// A block of type `text` stands for its string member `text`, and any other block for nothing.
pub proof fn law_a_text_block_is_its_text(members: Map<Seq<char>, JsonView>, block: JsonView)
    requires
        block == JsonView::Object(members),
    ensures
        ({
            let is_text = members.contains_key("type"@) && members["type"@] == JsonView::String(
                "text"@,
            );
            &&& is_text && members.contains_key("text"@) ==> (members["text"@]
                matches JsonView::String(text) ==> blocks_text(seq![block]) == text)
            &&& !is_text || !members.contains_key("text"@) || !(members["text"@] is String)
                ==> blocks_text(seq![block]) == Seq::<char>::empty()
        }),
        blocks_text(seq![]) == Seq::<char>::empty(),
{
    assert(seq![block].drop_last() =~= seq![]);
    assert(blocks_text(seq![]) =~= Seq::<char>::empty());
    if members.contains_key("text"@) && members["text"@] is String {
        let text = members["text"@]->String_0;
        assert(Seq::<char>::empty() + text =~= text);
    }
}

/// The content of an assistant message lies in `data.message` where that is an object, and in
/// `data` itself otherwise. An event of any other type, or without a content list, commits no text.
pub proof fn law_assistant_messages_commit_their_content(
    event: JsonView,
    data: JsonView,
    blocks: Seq<JsonView>,
)
    ensures
        event.text_field("type"@) == Some("assistant/message"@) && event.field("data"@) == Some(
            data,
        ) ==> {
            &&& data.field("message"@) matches Some(message) ==> message is Object
                ==> message.field("content"@) == Some(JsonView::Array(blocks)) ==> committed_text(
                event,
            ) == Some(blocks_text(blocks))
            &&& data.field("message"@) matches Some(message) ==> message is Object ==> !(
            message.field("content"@) matches Some(JsonView::Array(_))) ==> committed_text(
                event,
            ) is None
            &&& !(data.field("message"@) matches Some(JsonView::Object(_))) && data.field(
                "content"@,
            ) == Some(JsonView::Array(blocks)) ==> committed_text(event) == Some(
                blocks_text(blocks),
            )
            &&& !(data.field("message"@) matches Some(JsonView::Object(_))) && !(data.field(
                "content"@,
            ) matches Some(JsonView::Array(_))) ==> committed_text(event) is None
        },
        event.text_field("type"@) != Some("assistant/message"@) ==> committed_text(event) is None,
        event.field("data"@) is None ==> committed_text(event) is None,
{
}

/// What [`final_response`] gives is the text of the last event that commits one, whatever else
/// comes before or behind it, and nothing where none does.
pub proof fn law_the_final_response_is_the_last_committed_text(
    events: Vec<Json>,
    response: String,
    last: int,
)
    requires
        call_ensures(final_response, (&events,), response),
        -1 <= last < events@.len(),
        last >= 0 ==> committed_text(events@[last]@) is Some,
        forall|i: int|
            last < i < events@.len() ==> committed_text((#[trigger] events@[i])@) is None,
    ensures
        response@ == if last >= 0 {
            committed_text(events@[last]@)->0
        } else {
            seq![]
        },
{
    let items = items_tree(events@);
    assert forall|i: int| 0 <= i < items.len() implies #[trigger] items[i] == events@[i]@ by {}
    assert forall|i: int| last < i < items.len() implies committed_text(
        #[trigger] items[i],
    ) is None by {
        assert(items[i] == events@[i]@);
    }
    law_the_last_committed_text_wins(items, last);
}

/// What [`finish_reason`] gives is the string `data.reason.kind` of the last event of type
/// `turn/end`, an error where that has none, and nothing where no event is of that type.
pub proof fn law_the_finish_reason_is_that_of_the_last_turn_end(
    events: Vec<Json>,
    result: Result<Option<String>, SdkError>,
    last: int,
)
    requires
        call_ensures(finish_reason, (&events,), result),
        -1 <= last < events@.len(),
        last >= 0 ==> events@[last]@.text_field("type"@) == Some("turn/end"@),
        forall|i: int|
            last < i < events@.len() ==> (#[trigger] events@[i])@.text_field("type"@) != Some(
                "turn/end"@,
            ),
    ensures
        last < 0 ==> result matches Ok(None),
        last >= 0 ==> match result {
            Ok(reason) => reason matches Some(kind) && (events@[last]@.field("data"@)
                matches Some(data) && data.field("reason"@) matches Some(why) && why.text_field(
                "kind"@,
            ) == Some(kind@)),
            Err(error) => error@ == (SdkErrorView::Protocol {
                message: "turn/end event requires a string data.reason.kind"@,
            }) && !(events@[last]@.field("data"@) matches Some(data)
                && data.field("reason"@) matches Some(why) && why.text_field("kind"@) is Some),
        },
{
    let items = items_tree(events@);
    assert forall|i: int| 0 <= i < items.len() implies #[trigger] items[i] == events@[i]@ by {}
    assert forall|i: int| last < i < items.len() implies !is_turn_end(#[trigger] items[i]) by {
        assert(items[i] == events@[i]@);
    }
    law_the_last_turn_end_wins(items, last);
}

/// A notification is the receipt of a message on a session exactly when it is a `session.event` of
/// that session whose event, of type `agent/inbox/spliced`, lists an item with the message's id.
pub proof fn law_a_receipt_lists_the_message(
    notification: Notification,
    session_id: &str,
    message_id: &str,
    receipt: bool,
    event: JsonView,
    data: JsonView,
    inserted: Seq<JsonView>,
    at: int,
)
    requires
        call_ensures(is_inbox_receipt, (&notification, session_id, message_id), receipt),
    ensures
        receipt ==> notification@.method == "session.event"@,
        receipt ==> notification@.payload.text_field("sessionId"@) == Some(session_id@),
        notification@.payload.field("event"@) is None ==> !receipt,
        notification@.payload.field("event"@) == Some(event) && event.field("data"@) == Some(data)
            && data.field("inserted"@) == Some(JsonView::Array(inserted)) ==> {
            &&& receipt ==> event.text_field("type"@) == Some("agent/inbox/spliced"@)
            &&& receipt ==> exists|i: int|
                0 <= i < inserted.len() && (#[trigger] inserted[i]).text_field("id"@) == Some(
                    message_id@,
                )
            &&& notification@.method == "session.event"@ && notification@.payload.text_field(
                "sessionId"@,
            ) == Some(session_id@) && event.text_field("type"@) == Some("agent/inbox/spliced"@)
                && 0 <= at < inserted.len() && inserted[at].text_field("id"@) == Some(message_id@)
                ==> receipt
        },
        notification@.payload.field("event"@) == Some(event) && (event.field("data"@) is None || (
        event.field("data"@) == Some(data) && !(data.field("inserted"@) matches Some(
            JsonView::Array(_),
        )))) ==> !receipt,
{
}

} // verus!
