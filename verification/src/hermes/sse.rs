//! The events of the Hermes `chat/stream` protocol.
//!
//! Hermes emits `event: <name>\ndata: <json>\n\n` frames. `assistant.delta`
//! carries its text in `delta` (not `content`), and the final assistant text
//! arrives in `assistant.completed.content`.

use vstd::prelude::*;
use vstd::string::*;

use crate::json::{
    get, members, members_are_the_fields, parse_object, parsed_object, JsonField, JsonFieldView,
};

verus! {

/// A normalized chat-stream event.
#[derive(Debug, Clone, PartialEq, Eq)]
pub enum ChatEvent {
    RunStarted,
    MessageStarted,
    /// Incremental assistant text.
    Delta(String),
    /// Tool lifecycle or reasoning progress. `status` is the raw event name.
    ToolProgress { tool_name: String, status: String },
    /// Final assistant message text.
    AssistantCompleted { content: String },
    /// Run finished; carries the JSON text of the opaque usage object if
    /// present.
    RunCompleted { usage: Option<String> },
    /// Server-reported error mid-run.
    Error(String),
    /// Terminal sentinel.
    Done,
    /// Any other event name (ignored by the consumer).
    Other(String),
}

/// What a [`ChatEvent`] says.
#[verifier::ext_equal]
pub enum ChatEventView {
    RunStarted,
    MessageStarted,
    Delta(Seq<char>),
    ToolProgress { tool_name: Seq<char>, status: Seq<char> },
    AssistantCompleted { content: Seq<char> },
    RunCompleted { usage: Option<Seq<char>> },
    Error(Seq<char>),
    Done,
    Other(Seq<char>),
}

impl View for ChatEvent {
    type V = ChatEventView;

    open spec fn view(&self) -> ChatEventView {
        match self {
            ChatEvent::RunStarted => ChatEventView::RunStarted,
            ChatEvent::MessageStarted => ChatEventView::MessageStarted,
            ChatEvent::Delta(d) => ChatEventView::Delta(d@),
            ChatEvent::ToolProgress { tool_name, status } => ChatEventView::ToolProgress {
                tool_name: tool_name@,
                status: status@,
            },
            ChatEvent::AssistantCompleted { content } => ChatEventView::AssistantCompleted {
                content: content@,
            },
            ChatEvent::RunCompleted { usage } => ChatEventView::RunCompleted {
                usage: usage.deep_view(),
            },
            ChatEvent::Error(m) => ChatEventView::Error(m@),
            ChatEvent::Done => ChatEventView::Done,
            ChatEvent::Other(n) => ChatEventView::Other(n@),
        }
    }
}

/// A payload: the members of the JSON object that came with an event.
pub type Payload = Map<Seq<char>, JsonFieldView>;

/// The text of the member `key`, or `default` where it is missing or no string.
pub open spec fn text_or(payload: Payload, key: Seq<char>, default: Seq<char>) -> Seq<char> {
    if payload.contains_key(key) && payload[key].text is Some {
        payload[key].text->0
    } else {
        default
    }
}

/// The event names that report on a tool.
pub open spec fn is_tool_event(name: Seq<char>) -> bool {
    name == "tool.started"@ || name == "tool.completed"@ || name == "tool.failed"@ || name
        == "tool.progress"@
}

/// The event that a name and a payload stand for.
pub open spec fn event_of(name: Seq<char>, payload: Payload) -> ChatEventView {
    if name == "run.started"@ {
        ChatEventView::RunStarted
    } else if name == "message.started"@ {
        ChatEventView::MessageStarted
    } else if name == "assistant.delta"@ {
        ChatEventView::Delta(text_or(payload, "delta"@, Seq::empty()))
    } else if is_tool_event(name) {
        ChatEventView::ToolProgress {
            tool_name: text_or(payload, "tool_name"@, "unknown"@),
            status: name,
        }
    } else if name == "assistant.completed"@ {
        ChatEventView::AssistantCompleted { content: text_or(payload, "content"@, Seq::empty()) }
    } else if name == "run.completed"@ {
        ChatEventView::RunCompleted {
            usage: if payload.contains_key("usage"@) {
                Some(payload["usage"@].json)
            } else {
                None
            },
        }
    } else if name == "error"@ {
        ChatEventView::Error(text_or(payload, "message"@, "unknown error"@))
    } else if name == "done"@ {
        ChatEventView::Done
    } else {
        ChatEventView::Other(name)
    }
}

/// The payload that a text stands for. Malformed JSON counts as an empty
/// payload.
pub open spec fn payload_of(data: Seq<char>) -> Payload {
    match parsed_object(data) {
        Some(m) => m,
        None => Map::empty(),
    }
}

fn str_field(fields: &Vec<(String, JsonField)>, key: &str, default: &str) -> (r: String)
    ensures
        r@ == text_or(members(fields.deep_view()), key@, default@),
{
    match get(fields, key) {
        Some(field) => match &field.text {
            Some(t) => t.clone(),
            None => default.to_owned(),
        },
        None => default.to_owned(),
    }
}

/// Maps an event name and the members of its payload to a [`ChatEvent`].
pub fn event_from(name: &str, fields: &Vec<(String, JsonField)>) -> (r: ChatEvent)
    ensures
        r@ == event_of(name@, members(fields.deep_view())),
{
    proof {
        reveal_strlit("");
        assert(""@ =~= Seq::empty());
    }
    if *name == *"run.started" {
        ChatEvent::RunStarted
    } else if *name == *"message.started" {
        ChatEvent::MessageStarted
    } else if *name == *"assistant.delta" {
        ChatEvent::Delta(str_field(fields, "delta", ""))
    } else if *name == *"tool.started" || *name == *"tool.completed" || *name == *"tool.failed"
        || *name == *"tool.progress" {
        ChatEvent::ToolProgress {
            tool_name: str_field(fields, "tool_name", "unknown"),
            status: name.to_owned(),
        }
    } else if *name == *"assistant.completed" {
        ChatEvent::AssistantCompleted { content: str_field(fields, "content", "") }
    } else if *name == *"run.completed" {
        ChatEvent::RunCompleted {
            usage: match get(fields, "usage") {
                Some(field) => Some(field.json.clone()),
                None => None,
            },
        }
    } else if *name == *"error" {
        ChatEvent::Error(str_field(fields, "message", "unknown error"))
    } else if *name == *"done" {
        ChatEvent::Done
    } else {
        ChatEvent::Other(name.to_owned())
    }
}

/// Maps a raw (event name, data) pair to a [`ChatEvent`]. Malformed JSON
/// degrades gracefully (treated as empty payload) rather than erroring.
pub fn parse_event(name: &str, data: &str) -> (r: ChatEvent)
    ensures
        r@ == event_of(name@, payload_of(data@)),
{
    let fields = match parse_object(data) {
        Some(fields) => fields,
        None => {
            let none: Vec<(String, JsonField)> = Vec::new();
            assert(members(none.deep_view()) =~= Map::<Seq<char>, JsonFieldView>::empty());
            none
        },
    };
    event_from(name, &fields)
}

/// What the transport of a chat stream yields: a frame's name and data, or the
/// reason why the stream broke.
#[derive(Debug, Clone, PartialEq, Eq)]
pub enum StreamItem {
    Frame { event: String, data: String },
    Broken(String),
}

/// The event that one item of a chat stream stands for.
pub open spec fn item_event(item: StreamItem) -> ChatEventView {
    match item {
        StreamItem::Frame { event, data } => event_of(event@, payload_of(data@)),
        StreamItem::Broken(e) => ChatEventView::Error("SSE stream error: "@ + e@),
    }
}

/// Maps one item of a chat stream to a [`ChatEvent`]; a broken stream becomes
/// an error event.
pub fn stream_event(item: &StreamItem) -> (r: ChatEvent)
    ensures
        r@ == item_event(*item),
{
    match item {
        StreamItem::Frame { event, data } => parse_event(event.as_str(), data.as_str()),
        StreamItem::Broken(e) => ChatEvent::Error(
            "SSE stream error: ".to_owned().concat(e.as_str()),
        ),
    }
}

/// Data that is no JSON object makes the event that an empty payload makes.
pub proof fn malformed_data_is_an_empty_payload(name: Seq<char>, data: Seq<char>)
    requires
        parsed_object(data) is None,
    ensures
        event_of(name, payload_of(data)) == event_of(name, Map::empty()),
{
}

/// The payload has a member `key` that is the string `text`.
pub open spec fn has_text(payload: Payload, key: Seq<char>, text: Seq<char>) -> bool {
    payload.contains_key(key) && payload[key].text == Some(text)
}

/// The payload has no member `key` that is a string.
pub open spec fn lacks_text(payload: Payload, key: Seq<char>) -> bool {
    payload.contains_key(key) ==> payload[key].text is None
}

proof fn lemma_names_differ()
    ensures
        "run.started"@.len() == 11,
        "message.started"@.len() == 15,
        "assistant.delta"@.len() == 15,
        "message.started"@ != "assistant.delta"@,
        "tool.started"@.len() == 12,
        "tool.completed"@.len() == 14,
        "tool.failed"@.len() == 11,
        "tool.progress"@.len() == 13,
        "tool.progress"@ != "run.completed"@,
        "run.started"@ != "tool.failed"@,
        "assistant.completed"@.len() == 19,
        "run.completed"@.len() == 13,
        "error"@.len() == 5,
        "done"@.len() == 4,
{
    reveal_strlit("run.started");
    reveal_strlit("message.started");
    reveal_strlit("assistant.delta");
    reveal_strlit("tool.started");
    reveal_strlit("tool.completed");
    reveal_strlit("tool.failed");
    reveal_strlit("tool.progress");
    reveal_strlit("assistant.completed");
    reveal_strlit("run.completed");
    reveal_strlit("error");
    reveal_strlit("done");
    assert("message.started"@[0] != "assistant.delta"@[0]);
    assert("tool.progress"@[0] != "run.completed"@[0]);
    assert("run.started"@[0] != "tool.failed"@[0]);
}

/// Texts are carried character for character: a delta is the member `delta` as
/// it came, a completed message its `content`, an error its `message`, and a
/// tool's progress its `tool_name`.
pub proof fn texts_are_carried_as_they_came(payload: Payload, text: Seq<char>, tool: Seq<char>)
    requires
        is_tool_event(tool),
    ensures
        has_text(payload, "delta"@, text) ==> event_of("assistant.delta"@, payload)
            == ChatEventView::Delta(text),
        has_text(payload, "content"@, text) ==> event_of("assistant.completed"@, payload) == (
        ChatEventView::AssistantCompleted { content: text }),
        has_text(payload, "message"@, text) ==> event_of("error"@, payload) == ChatEventView::Error(
            text,
        ),
        has_text(payload, "tool_name"@, text) ==> event_of(tool, payload) == (
        ChatEventView::ToolProgress { tool_name: text, status: tool }),
{
    lemma_names_differ();
}

/// A text that is missing, or is no string, is empty for a delta and for a
/// completed message, and a stock phrase for an error and for a tool.
pub proof fn missing_texts_have_stand_ins(payload: Payload, tool: Seq<char>)
    requires
        is_tool_event(tool),
    ensures
        lacks_text(payload, "delta"@) ==> event_of("assistant.delta"@, payload)
            == ChatEventView::Delta(Seq::empty()),
        lacks_text(payload, "content"@) ==> event_of("assistant.completed"@, payload) == (
        ChatEventView::AssistantCompleted { content: Seq::empty() }),
        lacks_text(payload, "message"@) ==> event_of("error"@, payload) == ChatEventView::Error(
            "unknown error"@,
        ),
        lacks_text(payload, "tool_name"@) ==> event_of(tool, payload) == (
        ChatEventView::ToolProgress { tool_name: "unknown"@, status: tool }),
{
    lemma_names_differ();
}

/// The names that stand for an event of their own.
pub open spec fn is_known(name: Seq<char>) -> bool {
    ||| name == "run.started"@
    ||| name == "message.started"@
    ||| name == "assistant.delta"@
    ||| name == "tool.started"@
    ||| name == "tool.completed"@
    ||| name == "tool.failed"@
    ||| name == "tool.progress"@
    ||| name == "assistant.completed"@
    ||| name == "run.completed"@
    ||| name == "error"@
    ||| name == "done"@
}

/// The events without a text go by their name alone, the end of a run carries
/// the JSON of its usage whenever there is one, and a name that stands for no
/// event of its own is kept as it is.
pub proof fn other_events_go_by_their_name(payload: Payload, name: Seq<char>)
    ensures
        event_of("run.started"@, payload) is RunStarted,
        event_of("message.started"@, payload) is MessageStarted,
        event_of("done"@, payload) is Done,
        event_of("run.completed"@, payload) matches ChatEventView::RunCompleted { usage } && (
        usage is Some <==> payload.contains_key("usage"@)) && (usage matches Some(u) ==> u
            == payload["usage"@].json),
        !is_known(name) ==> event_of(name, payload) == ChatEventView::Other(name),
        is_tool_event("tool.started"@) && is_tool_event("tool.completed"@) && is_tool_event(
            "tool.failed"@,
        ) && is_tool_event("tool.progress"@),
{
    lemma_names_differ();
}

/// The texts of some delta events, put together.
pub open spec fn delta_text(events: Seq<ChatEventView>) -> Seq<char>
    decreases events.len(),
{
    if events.len() == 0 {
        Seq::empty()
    } else {
        let rest = delta_text(events.drop_first());
        match events[0] {
            ChatEventView::Delta(t) => t + rest,
            _ => rest,
        }
    }
}

/// Some texts, put together.
pub open spec fn put_together(texts: Seq<Seq<char>>) -> Seq<char>
    decreases texts.len(),
{
    if texts.len() == 0 {
        Seq::empty()
    } else {
        texts[0] + put_together(texts.drop_first())
    }
}

/// Where a reply comes in parts, each the `delta` of a payload, the texts of the
/// events put together are the parts put together.
pub proof fn deltas_make_up_the_reply(payloads: Seq<Payload>, parts: Seq<Seq<char>>)
    requires
        payloads.len() == parts.len(),
        forall|i: int| 0 <= i < parts.len() ==> has_text(payloads[i], "delta"@, #[trigger] parts[i]),
    ensures
        delta_text(payloads.map_values(|p: Payload| event_of("assistant.delta"@, p)))
            == put_together(parts),
    decreases parts.len(),
{
    let event = |p: Payload| event_of("assistant.delta"@, p);
    if parts.len() > 0 {
        assert(has_text(payloads[0], "delta"@, parts[0]));
        texts_are_carried_as_they_came(payloads[0], parts[0], "tool.started"@);
        assert(payloads.map_values(event).drop_first() =~= payloads.drop_first().map_values(event));
        assert forall|i: int| 0 <= i < parts.len() - 1 implies has_text(
            payloads.drop_first()[i],
            "delta"@,
            #[trigger] parts.drop_first()[i],
        ) by {
            assert(has_text(payloads[i + 1], "delta"@, parts[i + 1]));
        }
        deltas_make_up_the_reply(payloads.drop_first(), parts.drop_first());
    }
}

/// The data of a frame counts as the object that it is, and as an empty one
/// where it is none.
pub proof fn data_is_read_as_an_object(data: Seq<char>)
    ensures
        parsed_object(data) matches Some(m) ==> payload_of(data) == m,
        parsed_object(data) is None ==> payload_of(data).dom().is_empty(),
{
}

/// A frame makes the event of its name and data, and a broken stream an error
/// that tells why.
pub proof fn stream_items_become_events(item: StreamItem)
    ensures
        item matches StreamItem::Frame { event, data } ==> item_event(item) == event_of(
            event@,
            payload_of(data@),
        ),
        item matches StreamItem::Broken(e) ==> item_event(item) == ChatEventView::Error(
            "SSE stream error: "@ + e@,
        ),
{
}

/// What the first field of a name says is what the event carries: of an
/// `assistant.delta` with the field `delta`, its text as it is; and without such
/// a field, nothing.
pub proof fn delta_is_the_field_of_that_name(fields: Seq<(Seq<char>, JsonFieldView)>, i: int)
    requires
        0 <= i <= fields.len(),
        forall|j: int| 0 <= j < i ==> (#[trigger] fields[j]).0 != "delta"@,
        i < fields.len() ==> fields[i].0 == "delta"@,
    ensures
        i < fields.len() && fields[i].1.text is Some ==> event_of("assistant.delta"@, members(fields))
            == ChatEventView::Delta(fields[i].1.text->0),
        i < fields.len() && fields[i].1.text is None ==> event_of("assistant.delta"@, members(fields))
            == ChatEventView::Delta(Seq::empty()),
        i == fields.len() ==> event_of("assistant.delta"@, members(fields)) == ChatEventView::Delta(
            Seq::empty(),
        ),
{
    members_are_the_fields(fields, "delta"@);
    lemma_names_differ();
    if i < fields.len() {
        assert(fields[i].0 == "delta"@);
    }
}

} // verus!
