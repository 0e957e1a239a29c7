//! What one event of a chat-completions stream brings.
use crate::json;
use crate::json::{Json, JsonView};
use crate::llm::content;
use crate::llm::message;
use crate::llm::message::{
    CompletionError, DeltaPart, ErrorView, RawStreamingChoice, RawStreamingToolCall, StreamEvent,
    ToolCallDeltaContent,
};
use crate::llm::pending;
use crate::llm::pending::{OpenAiStreamingToolCall, PendingCall};
use crate::text;
use std::collections::BTreeMap;
use vstd::prelude::*;

verus! {

/// How far a stream has come: the tool calls that are pending, and the events so
/// far.
pub struct Progress {
    pub pending: Map<usize, PendingCall>,
    pub events: Seq<StreamEvent>,
}

/// What a part of a stream leads to. After an error nothing more is read.
pub struct Outcome {
    pub pending: Map<usize, PendingCall>,
    pub events: Seq<StreamEvent>,
    pub error: Option<ErrorView>,
}

/// Text segments as message events.
pub open spec fn messages(parts: Seq<Seq<char>>) -> Seq<StreamEvent> {
    parts.map_values(|t: Seq<char>| StreamEvent::Message(t))
}

/// Text segments as reasoning events.
pub open spec fn reasonings(parts: Seq<Seq<char>>) -> Seq<StreamEvent> {
    parts.map_values(|t: Seq<char>| StreamEvent::ReasoningDelta { id: None, reasoning: t })
}

/// The events of a streamed part of a tool call, once it has been added: one for
/// a name and one for a piece of arguments.
pub open spec fn delta_events(call: JsonView, entry: PendingCall) -> Seq<StreamEvent> {
    let function = call.at("function"@);
    content::some_text_at(function, "name"@).map_values(
        |name: Seq<char>|
            StreamEvent::ToolCallDelta {
                id: entry.id,
                internal_call_id: entry.internal_call_id,
                content: DeltaPart::Name(name),
            },
    ) + content::some_text_at(function, "arguments"@).map_values(
        |chunk: Seq<char>|
            StreamEvent::ToolCallDelta {
                id: entry.id,
                internal_call_id: entry.internal_call_id,
                content: DeltaPart::Delta(chunk),
            },
    )
}

/// One streamed part of a tool call. A call that was not pending gets `fresh` as
/// its internal id.
pub open spec fn after_delta(p: Progress, call: JsonView, fresh: Seq<char>) -> Progress {
    let index = pending::delta_index(call);
    let entry = pending::with_delta(pending::call_at(p.pending, index, fresh), call);
    Progress {
        pending: p.pending.insert(index, entry),
        events: p.events + delta_events(call, entry),
    }
}

/// Streamed parts of tool calls, one after the other; `fresh` holds an internal
/// id for each.
pub open spec fn after_deltas(
    p: Progress,
    calls: Seq<JsonView>,
    fresh: Seq<Seq<char>>,
) -> Progress
    decreases calls.len(),
{
    if calls.len() == 0 {
        p
    } else {
        after_delta(
            after_deltas(p, calls.drop_last(), fresh),
            calls.last(),
            fresh[calls.len() - 1],
        )
    }
}

/// A whole tool call in a message. It takes the place of the call that is pending
/// at its position, and keeps that call's ids.
pub open spec fn after_message_call(p: Progress, index: usize, call: JsonView) -> Progress {
    let was_pending = p.pending.contains_key(index);
    let fallback_id = if was_pending && p.pending[index].id.len() > 0 {
        p.pending[index].id
    } else {
        content::numbered_call(index as int)
    };
    Progress {
        pending: p.pending.remove(index),
        events: match content::parsed_tool_call(call, fallback_id) {
            Some(parsed) => p.events.push(
                StreamEvent::ToolCall {
                    internal_call_id: if was_pending {
                        p.pending[index].internal_call_id
                    } else {
                        parsed.id
                    },
                    call: parsed,
                },
            ),
            None => p.events,
        },
    }
}

/// The whole tool calls of a message, by position.
pub open spec fn after_message_calls(p: Progress, calls: Seq<JsonView>) -> Progress
    decreases calls.len(),
{
    if calls.len() == 0 {
        p
    } else {
        after_message_call(
            after_message_calls(p, calls.drop_last()),
            (calls.len() - 1) as usize,
            calls.last(),
        )
    }
}

/// The `delta` of a choice.
pub open spec fn after_choice_delta(
    p: Progress,
    choice: JsonView,
    fresh: Seq<Seq<char>>,
) -> Progress {
    match choice.get("delta"@) {
        Some(delta) => {
            let spoken = Progress {
                pending: p.pending,
                events: p.events + messages(content::text_content_at(delta, "content"@))
                    + reasonings(content::text_content_at(delta, "reasoning"@)) + reasonings(
                    content::text_content_at(delta, "reasoning_content"@),
                ),
            };
            match delta.items_at("tool_calls"@) {
                Some(calls) => after_deltas(spoken, calls, fresh),
                None => spoken,
            }
        },
        None => p,
    }
}

/// The `message` of a choice.
pub open spec fn after_choice_message(p: Progress, choice: JsonView) -> Progress {
    match choice.get("message"@) {
        Some(message) => {
            let spoken = Progress {
                pending: p.pending,
                events: p.events + messages(content::text_content_at(message, "content"@)),
            };
            match message.items_at("tool_calls"@) {
                Some(calls) => after_message_calls(spoken, calls),
                None => spoken,
            }
        },
        None => p,
    }
}

/// The finish reason says that the tool calls are complete.
pub open spec fn finishes_tool_calls(choice: JsonView) -> bool {
    match choice.text_at("finish_reason"@) {
        Some(reason) => reason == "tool_calls"@ || reason == "function_call"@,
        None => false,
    }
}

/// One choice of an event: its `delta`, its `message`, and, where it finishes the
/// tool calls, all that are pending.
pub open spec fn after_choice(
    pending: Map<usize, PendingCall>,
    events: Seq<StreamEvent>,
    choice: JsonView,
    fresh: Seq<Seq<char>>,
) -> Outcome {
    let read = after_choice_message(
        after_choice_delta(Progress { pending, events }, choice, fresh),
        choice,
    );
    if finishes_tool_calls(choice) {
        match pending::flushed(read.pending) {
            Ok(more) => Outcome {
                pending: Map::empty(),
                events: read.events + more,
                error: None,
            },
            Err(error) => Outcome {
                pending: Map::empty(),
                events: read.events,
                error: Some(error),
            },
        }
    } else {
        Outcome { pending: read.pending, events: read.events, error: None }
    }
}

/// The choices of an event, up to the first that fails; `fresh` holds internal ids
/// for each.
pub open spec fn after_choices(
    pending: Map<usize, PendingCall>,
    choices: Seq<JsonView>,
    fresh: Seq<Seq<Seq<char>>>,
) -> Outcome
    decreases choices.len(),
{
    if choices.len() == 0 {
        Outcome { pending, events: Seq::empty(), error: None }
    } else {
        let before = after_choices(pending, choices.drop_last(), fresh);
        if before.error is Some {
            before
        } else {
            after_choice(before.pending, before.events, choices.last(), fresh[choices.len() - 1])
        }
    }
}

/// One event of a stream. `fresh` holds, for each choice, an internal id for each
/// streamed part of a tool call in it.
pub open spec fn after_event(
    pending: Map<usize, PendingCall>,
    event: JsonView,
    fresh: Seq<Seq<Seq<char>>>,
) -> Outcome {
    match event.get("error"@) {
        Some(error) => Outcome {
            pending,
            events: Seq::empty(),
            error: Some(
                ErrorView::Provider(
                    "OpenAI-compatible streaming error: "@ + error_message(error),
                ),
            ),
        },
        None => match event.items_at("choices"@) {
            Some(choices) => after_choices(pending, choices, fresh),
            None => Outcome { pending, events: Seq::empty(), error: None },
        },
    }
}

/// The message in an error's JSON.
pub open spec fn error_message(error: JsonView) -> Seq<char> {
    match error.at("message"@).text() {
        Some(message) => message,
        None => "unknown error"@,
    }
}

/// The streamed parts of tool calls in a choice.
pub open spec fn deltas_of(choice: JsonView) -> Seq<JsonView> {
    match choice.get("delta"@) {
        Some(delta) => match delta.items_at("tool_calls"@) {
            Some(calls) => calls,
            None => Seq::empty(),
        },
        None => Seq::empty(),
    }
}

/// The choices of an event.
pub open spec fn choices_of(event: JsonView) -> Seq<JsonView> {
    match event.items_at("choices"@) {
        Some(choices) => choices,
        None => Seq::empty(),
    }
}

/// There is an id for each streamed part of a tool call of each choice.
pub open spec fn enough_ids(event: JsonView, fresh: Seq<Seq<Seq<char>>>) -> bool {
    &&& choices_of(event).len() <= fresh.len()
    &&& forall|k: int|
        0 <= k < choices_of(event).len() ==> deltas_of(#[trigger] choices_of(event)[k]).len()
            <= fresh[k].len()
}

/// The views of lists of texts.
pub open spec fn id_views(ids: Seq<Vec<String>>) -> Seq<Seq<Seq<char>>> {
    ids.map_values(|list: Vec<String>| text::views(list@))
}

/// The message in an error's JSON.
pub fn message_of_error(error_body: &Json) -> (message: String)
    ensures
        message@ == error_message(error_body@),
{
    match error_body.at("message").as_str() {
        Some(message) => message.to_owned(),
        None => "unknown error".to_owned(),
    }
}

/// Appends text segments as message events.
fn push_messages(parts: Vec<String>, events: &mut Vec<RawStreamingChoice>)
    ensures
        message::event_views(final(events)@) == message::event_views(old(events)@) + messages(
            text::views(parts@),
        ),
{
    let ghost before = message::event_views(events@);
    let ghost all = text::views(parts@);
    proof {
        assert(before + messages(all.subrange(0, 0)) =~= before);
    }
    for part in it: parts.into_iter()
        invariant
            it.seq() == parts@,
            all == text::views(parts@),
            message::event_views(events@) == before + messages(
                all.subrange(0, it.index() as int),
            ),
    {
        let ghost i = it.index() as int;
        proof {
            assert(all[i] == part@);
            assert(messages(all.subrange(0, i + 1)) =~= messages(all.subrange(0, i)).push(
                StreamEvent::Message(part@),
            ));
        }
        let event = RawStreamingChoice::Message(part);
        proof {
            assert(message::event_views(events@.push(event)) =~= message::event_views(events@).push(
                event@,
            ));
            assert(before + messages(all.subrange(0, i)).push(event@) =~= (before + messages(
                all.subrange(0, i),
            )).push(event@));
        }
        events.push(event);
    }
    proof {
        assert(all.subrange(0, all.len() as int) =~= all);
    }
}

/// Appends text segments as reasoning events.
fn push_reasonings(parts: Vec<String>, events: &mut Vec<RawStreamingChoice>)
    ensures
        message::event_views(final(events)@) == message::event_views(old(events)@) + reasonings(
            text::views(parts@),
        ),
{
    let ghost before = message::event_views(events@);
    let ghost all = text::views(parts@);
    proof {
        assert(before + reasonings(all.subrange(0, 0)) =~= before);
    }
    for part in it: parts.into_iter()
        invariant
            it.seq() == parts@,
            all == text::views(parts@),
            message::event_views(events@) == before + reasonings(
                all.subrange(0, it.index() as int),
            ),
    {
        let ghost i = it.index() as int;
        let event = RawStreamingChoice::ReasoningDelta { id: None, reasoning: part };
        proof {
            assert(all[i] == part@);
            assert(reasonings(all.subrange(0, i + 1)) =~= reasonings(all.subrange(0, i)).push(
                event@,
            ));
            assert(message::event_views(events@.push(event)) =~= message::event_views(events@).push(
                event@,
            ));
            assert(before + reasonings(all.subrange(0, i)).push(event@) =~= (before + reasonings(
                all.subrange(0, i),
            )).push(event@));
        }
        events.push(event);
    }
    proof {
        assert(all.subrange(0, all.len() as int) =~= all);
    }
}

/// Appends the text segments in the value of a key as message events.
fn push_messages_at(value: &Json, key: &str, events: &mut Vec<RawStreamingChoice>)
    ensures
        message::event_views(final(events)@) == message::event_views(old(events)@) + messages(
            content::text_content_at(value@, key@),
        ),
{
    let mut parts: Vec<String> = Vec::new();
    content::collect_text_content_at(value, key, &mut parts);
    proof {
        assert(text::views(parts@) =~= content::text_content_at(value@, key@));
    }
    push_messages(parts, events);
}

/// Appends the text segments in the value of a key as reasoning events.
fn push_reasonings_at(value: &Json, key: &str, events: &mut Vec<RawStreamingChoice>)
    ensures
        message::event_views(final(events)@) == message::event_views(old(events)@) + reasonings(
            content::text_content_at(value@, key@),
        ),
{
    let mut parts: Vec<String> = Vec::new();
    content::collect_text_content_at(value, key, &mut parts);
    proof {
        assert(text::views(parts@) =~= content::text_content_at(value@, key@));
    }
    push_reasonings(parts, events);
}

/// Takes in one streamed part of a tool call.
fn take_delta(
    tool_call: &Json,
    fresh_id: &str,
    pending_tool_calls: &mut BTreeMap<usize, OpenAiStreamingToolCall>,
    events: &mut Vec<RawStreamingChoice>,
)
    ensures
        after_delta(
            Progress {
                pending: pending::pending_view(old(pending_tool_calls)@),
                events: message::event_views(old(events)@),
            },
            tool_call@,
            fresh_id@,
        ) == (Progress {
            pending: pending::pending_view(final(pending_tool_calls)@),
            events: message::event_views(final(events)@),
        }),
{
    let ghost pending0 = pending::pending_view(pending_tool_calls@);
    let ghost events0 = message::event_views(events@);
    let index: usize = pending::index_of_delta(tool_call);
    let mut entry = pending::take_call_or_new(pending_tool_calls, index, fresh_id);
    pending::add_delta(&mut entry, tool_call);
    let ghost view = entry@;
    let function = tool_call.at("function");
    let ghost names = content::some_text_at(function@, "name"@).map_values(
        |name: Seq<char>|
            StreamEvent::ToolCallDelta {
                id: view.id,
                internal_call_id: view.internal_call_id,
                content: DeltaPart::Name(name),
            },
    );
    let ghost chunks = content::some_text_at(function@, "arguments"@).map_values(
        |chunk: Seq<char>|
            StreamEvent::ToolCallDelta {
                id: view.id,
                internal_call_id: view.internal_call_id,
                content: DeltaPart::Delta(chunk),
            },
    );
    if let Some(name) = function.str_at("name") {
        if !name.is_empty() {
            let event = RawStreamingChoice::ToolCallDelta {
                id: entry.id.clone(),
                internal_call_id: entry.internal_call_id.clone(),
                content: ToolCallDeltaContent::Name(name.to_owned()),
            };
            proof {
                assert(message::event_views(events@.push(event)) =~= events0.push(event@));
                assert(names =~= seq![event@]);
            }
            events.push(event);
        }
    }
    proof {
        assert(message::event_views(events@) =~= events0 + names);
    }
    let ghost events1 = message::event_views(events@);
    if let Some(chunk) = function.str_at("arguments") {
        if !chunk.is_empty() {
            let event = RawStreamingChoice::ToolCallDelta {
                id: entry.id.clone(),
                internal_call_id: entry.internal_call_id.clone(),
                content: ToolCallDeltaContent::Delta(chunk.to_owned()),
            };
            proof {
                assert(message::event_views(events@.push(event)) =~= events1.push(event@));
                assert(chunks =~= seq![event@]);
            }
            events.push(event);
        }
    }
    proof {
        assert(message::event_views(events@) =~= events1 + chunks);
        assert(events0 + names + chunks =~= events0 + (names + chunks));
        assert(names + chunks =~= delta_events(tool_call@, view));
    }
    pending::put_call(pending_tool_calls, index, entry);
    proof {
        assert(pending0.remove(index).insert(index, view) =~= pending0.insert(index, view));
    }
}

/// Takes in a whole tool call of a message.
fn take_message_call(
    tool_call: &Json,
    index: usize,
    pending_tool_calls: &mut BTreeMap<usize, OpenAiStreamingToolCall>,
    events: &mut Vec<RawStreamingChoice>,
)
    ensures
        after_message_call(
            Progress {
                pending: pending::pending_view(old(pending_tool_calls)@),
                events: message::event_views(old(events)@),
            },
            index,
            tool_call@,
        ) == (Progress {
            pending: pending::pending_view(final(pending_tool_calls)@),
            events: message::event_views(final(events)@),
        }),
{
    let ghost events0 = message::event_views(events@);
    let pending_tool_call = pending::take_call(pending_tool_calls, index);
    let fallback_id = match &pending_tool_call {
        Some(call) => if call.id.as_str().is_empty() {
            content::numbered_call_id(index)
        } else {
            call.id.clone()
        },
        None => content::numbered_call_id(index),
    };
    if let Some(call) = content::parse_openai_tool_call(tool_call, fallback_id) {
        let internal_call_id = match pending_tool_call {
            Some(pending_call) => pending_call.internal_call_id,
            None => call.id.clone(),
        };
        let event = RawStreamingChoice::ToolCall(
            RawStreamingToolCall {
                id: call.id,
                internal_call_id,
                call_id: call.call_id,
                name: call.function.name,
                arguments: call.function.arguments,
                signature: call.signature,
                additional_params: call.additional_params,
            },
        );
        proof {
            assert(message::event_views(events@.push(event)) =~= events0.push(event@));
        }
        events.push(event);
    }
}

/// Takes in the `delta` of a choice.
fn take_choice_delta(
    choice: &Json,
    fresh_ids: &Vec<String>,
    pending_tool_calls: &mut BTreeMap<usize, OpenAiStreamingToolCall>,
    events: &mut Vec<RawStreamingChoice>,
)
    requires
        deltas_of(choice@).len() <= fresh_ids@.len(),
    ensures
        after_choice_delta(
            Progress {
                pending: pending::pending_view(old(pending_tool_calls)@),
                events: message::event_views(old(events)@),
            },
            choice@,
            text::views(fresh_ids@),
        ) == (Progress {
            pending: pending::pending_view(final(pending_tool_calls)@),
            events: message::event_views(final(events)@),
        }),
{
    let ghost ids = text::views(fresh_ids@);
    if let Some(delta) = choice.get("delta") {
        push_messages_at(delta, "content", events);
        push_reasonings_at(delta, "reasoning", events);
        push_reasonings_at(delta, "reasoning_content", events);
        let ghost spoken = Progress {
            pending: pending::pending_view(pending_tool_calls@),
            events: message::event_views(events@),
        };
        if let Some(calls) = delta.array_at("tool_calls") {
            let ghost all = json::json_views(calls@);
            let mut i: usize = 0;
            proof {
                assert(all.subrange(0, 0) =~= Seq::<JsonView>::empty());
            }
            while i < calls.len()
                invariant
                    i <= calls@.len(),
                    calls@.len() <= fresh_ids@.len(),
                    all == json::json_views(calls@),
                    ids == text::views(fresh_ids@),
                    after_deltas(spoken, all.subrange(0, i as int), ids) == (Progress {
                        pending: pending::pending_view(pending_tool_calls@),
                        events: message::event_views(events@),
                    }),
                decreases calls@.len() - i,
            {
                proof {
                    let next = all.subrange(0, i as int + 1);
                    assert(next.drop_last() =~= all.subrange(0, i as int));
                    assert(next.last() == calls@[i as int]@);
                }
                take_delta(&calls[i], fresh_ids[i].as_str(), pending_tool_calls, events);
                i += 1;
            }
            proof {
                assert(all.subrange(0, all.len() as int) =~= all);
            }
        }
    }
}

/// Takes in the `message` of a choice.
fn take_choice_message(
    choice: &Json,
    pending_tool_calls: &mut BTreeMap<usize, OpenAiStreamingToolCall>,
    events: &mut Vec<RawStreamingChoice>,
)
    ensures
        after_choice_message(
            Progress {
                pending: pending::pending_view(old(pending_tool_calls)@),
                events: message::event_views(old(events)@),
            },
            choice@,
        ) == (Progress {
            pending: pending::pending_view(final(pending_tool_calls)@),
            events: message::event_views(final(events)@),
        }),
{
    if let Some(message) = choice.get("message") {
        push_messages_at(message, "content", events);
        let ghost spoken = Progress {
            pending: pending::pending_view(pending_tool_calls@),
            events: message::event_views(events@),
        };
        if let Some(calls) = message.array_at("tool_calls") {
            let ghost all = json::json_views(calls@);
            let mut i: usize = 0;
            proof {
                assert(all.subrange(0, 0) =~= Seq::<JsonView>::empty());
            }
            while i < calls.len()
                invariant
                    i <= calls@.len(),
                    all == json::json_views(calls@),
                    after_message_calls(spoken, all.subrange(0, i as int)) == (Progress {
                        pending: pending::pending_view(pending_tool_calls@),
                        events: message::event_views(events@),
                    }),
                decreases calls@.len() - i,
            {
                proof {
                    let next = all.subrange(0, i as int + 1);
                    assert(next.drop_last() =~= all.subrange(0, i as int));
                    assert(next.last() == calls@[i as int]@);
                }
                take_message_call(&calls[i], i, pending_tool_calls, events);
                i += 1;
            }
            proof {
                assert(all.subrange(0, all.len() as int) =~= all);
            }
        }
    }
}

/// Whether the finish reason says that the tool calls are complete.
fn is_tool_call_finish(choice: &Json) -> (yes: bool)
    ensures
        yes == finishes_tool_calls(choice@),
{
    match choice.str_at("finish_reason") {
        Some(reason) => text::same(reason, "tool_calls") || text::same(reason, "function_call"),
        None => false,
    }
}

/// Takes in one choice of an event, with an internal id at hand for each streamed
/// part of a tool call in it.
pub fn process_choice(
    choice: &Json,
    fresh_ids: &Vec<String>,
    pending_tool_calls: &mut BTreeMap<usize, OpenAiStreamingToolCall>,
    events: &mut Vec<RawStreamingChoice>,
) -> (outcome: Result<(), CompletionError>)
    requires
        deltas_of(choice@).len() <= fresh_ids@.len(),
    ensures
        after_choice(
            pending::pending_view(old(pending_tool_calls)@),
            message::event_views(old(events)@),
            choice@,
            text::views(fresh_ids@),
        ) == (Outcome {
            pending: pending::pending_view(final(pending_tool_calls)@),
            events: message::event_views(final(events)@),
            error: match outcome {
                Ok(_) => None,
                Err(error) => Some(error@),
            },
        }),
{
    take_choice_delta(choice, fresh_ids, pending_tool_calls, events);
    take_choice_message(choice, pending_tool_calls, events);
    if is_tool_call_finish(choice) {
        let ghost before = message::event_views(events@);
        match pending::flush_openai_streaming_tool_calls(pending_tool_calls) {
            Ok(more) => {
                let mut more = more;
                let ghost added = more@;
                let ghost had = events@;
                events.append(&mut more);
                proof {
                    assert(events@ =~= had + added);
                    assert(message::event_views(events@) =~= before + message::event_views(added));
                }
            },
            Err(error) => {
                return Err(error);
            },
        }
    }
    Ok(())
}

/// Takes in one event of a stream, with internal ids at hand: for each choice, one
/// for each streamed part of a tool call in it.
pub fn process_event_with_ids(
    event_body: &Json,
    fresh_ids: &Vec<Vec<String>>,
    pending_tool_calls: &mut BTreeMap<usize, OpenAiStreamingToolCall>,
) -> (outcome: Result<Vec<RawStreamingChoice>, CompletionError>)
    requires
        enough_ids(event_body@, id_views(fresh_ids@)),
    ensures
        ({
            let expected = after_event(
                pending::pending_view(old(pending_tool_calls)@),
                event_body@,
                id_views(fresh_ids@),
            );
            &&& pending::pending_view(final(pending_tool_calls)@) == expected.pending
            &&& match outcome {
                Ok(events) => expected.error is None && message::event_views(events@)
                    == expected.events,
                Err(error) => expected.error == Some(error@),
            }
        }),
{
    if let Some(error_body) = event_body.get("error") {
        let message = message_of_error(error_body);
        return Err(
            CompletionError::ProviderError(
                text::concat("OpenAI-compatible streaming error: ", message.as_str()),
            ),
        );
    }
    let ghost pending0 = pending::pending_view(pending_tool_calls@);
    let ghost ids = id_views(fresh_ids@);
    let mut events: Vec<RawStreamingChoice> = Vec::new();
    proof {
        assert(message::event_views(events@) =~= Seq::<StreamEvent>::empty());
    }
    let choices = match event_body.array_at("choices") {
        Some(choices) => choices,
        None => {
            return Ok(events);
        },
    };
    let ghost all = json::json_views(choices@);
    let mut i: usize = 0;
    proof {
        assert(all.subrange(0, 0) =~= Seq::<JsonView>::empty());
    }
    while i < choices.len()
        invariant
            i <= choices@.len(),
            pending0 == pending::pending_view(old(pending_tool_calls)@),
            all == json::json_views(choices@),
            ids == id_views(fresh_ids@),
            event_body@.get("error"@) is None,
            event_body@.items_at("choices"@) == Some(all),
            enough_ids(event_body@, ids),
            after_choices(pending0, all.subrange(0, i as int), ids) == (Outcome {
                pending: pending::pending_view(pending_tool_calls@),
                events: message::event_views(events@),
                error: None,
            }),
        decreases choices@.len() - i,
    {
        proof {
            let next = all.subrange(0, i as int + 1);
            assert(next.drop_last() =~= all.subrange(0, i as int));
            assert(next.last() == choices@[i as int]@);
            assert(choices_of(event_body@) == all);
            assert(deltas_of(choices_of(event_body@)[i as int]).len() <= ids[i as int].len());
            assert(ids[i as int] == text::views(fresh_ids@[i as int]@));
        }
        match process_choice(&choices[i], &fresh_ids[i], pending_tool_calls, &mut events) {
            Ok(_) => {},
            Err(error) => {
                proof {
                    lemma_failed_choice_stays(pending0, all, ids, i as int + 1);
                }
                return Err(error);
            },
        }
        i += 1;
    }
    proof {
        assert(all.subrange(0, all.len() as int) =~= all);
    }
    Ok(events)
}

/// Once a choice has failed, later ones change nothing.
proof fn lemma_failed_choice_stays(
    pending: Map<usize, PendingCall>,
    choices: Seq<JsonView>,
    fresh: Seq<Seq<Seq<char>>>,
    n: int,
)
    requires
        0 <= n <= choices.len(),
        after_choices(pending, choices.subrange(0, n), fresh).error is Some,
    ensures
        after_choices(pending, choices, fresh) == after_choices(
            pending,
            choices.subrange(0, n),
            fresh,
        ),
    decreases choices.len(),
{
    if n == choices.len() {
        assert(choices.subrange(0, n) =~= choices);
    } else {
        assert(choices.drop_last().subrange(0, n) =~= choices.subrange(0, n));
        lemma_failed_choice_stays(pending, choices.drop_last(), fresh, n);
    }
}

// ---------------------------------------------------------------------------
// Laws
// ---------------------------------------------------------------------------

/// A tool call that came whole in a message is not pending any more, and keeps the
/// internal id under which its parts were streamed. So it is not completed a second
/// time.
pub proof fn law_message_call_is_settled(p: Progress, index: usize, call: JsonView)
    ensures
        !after_message_call(p, index, call).pending.contains_key(index),
        after_message_call(p, index, call).events.len() <= p.events.len() + 1,
        p.pending.contains_key(index) && after_message_call(p, index, call).events.len()
            == p.events.len() + 1 ==> (after_message_call(p, index, call).events.last() matches
            StreamEvent::ToolCall { internal_call_id, .. } && internal_call_id
            == p.pending[index].internal_call_id),
{
}

/// No position of a message's tool calls is pending after the message.
pub proof fn law_message_calls_are_settled(p: Progress, calls: Seq<JsonView>, index: usize)
    requires
        calls.len() <= usize::MAX,
        index < calls.len(),
    ensures
        !after_message_calls(p, calls).pending.contains_key(index),
    decreases calls.len(),
{
    if index < calls.len() - 1 {
        law_message_calls_are_settled(p, calls.drop_last(), index);
    }
}

/// A choice that finishes the tool calls leaves none pending, not even where it fails.
pub proof fn law_finish_leaves_nothing_pending(
    pending: Map<usize, PendingCall>,
    events: Seq<StreamEvent>,
    choice: JsonView,
    fresh: Seq<Seq<char>>,
)
    requires
        finishes_tool_calls(choice),
    ensures
        after_choice(pending, events, choice, fresh).pending == Map::<usize, PendingCall>::empty(),
{
}

/// The texts of the message events, in order.
pub open spec fn said(events: Seq<StreamEvent>) -> Seq<Seq<char>>
    decreases events.len(),
{
    if events.len() == 0 {
        Seq::empty()
    } else {
        match events.last() {
            StreamEvent::Message(t) => said(events.drop_last()).push(t),
            _ => said(events.drop_last()),
        }
    }
}

/// What was said first comes first.
pub(crate) proof fn lemma_said_concat(a: Seq<StreamEvent>, b: Seq<StreamEvent>)
    ensures
        said(a + b) == said(a) + said(b),
    decreases b.len(),
{
    if b.len() == 0 {
        assert(a + b =~= a);
        assert(said(a) + said(b) =~= said(a));
    } else {
        assert((a + b).drop_last() =~= a + b.drop_last());
        assert((a + b).last() == b.last());
        lemma_said_concat(a, b.drop_last());
        if let StreamEvent::Message(t) = b.last() {
            assert((said(a) + said(b.drop_last())).push(t) =~= said(a) + said(b.drop_last()).push(
                t,
            ));
        }
    }
}

/// Events that are no messages say nothing.
pub(crate) proof fn lemma_said_nothing(events: Seq<StreamEvent>)
    requires
        forall|i: int| 0 <= i < events.len() ==> !(#[trigger] events[i] is Message),
    ensures
        said(events) == Seq::<Seq<char>>::empty(),
    decreases events.len(),
{
    if events.len() > 0 {
        lemma_said_nothing(events.drop_last());
    }
}

/// Message events say their texts.
proof fn lemma_said_messages(parts: Seq<Seq<char>>)
    ensures
        said(messages(parts)) == parts,
    decreases parts.len(),
{
    if parts.len() > 0 {
        assert(messages(parts).drop_last() =~= messages(parts.drop_last()));
        lemma_said_messages(parts.drop_last());
        assert(parts.drop_last().push(parts.last()) =~= parts);
    } else {
        assert(parts =~= Seq::empty());
    }
}

/// Streamed parts of tool calls say nothing.
proof fn lemma_deltas_say_nothing(p: Progress, calls: Seq<JsonView>, fresh: Seq<Seq<char>>)
    ensures
        said(after_deltas(p, calls, fresh).events) == said(p.events),
    decreases calls.len(),
{
    if calls.len() > 0 {
        let before = after_deltas(p, calls.drop_last(), fresh);
        lemma_deltas_say_nothing(p, calls.drop_last(), fresh);
        let index = pending::delta_index(calls.last());
        let entry = pending::with_delta(
            pending::call_at(before.pending, index, fresh[calls.len() - 1]),
            calls.last(),
        );
        let more = delta_events(calls.last(), entry);
        lemma_said_nothing(more);
        lemma_said_concat(before.events, more);
        assert(said(before.events) + Seq::<Seq<char>>::empty() =~= said(before.events));
    }
}

/// Whole tool calls say nothing.
proof fn lemma_calls_say_nothing(p: Progress, calls: Seq<JsonView>)
    ensures
        said(after_message_calls(p, calls).events) == said(p.events),
    decreases calls.len(),
{
    if calls.len() > 0 {
        let before = after_message_calls(p, calls.drop_last());
        lemma_calls_say_nothing(p, calls.drop_last());
        let now = after_message_calls(p, calls).events;
        if now.len() > before.events.len() {
            assert(now.drop_last() =~= before.events);
        }
    }
}

/// Completed tool calls say nothing.
proof fn lemma_completed_calls_say_nothing(
    pending: Map<usize, PendingCall>,
    keys: Seq<usize>,
)
    ensures
        pending::completed_calls(pending, keys) matches Ok(events) ==> said(events) == Seq::<
            Seq<char>,
        >::empty(),
    decreases keys.len(),
{
    if keys.len() > 0 {
        lemma_completed_calls_say_nothing(pending, keys.drop_last());
        if let Ok(events) = pending::completed_calls(pending, keys.drop_last()) {
            if let Ok(more) = pending::completed_call(keys.last(), pending[keys.last()]) {
                lemma_said_nothing(more);
                lemma_said_concat(events, more);
            }
        }
    }
}

/// What a choice says: the text of its `delta` and of its `message`.
pub open spec fn choice_text(choice: JsonView) -> Seq<Seq<char>> {
    (match choice.get("delta"@) {
        Some(delta) => content::text_content_at(delta, "content"@),
        None => Seq::empty(),
    }) + (match choice.get("message"@) {
        Some(message) => content::text_content_at(message, "content"@),
        None => Seq::empty(),
    })
}

/// The events of a choice say what the choice says, and nothing else.
pub(crate) proof fn lemma_choice_says_its_text(
    pending: Map<usize, PendingCall>,
    events: Seq<StreamEvent>,
    choice: JsonView,
    fresh: Seq<Seq<char>>,
)
    ensures
        said(after_choice(pending, events, choice, fresh).events) == said(events) + choice_text(
            choice,
        ),
{
    let start = Progress { pending, events };
    let one = after_choice_delta(start, choice, fresh);
    let first = match choice.get("delta"@) {
        Some(delta) => content::text_content_at(delta, "content"@),
        None => Seq::empty(),
    };
    let none = Seq::<Seq<char>>::empty();
    if let Some(delta) = choice.get("delta"@) {
        let a = reasonings(content::text_content_at(delta, "reasoning"@));
        let b = reasonings(content::text_content_at(delta, "reasoning_content"@));
        lemma_said_messages(first);
        lemma_said_concat(events, messages(first));
        lemma_said_nothing(a);
        lemma_said_concat(events + messages(first), a);
        lemma_said_nothing(b);
        lemma_said_concat(events + messages(first) + a, b);
        assert(said(events) + first + none =~= said(events) + first);
        let spoken = Progress { pending, events: events + messages(first) + a + b };
        if let Some(calls) = delta.items_at("tool_calls"@) {
            lemma_deltas_say_nothing(spoken, calls, fresh);
        }
    } else {
        assert(said(events) + first =~= said(events));
    }
    assert(said(one.events) == said(events) + first);
    let two = after_choice_message(one, choice);
    let second = match choice.get("message"@) {
        Some(message) => content::text_content_at(message, "content"@),
        None => Seq::empty(),
    };
    if let Some(message) = choice.get("message"@) {
        lemma_said_messages(second);
        lemma_said_concat(one.events, messages(second));
        let spoken = Progress { pending: one.pending, events: one.events + messages(second) };
        if let Some(calls) = message.items_at("tool_calls"@) {
            lemma_calls_say_nothing(spoken, calls);
        }
    } else {
        assert(said(one.events) + second =~= said(one.events));
    }
    assert(said(two.events) == said(one.events) + second);
    assert(said(events) + first + second =~= said(events) + choice_text(choice));
    if finishes_tool_calls(choice) {
        lemma_completed_calls_say_nothing(two.pending, pending::in_order(two.pending.dom()));
        if let Ok(more) = pending::flushed(two.pending) {
            lemma_said_concat(two.events, more);
            assert(said(two.events) + none =~= said(two.events));
        }
    }
}

// ---------------------------------------------------------------------------
// Internal ids
// ---------------------------------------------------------------------------

/// A lower-case hexadecimal digit.
pub open spec fn is_hex(c: char) -> bool {
    '0' <= c <= '9' || 'a' <= c <= 'f'
}

/// The shape of an internal id: 32 hexadecimal digits in groups of 8, 4, 4, 4
/// and 12, with hyphens between.
pub open spec fn is_call_id(id: Seq<char>) -> bool {
    &&& id.len() == 36
    &&& forall|i: int|
        0 <= i < 36 ==> if i == 8 || i == 13 || i == 18 || i == 23 {
            #[trigger] id[i] == '-'
        } else {
            is_hex(id[i])
        }
}

/// All ids have the shape of an internal id.
pub open spec fn are_call_ids(ids: Seq<Seq<Seq<char>>>) -> bool {
    forall|k: int, i: int|
        0 <= k < ids.len() && 0 <= i < ids[k].len() ==> is_call_id(#[trigger] ids[k][i])
}

/// `uuid::Uuid::new_v4` and its display: a random id each time, always 36
/// characters long, lower-case hexadecimal digits with hyphens at the four places.
#[verifier::external_body]
pub(crate) fn fresh_call_id() -> (id: String)
    ensures
        is_call_id(id@),
{
    uuid::Uuid::new_v4().to_string()
}

/// As many fresh ids as asked for.
pub(crate) fn fresh_call_ids(count: usize) -> (ids: Vec<String>)
    ensures
        ids@.len() == count,
        forall|i: int| 0 <= i < count ==> is_call_id(#[trigger] ids@[i]@),
{
    let mut ids: Vec<String> = Vec::new();
    let mut i: usize = 0;
    while i < count
        invariant
            i <= count,
            ids@.len() == i,
            forall|j: int| 0 <= j < i ==> is_call_id(#[trigger] ids@[j]@),
        decreases count - i,
    {
        ids.push(fresh_call_id());
        i += 1;
    }
    ids
}

/// Fresh ids for an event.
fn ids_for_event(event_body: &Json) -> (ids: Vec<Vec<String>>)
    ensures
        enough_ids(event_body@, id_views(ids@)),
        are_call_ids(id_views(ids@)),
{
    let mut ids: Vec<Vec<String>> = Vec::new();
    if let Some(choices) = event_body.array_at("choices") {
        let ghost all = json::json_views(choices@);
        let mut i: usize = 0;
        while i < choices.len()
            invariant
                i <= choices@.len(),
                all == json::json_views(choices@),
                ids@.len() == i,
                forall|k: int|
                    0 <= k < i ==> deltas_of(#[trigger] all[k]).len() <= id_views(ids@)[k].len(),
                are_call_ids(id_views(ids@)),
            decreases choices@.len() - i,
        {
            let count: usize = match choices[i].get("delta") {
                Some(delta) => match delta.array_at("tool_calls") {
                    Some(calls) => calls.len(),
                    None => 0,
                },
                None => 0,
            };
            proof {
                assert(all[i as int] == choices@[i as int]@);
                assert(deltas_of(all[i as int]).len() == count);
            }
            let list = fresh_call_ids(count);
            let ghost before = id_views(ids@);
            ids.push(list);
            proof {
                assert(id_views(ids@) =~= before.push(text::views(list@)));
            }
            i += 1;
        }
    }
    ids
}

/// Takes in one event of a stream: the events it brings, with an internal id of
/// its own for every tool call that begins in it.
pub fn process_openai_chat_stream_event(
    event_body: &Json,
    pending_tool_calls: &mut BTreeMap<usize, OpenAiStreamingToolCall>,
) -> (outcome: Result<Vec<RawStreamingChoice>, CompletionError>)
    ensures
        exists|fresh: Seq<Seq<Seq<char>>>|
            {
                let expected = #[trigger] after_event(
                    pending::pending_view(old(pending_tool_calls)@),
                    event_body@,
                    fresh,
                );
                &&& are_call_ids(fresh)
                &&& enough_ids(event_body@, fresh)
                &&& pending::pending_view(final(pending_tool_calls)@) == expected.pending
                &&& match outcome {
                    Ok(events) => expected.error is None && message::event_views(events@)
                        == expected.events,
                    Err(error) => expected.error == Some(error@),
                }
            },
{
    let ids = ids_for_event(event_body);
    process_event_with_ids(event_body, &ids, pending_tool_calls)
}

} // verus!
