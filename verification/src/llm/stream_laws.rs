//! What a stream yields, by the keys that stand in its events.
use crate::json;
use crate::json::{JsonNumberView, JsonView};
use crate::llm::arguments;
use crate::llm::chat_sse;
use crate::llm::chat_sse::TallyView;
use crate::llm::chat_stream;
use crate::llm::content;
use crate::llm::message::{
    AssistantPart, DeltaPart, ErrorView, ReasoningPart, ResponseView, StreamEvent, ToolCallView,
};
use crate::llm::pending;
use crate::llm::pending::PendingCall;
use crate::llm::replay;
use crate::llm::reply_laws;
use crate::llm::response;
use crate::llm::sse;
use crate::llm::stream_event;
use crate::llm::stream_event::{Outcome, Progress};
use crate::text;
use crate::text_laws;
use vstd::prelude::*;

verus! {

/// Texts as events that say them.
pub open spec fn told(texts: Seq<Seq<char>>) -> Seq<StreamEvent> {
    texts.map_values(|t: Seq<char>| StreamEvent::Message(t))
}

/// Texts as events that think them.
pub open spec fn mused(texts: Seq<Seq<char>>) -> Seq<StreamEvent> {
    texts.map_values(|t: Seq<char>| StreamEvent::ReasoningDelta { id: None, reasoning: t })
}

/// The position that a streamed part of a tool call belongs to: the number under `index`,
/// and the first without one.
pub open spec fn place_of(part: JsonView) -> usize {
    match part.get("index"@) {
        Some(JsonView::Number(JsonNumberView::Unsigned(n))) => n as usize,
        _ => 0,
    }
}

// ---------------------------------------------------------------------------
// Events of a chat stream
// ---------------------------------------------------------------------------

/// An event that reports an error yields nothing but that error, with the provider's
/// message in it, and changes nothing.
pub proof fn law_reported_errors_end_the_stream(
    calls: Map<usize, PendingCall>,
    event: JsonView,
    error: JsonView,
    message: Seq<char>,
    fresh: Seq<Seq<Seq<char>>>,
)
    requires
        event.get("error"@) == Some(error),
        error.get("message"@) == Some(JsonView::Str(message)),
    ensures
        stream_event::after_event(calls, event, fresh) == (Outcome {
            pending: calls,
            events: Seq::empty(),
            error: Some(
                ErrorView::Provider("OpenAI-compatible streaming error: "@ + message),
            ),
        }),
{
}

/// An event without choices yields nothing and changes nothing.
pub proof fn law_events_without_choices_yield_nothing(
    calls: Map<usize, PendingCall>,
    event: JsonView,
    fresh: Seq<Seq<Seq<char>>>,
)
    requires
        event.get("error"@) is None,
        !(reply_laws::held(event, "choices"@) is Array),
    ensures
        stream_event::after_event(calls, event, fresh) == (Outcome {
            pending: calls,
            events: Seq::empty(),
            error: None,
        }),
{
}

/// An event takes in its choices one after the other: what one more choice yields comes
/// behind what the others yielded, and an error ends it.
pub proof fn law_choices_are_taken_in_order(
    calls: Map<usize, PendingCall>,
    event: JsonView,
    choices: Seq<JsonView>,
    choice: JsonView,
    fresh: Seq<Seq<Seq<char>>>,
)
    requires
        event.get("error"@) is None,
        event.get("choices"@) == Some(JsonView::Array(choices.push(choice))),
    ensures
        ({
            let before = stream_event::after_choices(calls, choices, fresh);
            let after = stream_event::after_event(calls, event, fresh);
            &&& before.error is Some ==> after == before
            &&& before.error is None ==> after == stream_event::after_choice(
                before.pending,
                before.events,
                choice,
                fresh[choices.len() as int],
            )
        }),
{
    assert(choices.push(choice).drop_last() =~= choices);
}

/// A streamed choice yields, behind what came before, the texts of its `content`, then
/// those of its `reasoning`, then those of its `reasoning_content`. Where it brings no tool
/// calls and no whole message, and does not finish the tool calls, that is all, and the
/// pending tool calls stay.
pub proof fn law_streamed_texts_are_told(
    calls: Map<usize, PendingCall>,
    events: Seq<StreamEvent>,
    choice: JsonView,
    delta: JsonView,
    fresh: Seq<Seq<char>>,
)
    requires
        choice.get("delta"@) == Some(delta),
        choice.get("message"@) is None,
        !(reply_laws::held(delta, "tool_calls"@) is Array),
        choice.get("finish_reason"@) != Some(JsonView::Str("tool_calls"@)),
        choice.get("finish_reason"@) != Some(JsonView::Str("function_call"@)),
    ensures
        stream_event::after_choice(calls, events, choice, fresh) == (Outcome {
            pending: calls,
            events: events + told(content::text_content(reply_laws::held(delta, "content"@)))
                + mused(content::text_content(reply_laws::held(delta, "reasoning"@))) + mused(
                content::text_content(reply_laws::held(delta, "reasoning_content"@)),
            ),
            error: None,
        }),
{
}

/// A streamed choice with parts of tool calls tells its texts first and takes in the parts
/// then.
pub proof fn law_streamed_parts_follow_the_texts(
    calls: Map<usize, PendingCall>,
    events: Seq<StreamEvent>,
    choice: JsonView,
    delta: JsonView,
    parts: Seq<JsonView>,
    fresh: Seq<Seq<char>>,
)
    requires
        choice.get("delta"@) == Some(delta),
        choice.get("message"@) is None,
        delta.get("tool_calls"@) == Some(JsonView::Array(parts)),
        choice.get("finish_reason"@) != Some(JsonView::Str("tool_calls"@)),
        choice.get("finish_reason"@) != Some(JsonView::Str("function_call"@)),
    ensures
        ({
            let spoken = Progress {
                pending: calls,
                events: events + told(content::text_content(reply_laws::held(delta, "content"@)))
                    + mused(content::text_content(reply_laws::held(delta, "reasoning"@))) + mused(
                    content::text_content(reply_laws::held(delta, "reasoning_content"@)),
                ),
            };
            let read = stream_event::after_deltas(spoken, parts, fresh);
            stream_event::after_choice(calls, events, choice, fresh) == (Outcome {
                pending: read.pending,
                events: read.events,
                error: None,
            })
        }),
{
}

/// One more streamed part of a tool call: the call at its position gets the id and the name
/// that it brings and has its piece of arguments added at the end; a call that was not
/// pending starts empty, with the fresh internal id. No other call changes. A name and a
/// piece of arguments that are not empty are each told, under the ids of the call.
pub proof fn law_a_streamed_part_is_taken_in(
    p: Progress,
    parts: Seq<JsonView>,
    part: JsonView,
    fresh: Seq<Seq<char>>,
)
    ensures
        ({
            let was = stream_event::after_deltas(p, parts, fresh);
            let now = stream_event::after_deltas(p, parts.push(part), fresh);
            let k = place_of(part);
            let function = reply_laws::held(part, "function"@);
            let id = reply_laws::held_text(part, "id"@);
            let name = reply_laws::held_text(function, "name"@);
            let chunk = reply_laws::held_text(function, "arguments"@);
            let had = if was.pending.contains_key(k) {
                was.pending[k]
            } else {
                PendingCall {
                    id: Seq::empty(),
                    internal_call_id: fresh[parts.len() as int],
                    name: Seq::empty(),
                    arguments: Seq::empty(),
                }
            };
            let has = now.pending[k];
            &&& now.pending.contains_key(k)
            &&& forall|other: usize|
                other != k ==> (#[trigger] now.pending.contains_key(other)
                    <==> was.pending.contains_key(other))
            &&& forall|other: usize|
                other != k ==> #[trigger] now.pending[other] == was.pending[other]
            &&& has.id == (if id.len() > 0 {
                id
            } else {
                had.id
            })
            &&& has.name == (if name.len() > 0 {
                name
            } else {
                had.name
            })
            &&& has.arguments == had.arguments + chunk
            &&& has.internal_call_id == had.internal_call_id
            &&& now.events == was.events + (if name.len() > 0 {
                seq![
                    StreamEvent::ToolCallDelta {
                        id: has.id,
                        internal_call_id: has.internal_call_id,
                        content: DeltaPart::Name(name),
                    },
                ]
            } else {
                Seq::empty()
            }) + (if chunk.len() > 0 {
                seq![
                    StreamEvent::ToolCallDelta {
                        id: has.id,
                        internal_call_id: has.internal_call_id,
                        content: DeltaPart::Delta(chunk),
                    },
                ]
            } else {
                Seq::empty()
            })
        }),
{
    assert(parts.push(part).drop_last() =~= parts);
    let was = stream_event::after_deltas(p, parts, fresh);
    let now = stream_event::after_deltas(p, parts.push(part), fresh);
    let k = place_of(part);
    assert(pending::delta_index(part) == k);
    let function = reply_laws::held(part, "function"@);
    let name = reply_laws::held_text(function, "name"@);
    let chunk = reply_laws::held_text(function, "arguments"@);
    let entry = now.pending[k];
    assert(now.events == was.events + stream_event::delta_events(part, entry));
    let names = content::some_text_at(function, "name"@).map_values(
        |n: Seq<char>|
            StreamEvent::ToolCallDelta {
                id: entry.id,
                internal_call_id: entry.internal_call_id,
                content: DeltaPart::Name(n),
            },
    );
    let chunks = content::some_text_at(function, "arguments"@).map_values(
        |c: Seq<char>|
            StreamEvent::ToolCallDelta {
                id: entry.id,
                internal_call_id: entry.internal_call_id,
                content: DeltaPart::Delta(c),
            },
    );
    assert(names =~= if name.len() > 0 {
        seq![
            StreamEvent::ToolCallDelta {
                id: entry.id,
                internal_call_id: entry.internal_call_id,
                content: DeltaPart::Name(name),
            },
        ]
    } else {
        Seq::empty()
    });
    assert(chunks =~= if chunk.len() > 0 {
        seq![
            StreamEvent::ToolCallDelta {
                id: entry.id,
                internal_call_id: entry.internal_call_id,
                content: DeltaPart::Delta(chunk),
            },
        ]
    } else {
        Seq::empty()
    });
    assert(was.events + (names + chunks) =~= was.events + names + chunks);
    let had = pending::call_at(was.pending, k, fresh[parts.len() as int]);
    assert(had.arguments + Seq::<char>::empty() =~= had.arguments);
}

/// The pieces of arguments that a stream brings for one position add up to the arguments of
/// the call there, in order.
pub proof fn law_streamed_arguments_add_up(
    p: Progress,
    parts: Seq<JsonView>,
    chunks: Seq<Seq<char>>,
    k: usize,
    fresh: Seq<Seq<char>>,
)
    requires
        parts.len() == chunks.len(),
        p.pending.contains_key(k),
        forall|i: int|
            0 <= i < parts.len() ==> place_of(#[trigger] parts[i]) == k && reply_laws::held_text(
                reply_laws::held(parts[i], "function"@),
                "arguments"@,
            ) == chunks[i],
    ensures
        stream_event::after_deltas(p, parts, fresh).pending.contains_key(k),
        stream_event::after_deltas(p, parts, fresh).pending[k].arguments == p.pending[k].arguments
            + text::joined(chunks, Seq::empty()),
        stream_event::after_deltas(p, parts, fresh).pending[k].internal_call_id
            == p.pending[k].internal_call_id,
    decreases parts.len(),
{
    if parts.len() == 0 {
        assert(p.pending[k].arguments + Seq::<char>::empty() =~= p.pending[k].arguments);
    } else {
        let fewer = parts.drop_last();
        let less = chunks.drop_last();
        assert forall|i: int| 0 <= i < fewer.len() implies place_of(#[trigger] fewer[i]) == k
            && reply_laws::held_text(
            reply_laws::held(fewer[i], "function"@),
            "arguments"@,
        ) == less[i] by {
            assert(fewer[i] == parts[i]);
        }
        law_streamed_arguments_add_up(p, fewer, less, k, fresh);
        assert(fewer.push(parts.last()) =~= parts);
        assert(place_of(parts[parts.len() - 1]) == k);
        law_a_streamed_part_is_taken_in(p, fewer, parts.last(), fresh);
        assert(p.pending[k].arguments + text::joined(less, Seq::empty()) + chunks.last()
            =~= p.pending[k].arguments + text::joined(chunks, Seq::empty()));
    }
}

/// A choice with a whole message tells the texts of the message, and then its tool calls by
/// position.
pub proof fn law_whole_messages_are_told(
    calls: Map<usize, PendingCall>,
    events: Seq<StreamEvent>,
    choice: JsonView,
    message: JsonView,
    fresh: Seq<Seq<char>>,
)
    requires
        choice.get("delta"@) is None,
        choice.get("message"@) == Some(message),
        choice.get("finish_reason"@) != Some(JsonView::Str("tool_calls"@)),
        choice.get("finish_reason"@) != Some(JsonView::Str("function_call"@)),
    ensures
        ({
            let spoken = Progress {
                pending: calls,
                events: events + told(content::text_content(reply_laws::held(message, "content"@))),
            };
            let read = if reply_laws::held(message, "tool_calls"@) is Array {
                stream_event::after_message_calls(
                    spoken,
                    reply_laws::held(message, "tool_calls"@)->Array_0,
                )
            } else {
                spoken
            };
            stream_event::after_choice(calls, events, choice, fresh) == (Outcome {
                pending: read.pending,
                events: read.events,
                error: None,
            })
        }),
{
}

/// One more whole tool call of a message is told behind what came before, under the
/// internal id that its parts were streamed with, or under its own id where none were. A
/// call without an id gets that of the parts, or one made of its position. Its position is
/// not pending any more; all others stay as they were.
pub proof fn law_a_whole_call_is_told(
    p: Progress,
    calls: Seq<JsonView>,
    call: JsonView,
    read: ToolCallView,
)
    requires
        calls.len() < usize::MAX,
        ({
            let k = calls.len() as usize;
            let was = stream_event::after_message_calls(p, calls).pending;
            content::parsed_tool_call(
                call,
                if was.contains_key(k) && was[k].id.len() > 0 {
                    was[k].id
                } else {
                    "tool_call_"@ + text::decimal(k as nat)
                },
            ) == Some(read)
        }),
    ensures
        ({
            let k = calls.len() as usize;
            let was = stream_event::after_message_calls(p, calls);
            let now = stream_event::after_message_calls(p, calls.push(call));
            &&& now.pending == was.pending.remove(k)
            &&& now.events == was.events.push(
                StreamEvent::ToolCall {
                    internal_call_id: if was.pending.contains_key(k) {
                        was.pending[k].internal_call_id
                    } else {
                        read.id
                    },
                    call: read,
                },
            )
        }),
{
    assert(calls.push(call).drop_last() =~= calls);
}

/// A choice whose finish reason is `tool_calls` or `function_call` completes all tool calls
/// that are pending once it has been read, behind what it says.
pub proof fn law_finished_calls_are_told(
    calls: Map<usize, PendingCall>,
    events: Seq<StreamEvent>,
    choice: JsonView,
    fresh: Seq<Seq<char>>,
)
    requires
        choice.get("delta"@) is None,
        choice.get("message"@) is None,
        choice.get("finish_reason"@) == Some(JsonView::Str("tool_calls"@)) || choice.get(
            "finish_reason"@,
        ) == Some(JsonView::Str("function_call"@)),
    ensures
        ({
            let after = stream_event::after_choice(calls, events, choice, fresh);
            &&& after.pending == Map::<usize, PendingCall>::empty()
            &&& pending::flushed(calls) matches Ok(more) ==> after.error is None && after.events
                == events + more
            &&& pending::flushed(calls) matches Err(error) ==> after.error == Some(error)
                && after.events == events
        }),
{
}

/// A choice that does not finish the tool calls fails in nothing.
pub proof fn law_unfinished_choices_do_not_fail(
    calls: Map<usize, PendingCall>,
    events: Seq<StreamEvent>,
    choice: JsonView,
    fresh: Seq<Seq<char>>,
)
    requires
        choice.get("finish_reason"@) != Some(JsonView::Str("tool_calls"@)),
        choice.get("finish_reason"@) != Some(JsonView::Str("function_call"@)),
    ensures
        stream_event::after_choice(calls, events, choice, fresh).error is None,
{
}

/// The events of a stream are taken in one after the other: what one more event yields
/// comes behind the rest; one that fails yields only its error; after an error nothing
/// more is taken in.
pub proof fn law_events_are_taken_in_order(
    calls: Map<usize, PendingCall>,
    bodies: Seq<JsonView>,
    body: JsonView,
    fresh: Seq<Seq<Seq<Seq<char>>>>,
)
    ensures
        ({
            let before = chat_stream::after_events(calls, bodies, fresh);
            let after = chat_stream::after_events(calls, bodies.push(body), fresh);
            let one = stream_event::after_event(before.pending, body, fresh[bodies.len() as int]);
            &&& before.error is Some ==> after == before
            &&& before.error is None && one.error is None ==> after.events == before.events
                + one.events && after.error is None && after.pending == one.pending
            &&& before.error is None && one.error is Some ==> after.events == before.events
                && after.error == one.error
        }),
{
    assert(bodies.push(body).drop_last() =~= bodies);
}

/// A stream that ends completes the tool calls that are still pending, behind the last
/// events and before the final response.
pub proof fn law_the_end_completes_pending_calls(
    s: chat_stream::StreamView,
    fresh: Seq<Seq<Seq<char>>>,
    part_ids: Seq<Seq<char>>,
)
    requires
        text::is_blank(s.buffer),
    ensures
        ({
            let end = chat_stream::finished(s, fresh, part_ids);
            &&& pending::flushed(s.pending) matches Err(error) ==> end.events == Seq::<
                StreamEvent,
            >::empty() && end.error == Some(error)
            &&& pending::flushed(s.pending) matches Ok(calls) ==> {
                let last = if s.saw_data_event {
                    chat_stream::final_of_events(s.sse, s.label)
                } else {
                    chat_stream::whole_reply(s.raw, s.label, json::parsed(s.raw), part_ids)
                };
                end.events == calls + last.events && end.error == last.error
            }
        }),
{
    if let Ok(calls) = pending::flushed(s.pending) {
        assert(Seq::<StreamEvent>::empty() + calls =~= calls);
    }
}

// ---------------------------------------------------------------------------
// The reply that a stream is put together to
// ---------------------------------------------------------------------------

/// A streamed choice adds its texts and its reasoning behind what came before.
pub proof fn law_a_choice_adds_its_texts(t: TallyView, choice: JsonView)
    ensures
        ({
            let delta = reply_laws::held(choice, "delta"@);
            let message = reply_laws::held(choice, "message"@);
            let now = chat_sse::tally_choice(t, choice);
            &&& now.text == t.text + content::text_content(reply_laws::held(delta, "content"@))
                + content::text_content(reply_laws::held(message, "content"@))
            &&& now.reasoning == t.reasoning + content::text_content(
                reply_laws::held(delta, "reasoning"@),
            ) + content::text_content(reply_laws::held(delta, "reasoning_content"@))
                + content::text_content(reply_laws::held(message, "reasoning"@))
                + content::text_content(reply_laws::held(message, "reasoning_content"@))
            &&& now.usage == t.usage
            &&& now.saw_data_event == t.saw_data_event
        }),
{
    let delta = reply_laws::held(choice, "delta"@);
    let message = reply_laws::held(choice, "message"@);
    let now = chat_sse::tally_choice(t, choice);
    assert(content::text_content(JsonView::Null) =~= Seq::empty());
    assert(now.text =~= t.text + content::text_content(reply_laws::held(delta, "content"@))
        + content::text_content(reply_laws::held(message, "content"@)));
    assert(now.reasoning =~= t.reasoning + content::text_content(
        reply_laws::held(delta, "reasoning"@),
    ) + content::text_content(reply_laws::held(delta, "reasoning_content"@))
        + content::text_content(reply_laws::held(message, "reasoning"@)) + content::text_content(
        reply_laws::held(message, "reasoning_content"@),
    ));
}

/// The first finish reason that is not empty stays.
pub proof fn law_the_first_finish_reason_stays(t: TallyView, choice: JsonView)
    ensures
        t.finish_reason is Some ==> chat_sse::tally_choice(t, choice).finish_reason
            == t.finish_reason,
        t.finish_reason is None ==> chat_sse::tally_choice(t, choice).finish_reason == (
        if reply_laws::held_text(choice, "finish_reason"@).len() > 0 {
            Some(reply_laws::held_text(choice, "finish_reason"@))
        } else {
            None
        }),
{
}

/// The latest usage that is not `null` stays, and an error ends the stream with the
/// provider's message.
pub proof fn law_the_latest_usage_stays(
    t: TallyView,
    event: JsonView,
    message: Seq<char>,
    label: Seq<char>,
)
    ensures
        event.get("error"@) is None && !(reply_laws::held(event, "choices"@) is Array)
            ==> chat_sse::tally_event(t, event, label) == Ok::<TallyView, ErrorView>(
            TallyView {
                usage: if reply_laws::held(event, "usage"@) is Null {
                    t.usage
                } else {
                    Some(reply_laws::held(event, "usage"@))
                },
                ..t
            },
        ),
        event.get("error"@) is Some && event.get("error"@)->0.get("message"@) == Some(
            JsonView::Str(message),
        ) ==> chat_sse::tally_event(t, event, label) == Err::<TallyView, ErrorView>(
            ErrorView::Provider(label + " streaming error: "@ + message),
        ),
{
}

/// One more streamed part of a tool call adds to the call at its position what it brings:
/// an id and a name that are not empty replace what was there, and its piece of arguments
/// goes to the end. No other call changes.
pub proof fn law_a_part_adds_to_its_call(
    calls: Map<usize, PendingCall>,
    parts: Seq<JsonView>,
    part: JsonView,
)
    ensures
        ({
            let was = chat_sse::with_deltas(calls, parts);
            let now = chat_sse::with_deltas(calls, parts.push(part));
            let k = place_of(part);
            let function = reply_laws::held(part, "function"@);
            let id = reply_laws::held_text(part, "id"@);
            let name = reply_laws::held_text(function, "name"@);
            let chunk = reply_laws::held_text(function, "arguments"@);
            let had = if was.contains_key(k) {
                was[k]
            } else {
                PendingCall {
                    id: Seq::empty(),
                    internal_call_id: Seq::empty(),
                    name: Seq::empty(),
                    arguments: Seq::empty(),
                }
            };
            &&& now == was.insert(k, now[k])
            &&& now[k].id == (if id.len() > 0 {
                id
            } else {
                had.id
            })
            &&& now[k].name == (if name.len() > 0 {
                name
            } else {
                had.name
            })
            &&& now[k].arguments == had.arguments + chunk
        }),
{
    assert(parts.push(part).drop_last() =~= parts);
    let was = chat_sse::with_deltas(calls, parts);
    let k = place_of(part);
    assert(pending::delta_index(part) == k);
    let had = pending::call_at(was, k, Seq::empty());
    assert(had.arguments + Seq::<char>::empty() =~= had.arguments);
    let now = chat_sse::with_deltas(calls, parts.push(part));
    assert(now =~= was.insert(k, now[k]));
}

/// One more whole tool call of a message replaces what was streamed for its position: its
/// id and its name where they are not empty, and its arguments where it has any, as their
/// text or as the JSON of the value. No other call changes.
pub proof fn law_a_whole_call_replaces_its_parts(
    calls: Map<usize, PendingCall>,
    said: Seq<JsonView>,
    call: JsonView,
)
    requires
        said.len() < usize::MAX,
    ensures
        ({
            let was = chat_sse::with_message_calls(calls, said);
            let now = chat_sse::with_message_calls(calls, said.push(call));
            let k = said.len() as usize;
            let function = reply_laws::held(call, "function"@);
            let id = reply_laws::held_text(call, "id"@);
            let name = reply_laws::held_text(function, "name"@);
            let had = if was.contains_key(k) {
                was[k]
            } else {
                PendingCall {
                    id: Seq::empty(),
                    internal_call_id: Seq::empty(),
                    name: Seq::empty(),
                    arguments: Seq::empty(),
                }
            };
            &&& now == was.insert(k, now[k])
            &&& now[k].id == (if id.len() > 0 {
                id
            } else {
                had.id
            })
            &&& now[k].name == (if name.len() > 0 {
                name
            } else {
                had.name
            })
            &&& now[k].arguments == (match function.get("arguments"@) {
                Some(JsonView::Str(t)) => t,
                Some(value) => json::printed(value),
                None => had.arguments,
            })
        }),
{
    assert(said.push(call).drop_last() =~= said);
    let was = chat_sse::with_message_calls(calls, said);
    let now = chat_sse::with_message_calls(calls, said.push(call));
    let k = said.len() as usize;
    assert(now =~= was.insert(k, now[k]));
}

/// The tool calls of the reply are those that have a name, in increasing order of position,
/// each with its id, or one made of its position, its name, and the arguments that its text
/// reads as.
pub proof fn law_the_reply_has_every_named_call(calls: Map<usize, PendingCall>, keys: Seq<usize>)
    ensures
        chat_sse::call_values(calls, keys) == keys.filter(
            |k: usize| !text::is_blank(calls[k].name),
        ).map_values(
            |k: usize|
                JsonView::Object(
                    seq![
                        (
                            "id"@,
                            JsonView::Str(
                                if calls[k].id.len() > 0 {
                                    calls[k].id
                                } else {
                                    "tool_call_"@ + text::decimal(k as nat)
                                },
                            ),
                        ),
                        ("type"@, JsonView::Str("function"@)),
                        (
                            "function"@,
                            JsonView::Object(
                                seq![
                                    ("name"@, JsonView::Str(calls[k].name)),
                                    (
                                        "arguments"@,
                                        arguments::arguments_in(
                                            JsonView::Str(calls[k].arguments),
                                        ),
                                    ),
                                ],
                            ),
                        ),
                    ],
                ),
        ),
    decreases keys.len(),
{
    reveal(Seq::filter);
    let named = |k: usize| !text::is_blank(calls[k].name);
    if keys.len() > 0 {
        law_the_reply_has_every_named_call(calls, keys.drop_last());
        let k = keys.last();
        if named(k) {
            let call = calls[k];
            reveal_strlit("id");
            reveal_strlit("type");
            reveal_strlit("function");
            reveal_strlit("name");
            reveal_strlit("arguments");
            assert("id"@.len() == 2);
            assert("type"@.len() == 4);
            assert("function"@.len() == 8);
            assert("name"@.len() == 4);
            assert("arguments"@.len() == 9);
            let read = arguments::arguments_in(JsonView::Str(call.arguments));
            json::lemma_object_of_two("name"@, JsonView::Str(call.name), "arguments"@, read);
            json::lemma_object_of_three(
                "id"@,
                JsonView::Str(
                    if call.id.len() > 0 {
                        call.id
                    } else {
                        "tool_call_"@ + text::decimal(k as nat)
                    },
                ),
                "type"@,
                JsonView::Str("function"@),
                "function"@,
                json::empty_object().with("name"@, JsonView::Str(call.name)).with(
                    "arguments"@,
                    read,
                ),
            );
            assert(keys.filter(named) =~= keys.drop_last().filter(named).push(k));
        } else {
            assert(keys.filter(named) =~= keys.drop_last().filter(named));
        }
    } else {
        assert(keys.filter(named) =~= Seq::empty());
    }
}

/// The reply that a stream is put together to has one choice: the texts as one under
/// `content`, the reasoning as one under `reasoning`, the tool calls under `tool_calls`, the
/// finish reason that came, or one that fits what came, and the usage that came.
pub proof fn law_the_reply_holds_what_was_streamed(
    t: TallyView,
    label: Seq<char>,
    response_text: Seq<char>,
    body: JsonView,
)
    requires
        chat_sse::reply_body(t, label, response_text) == Ok::<JsonView, ErrorView>(body),
    ensures
        ({
            let values = chat_sse::call_values(t.calls, pending::in_order(t.calls.dom()));
            let choices = reply_laws::held(body, "choices"@);
            let choice = choices->Array_0[0];
            let message = reply_laws::held(choice, "message"@);
            &&& choices is Array && choices->Array_0.len() == 1
            &&& reply_laws::held(body, "usage"@) == (if t.usage is Some {
                t.usage->0
            } else {
                JsonView::Object(Seq::empty())
            })
            &&& choice.get("finish_reason"@) == Some(
                JsonView::Str(
                    if t.finish_reason is Some {
                        t.finish_reason->0
                    } else if values.len() > 0 {
                        "tool_calls"@
                    } else {
                        "stop"@
                    },
                ),
            )
            &&& message.get("content"@) == Some(
                if t.text.len() > 0 {
                    JsonView::Str(text::joined(t.text, Seq::empty()))
                } else {
                    JsonView::Null
                },
            )
            &&& message.get("reasoning"@) == (if t.reasoning.len() > 0 {
                Some(JsonView::Str(text::joined(t.reasoning, Seq::empty())))
            } else {
                None
            })
            &&& message.get("tool_calls"@) == (if values.len() > 0 {
                Some(JsonView::Array(values))
            } else {
                None
            })
        }),
{
    reveal_strlit("");
    assert(""@ =~= Seq::<char>::empty());
    reveal_strlit("choices");
    reveal_strlit("usage");
    reveal_strlit("message");
    reveal_strlit("finish_reason");
    reveal_strlit("content");
    reveal_strlit("reasoning");
    reveal_strlit("tool_calls");
    assert("choices"@.len() == 7);
    assert("usage"@.len() == 5);
    assert("message"@.len() == 7);
    assert("finish_reason"@.len() == 13);
    assert("content"@.len() == 7);
    assert("reasoning"@.len() == 9);
    assert("tool_calls"@.len() == 10);
    let values = chat_sse::call_values(t.calls, pending::in_order(t.calls.dom()));
    let choice = body.get("choices"@)->0->Array_0[0];
    let finish = JsonView::Str(
        match t.finish_reason {
            Some(reason) => reason,
            None => if values.len() > 0 {
                "tool_calls"@
            } else {
                "stop"@
            },
        },
    );
    let usage = match t.usage {
        Some(usage) => usage,
        None => json::empty_object(),
    };
    let message = chat_sse::reply_message(t);
    json::lemma_object_of_two("message"@, message, "finish_reason"@, finish);
    let made = json::empty_object().with("message"@, message).with("finish_reason"@, finish);
    json::lemma_object_of_two("choices"@, JsonView::Array(seq![made]), "usage"@, usage);
    let said = if t.text.len() == 0 {
        JsonView::Null
    } else {
        JsonView::Str(text::joined(t.text, ""@))
    };
    let empty = json::empty_object();
    json::lemma_with_then_get(empty, "content"@, said, "reasoning"@);
    json::lemma_with_then_get(empty, "content"@, said, "tool_calls"@);
    let with_text = empty.with("content"@, said);
    let thought = JsonView::Str(text::joined(t.reasoning, ""@));
    json::lemma_with_then_get(with_text, "reasoning"@, thought, "content"@);
    json::lemma_with_then_get(with_text, "reasoning"@, thought, "tool_calls"@);
    let with_reasoning = if t.reasoning.len() == 0 {
        with_text
    } else {
        with_text.with("reasoning"@, thought)
    };
    json::lemma_with_then_get(with_reasoning, "tool_calls"@, JsonView::Array(values), "content"@);
    json::lemma_with_then_get(with_reasoning, "tool_calls"@, JsonView::Array(values), "reasoning"@);
}

// ---------------------------------------------------------------------------
// Whole replies as events
// ---------------------------------------------------------------------------

/// A whole reply is told as events part by part and in order: text unless it is empty, a
/// tool call under its own id or, without one, under the fresh id, and each block of
/// reasoning. Images are not told.
pub proof fn law_every_part_of_a_reply_is_told(
    parts: Seq<AssistantPart>,
    part: AssistantPart,
    fresh: Seq<Seq<char>>,
)
    ensures
        replay::choice_events(parts.push(part), fresh) == replay::choice_events(parts, fresh) + (
        match part {
            AssistantPart::Text(t) => if t.len() > 0 {
                seq![StreamEvent::Message(t)]
            } else {
                Seq::empty()
            },
            AssistantPart::ToolCall(call) => seq![
                StreamEvent::ToolCall {
                    internal_call_id: if call.id.len() > 0 {
                        call.id
                    } else {
                        fresh[parts.len() as int]
                    },
                    call,
                },
            ],
            AssistantPart::Reasoning { id, content: blocks } => blocks.map_values(
                |block: ReasoningPart| StreamEvent::Reasoning { id, content: block },
            ),
            AssistantPart::Image(_) => Seq::empty(),
        }),
{
    assert(parts.push(part).drop_last() =~= parts);
}

/// A whole reply is told as its message id where it has one, its parts, and then the reply
/// itself with its usage.
pub proof fn law_a_whole_reply_is_told(reply: ResponseView, fresh: Seq<Seq<char>>)
    ensures
        reply.message_id is None ==> replay::response_events(reply, fresh) == replay::choice_events(
            reply.choice,
            fresh,
        ).push(StreamEvent::FinalResponse { body: reply.body, usage: Some(reply.usage) }),
        reply.message_id matches Some(id) ==> replay::response_events(reply, fresh) == (seq![
            StreamEvent::MessageId(id),
        ] + replay::choice_events(reply.choice, fresh)).push(
            StreamEvent::FinalResponse { body: reply.body, usage: Some(reply.usage) },
        ),
{
    assert(Seq::<StreamEvent>::empty() + replay::choice_events(reply.choice, fresh)
        =~= replay::choice_events(reply.choice, fresh));
}

// ---------------------------------------------------------------------------
// Blocks of a stream
// ---------------------------------------------------------------------------

/// The data of a line is what follows `data: `, or what follows `data:` without white space
/// before it; a line that does not begin with `data:` has none.
pub proof fn law_data_follows_its_mark(line: Seq<char>, rest: Seq<char>)
    ensures
        line == "data: "@ + rest ==> sse::data_of_line(line) == Some(rest),
        line == "data:"@ + rest && !(rest.len() > 0 && rest[0] == ' ') ==> sse::data_of_line(line)
            == Some(text::trimmed_start(rest)),
        (line.len() < 5 || line.take(5) != "data:"@) ==> sse::data_of_line(line) is None,
{
    reveal_strlit("data: ");
    reveal_strlit("data:");
    assert("data: "@ =~= "data:"@.push(' '));
    if line == "data: "@ + rest {
        assert(line.subrange(0, 6) =~= "data: "@);
        assert(line.subrange(6, line.len() as int) =~= rest);
    }
    if line == "data:"@ + rest && !(rest.len() > 0 && rest[0] == ' ') {
        assert(line.subrange(0, 5) =~= "data:"@);
        assert(line.subrange(5, line.len() as int) =~= rest);
        if line.len() >= 6 {
            assert(line[5] == rest[0]);
            assert(line.subrange(0, 6)[5] != "data: "@[5]);
        }
    }
    if line.len() < 5 || line.take(5) != "data:"@ {
        if line.len() >= 5 {
            assert(line.subrange(0, 5) =~= line.take(5));
        }
        if line.len() >= 6 {
            if line.subrange(0, 6) == "data: "@ {
                assert(line.take(5) =~= "data:"@) by {
                    assert forall|i: int| 0 <= i < 5 implies line.take(5)[i] == "data:"@[i] by {
                        assert(line.subrange(0, 6)[i] == "data: "@[i]);
                    }
                }
            }
        }
    }
}

/// The data of a block's lines stands in their order.
pub proof fn law_data_lines_add_up(a: Seq<Seq<char>>, line: Seq<char>)
    ensures
        sse::data_of_line(line) matches Some(data) ==> sse::data_lines(a.push(line))
            == sse::data_lines(a).push(data),
        sse::data_of_line(line) is None ==> sse::data_lines(a.push(line)) == sse::data_lines(a),
{
    assert(a.push(line).drop_last() =~= a);
}

/// A block carries the data of its data lines, one below the other, and none where it has
/// no such line.
pub proof fn law_a_block_carries_its_data_lines(block: Seq<char>)
    ensures
        sse::payload(block) == (if sse::data_lines(text::lines(block)).len() > 0 {
            Some(text::joined(sse::data_lines(text::lines(block)), "\n"@))
        } else {
            None
        }),
{
    reveal_strlit("\n");
    assert("\n"@ =~= seq!['\n']);
}

/// A block ends at the first empty line: at two line feeds where there are any, and else at
/// two line ends with carriage returns. What follows is left for the next block.
pub proof fn law_blocks_end_at_the_first_empty_line(buffer: Seq<char>, p: int)
    ensures
        0 <= p && p + 2 <= buffer.len() && buffer[p] == '\n' && buffer[p + 1] == '\n' && (forall|
            q: int,
        |
            0 <= q < p ==> !(#[trigger] buffer[q] == '\n' && buffer[q + 1] == '\n'))
            ==> sse::next_block(buffer) == Some((buffer.take(p), buffer.skip(p + 2))),
        !text::has(buffer, seq!['\n', '\n']) && !text::has(buffer, seq!['\r', '\n', '\r', '\n'])
            ==> sse::next_block(buffer) is None,
        !text::has(buffer, seq!['\n', '\n']) && text::position_of(
            buffer,
            seq!['\r', '\n', '\r', '\n'],
        ) == Some(p) ==> sse::next_block(buffer) == Some((buffer.take(p), buffer.skip(p + 4))),
{
    let mark = seq!['\n', '\n'];
    if 0 <= p && p + 2 <= buffer.len() && buffer[p] == '\n' && buffer[p + 1] == '\n' && (forall|
        q: int,
    |
        0 <= q < p ==> !(#[trigger] buffer[q] == '\n' && buffer[q + 1] == '\n')) {
        assert(buffer.subrange(p, p + 2) =~= mark);
        text_laws::law_positions_are_first_occurrences(buffer, mark, p);
        let i = text::position_of(buffer, mark)->0;
        assert(buffer.subrange(i, i + 2)[0] == '\n');
        assert(buffer.subrange(i, i + 2)[1] == '\n');
        assert(buffer[i] == '\n' && buffer[i + 1] == '\n');
        assert(i == p);
        assert(buffer.subrange(0, p) =~= buffer.take(p));
        assert(buffer.subrange(p + 2, buffer.len() as int) =~= buffer.skip(p + 2));
    }
    let other = seq!['\r', '\n', '\r', '\n'];
    text::lemma_position_of(buffer, other);
    if text::position_of(buffer, other) == Some(p) {
        assert(buffer.subrange(0, p) =~= buffer.take(p));
        assert(buffer.subrange(p + 4, buffer.len() as int) =~= buffer.skip(p + 4));
    }
}

/// The data of a stream's text is that of its first block, where it has any, and then that
/// of the rest; behind the last empty line a block is left unless nothing but white space
/// is.
pub proof fn law_payloads_are_those_of_the_blocks(body: Seq<char>)
    ensures
        sse::next_block(body) matches Some((block, rest)) ==> sse::payloads(body) == (
        match sse::payload(block) {
            Some(data) => seq![data],
            None => Seq::empty(),
        }) + sse::payloads(rest),
        sse::next_block(body) is None ==> sse::payloads(body) == (if text::is_blank(body)
            || sse::payload(body) is None {
            Seq::empty()
        } else {
            seq![sse::payload(body)->0]
        }),
{
    sse::law_block_and_rest_are_the_buffer(body);
}

/// A block whose data, without white space around it, reads as JSON brings that event; one
/// without data, with blank data or with the end mark brings none, and neither does one
/// whose data does not read.
pub proof fn law_blocks_bring_their_events(list: Seq<Seq<char>>, block: Seq<char>, data: Seq<char>)
    ensures
        sse::payload(block) is None ==> chat_stream::event_bodies(list.push(block))
            == chat_stream::event_bodies(list),
        sse::payload(block) == Some(data) && (text::is_blank(data) || text::trimmed(data)
            == "[DONE]"@) ==> chat_stream::event_bodies(list.push(block))
            == chat_stream::event_bodies(list),
        sse::payload(block) == Some(data) && !text::is_blank(data) && text::trimmed(data)
            != "[DONE]"@ ==> chat_stream::event_bodies(list.push(block)) == (match json::parsed(
            text::trimmed(data),
        ) {
            Ok(event) => chat_stream::event_bodies(list).push(event),
            Err(_) => chat_stream::event_bodies(list),
        }),
{
    assert(list.push(block).drop_last() =~= list);
}

/// The reply of a stream takes in its data piece by piece, up to the first error: data that
/// reads as JSON adds its event, and all other data adds nothing but that it was there,
/// blank data and the end mark not even that.
pub proof fn law_payloads_are_tallied_in_order(
    payloads: Seq<Seq<char>>,
    data: Seq<char>,
    label: Seq<char>,
    t: TallyView,
)
    requires
        chat_sse::tally_payloads(payloads, label) == Ok::<TallyView, ErrorView>(t),
    ensures
        ({
            let now = chat_sse::tally_payloads(payloads.push(data), label);
            let seen = TallyView { saw_data_event: true, ..t };
            &&& text::is_blank(data) || text::trimmed(data) == "[DONE]"@ ==> now == Ok::<
                TallyView,
                ErrorView,
            >(t)
            &&& !text::is_blank(data) && text::trimmed(data) != "[DONE]"@ ==> now == (
            match json::parsed(text::trimmed(data)) {
                Ok(event) => chat_sse::tally_event(seen, event, label),
                Err(_) => Ok(seen),
            })
        }),
{
    assert(payloads.push(data).drop_last() =~= payloads);
}

/// An event adds its choices to the reply one after the other.
pub proof fn law_choices_are_tallied_in_order(
    t: TallyView,
    event: JsonView,
    choices: Seq<JsonView>,
    choice: JsonView,
    label: Seq<char>,
)
    requires
        event.get("error"@) is None,
        reply_laws::held(event, "usage"@) is Null,
        event.get("choices"@) == Some(JsonView::Array(choices.push(choice))),
    ensures
        chat_sse::tally_event(t, event, label) == Ok::<TallyView, ErrorView>(
            chat_sse::tally_choice(chat_sse::tally_choices(t, choices), choice),
        ),
{
    assert(choices.push(choice).drop_last() =~= choices);
}

/// The parts of tool calls of a streamed choice, and the whole calls of its message, are
/// added to the calls of the reply.
pub proof fn law_a_choice_adds_its_calls(t: TallyView, choice: JsonView)
    ensures
        ({
            let delta = reply_laws::held(choice, "delta"@);
            let message = reply_laws::held(choice, "message"@);
            let streamed = if reply_laws::held(delta, "tool_calls"@) is Array {
                chat_sse::with_deltas(t.calls, reply_laws::held(delta, "tool_calls"@)->Array_0)
            } else {
                t.calls
            };
            chat_sse::tally_choice(t, choice).calls == (if reply_laws::held(
                message,
                "tool_calls"@,
            ) is Array {
                chat_sse::with_message_calls(
                    streamed,
                    reply_laws::held(message, "tool_calls"@)->Array_0,
                )
            } else {
                streamed
            })
        }),
{
}

/// The reply of a stream is made of what its data adds up to; a stream without any data is
/// an error, and so is one that says nothing and calls nothing.
pub proof fn law_streams_that_say_nothing_are_errors(
    response_text: Seq<char>,
    label: Seq<char>,
    t: TallyView,
)
    requires
        chat_sse::tally_payloads(sse::payloads(response_text), label) == Ok::<TallyView, ErrorView>(
            t,
        ),
    ensures
        ({
            let values = chat_sse::call_values(t.calls, pending::in_order(t.calls.dom()));
            chat_sse::chat_reply(response_text, label) is Ok <==> t.saw_data_event && (
            t.text.len() > 0 || t.reasoning.len() > 0 || values.len() > 0)
        }),
{
}

/// A stream that brought events ends with the reply that its blocks are put together to; a
/// reply that came whole is told part by part and then itself; what is neither is an error.
pub proof fn law_streams_end_with_their_reply(
    sse_text: Seq<char>,
    raw: Seq<char>,
    label: Seq<char>,
    body: JsonView,
    reply: ResponseView,
    fresh: Seq<Seq<char>>,
)
    requires
        response::openai_reply(body, label) == Ok::<ResponseView, ErrorView>(reply),
        reply.message_id is None,
    ensures
        chat_sse::chat_reply(sse_text, label) == Ok::<JsonView, ErrorView>(body)
            ==> chat_stream::final_of_events(sse_text, label).error is None
            && chat_stream::final_of_events(sse_text, label).events == seq![
            StreamEvent::FinalResponse { body, usage: Some(reply.usage) },
        ],
        chat_stream::whole_reply(raw, label, Ok(body), fresh).error is None,
        chat_stream::whole_reply(raw, label, Ok(body), fresh).events == replay::choice_events(
            reply.choice,
            fresh,
        ).push(StreamEvent::FinalResponse { body, usage: Some(reply.usage) }),
        forall|reason: Seq<char>| #[trigger]
            chat_stream::whole_reply(raw, label, Err(reason), fresh).error is Some,
{
    let told = replay::choice_events(reply.choice, fresh);
    assert(told + Seq::<StreamEvent>::empty() =~= told);
}

/// There are ids enough for an event where each part of a tool call, of each of its choices,
/// has one.
pub proof fn law_every_part_of_a_call_has_an_id(
    event: JsonView,
    fresh: Seq<Seq<Seq<char>>>,
    choices: Seq<JsonView>,
    k: int,
    delta: JsonView,
    parts: Seq<JsonView>,
)
    requires
        stream_event::enough_ids(event, fresh),
        event.get("choices"@) == Some(JsonView::Array(choices)),
        0 <= k < choices.len(),
        choices[k].get("delta"@) == Some(delta),
        delta.get("tool_calls"@) == Some(JsonView::Array(parts)),
    ensures
        choices.len() <= fresh.len(),
        parts.len() <= fresh[k].len(),
{
    assert(stream_event::choices_of(event) == choices);
    assert(stream_event::deltas_of(stream_event::choices_of(event)[k]) == parts);
}

/// A call id is made of small hexadecimal digits in groups of 8, 4, 4, 4 and 12, with a hyphen
/// between them.
pub proof fn law_call_ids_are_hexadecimal_groups(id: Seq<char>)
    ensures
        stream_event::is_call_id(id) <==> id.len() == 36 && (forall|i: int|
            0 <= i < 36 ==> (#[trigger] id[i] == '-' <==> (i == 8 || i == 13 || i == 18 || i
                == 23)) && (id[i] == '-' || "0123456789abcdef"@.contains(id[i]))),
{
    reveal_strlit("0123456789abcdef");
    let digits = "0123456789abcdef"@;
    assert forall|c: char| digits.contains(c) <==> #[trigger] stream_event::is_hex(c) by {
        if '0' <= c && c <= '9' {
            assert(digits[c as int - '0' as int] == c);
        }
        if 'a' <= c && c <= 'f' {
            assert(digits[10 + c as int - 'a' as int] == c);
        }
    }
}

/// A call without an id of its own is numbered by its position, and two positions never give
/// the same id.
pub proof fn law_calls_are_numbered_by_position(a: nat, b: nat)
    ensures
        content::numbered_call(a as int) == "tool_call_"@ + text::decimal(a),
        a != b ==> content::numbered_call(a as int) != content::numbered_call(b as int),
{
    text_laws::law_decimal_digits_stand_for_their_number(a);
    text_laws::law_decimal_digits_stand_for_their_number(b);
    let head = "tool_call_"@;
    let n = head.len() as int;
    let x = head + text::decimal(a);
    let y = head + text::decimal(b);
    assert(x.subrange(n, x.len() as int) =~= text::decimal(a));
    assert(y.subrange(n, y.len() as int) =~= text::decimal(b));
}

/// A stream has brought data where one of its blocks has, and only there: data other than
/// white space and the end mark.
pub proof fn law_one_block_with_data_is_enough(list: Seq<Seq<char>>, block: Seq<char>)
    ensures
        !chat_stream::has_event_data(Seq::<Seq<char>>::empty()),
        chat_stream::has_event_data(list.push(block)) <==> chat_stream::has_event_data(list) || (
        sse::payload(block) is Some && !text::is_blank(sse::payload(block)->0) && text::trimmed(
            sse::payload(block)->0,
        ) != "[DONE]"@),
{
    assert(list.push(block).drop_last() =~= list);
}

} // verus!
