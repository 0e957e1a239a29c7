//! A whole chat-completions stream put together to the one reply that it
//! describes.
use crate::json;
use crate::json::{Json, JsonView};
use crate::llm::arguments;
use crate::llm::content;
use crate::llm::message;
use crate::llm::message::{CompletionError, ErrorView};
use crate::llm::pending;
use crate::llm::pending::{OpenAiStreamingToolCall, PendingCall};
use crate::llm::response;
use crate::llm::sse;
use crate::llm::stream_event;
use crate::text;
use std::collections::BTreeMap;
use vstd::prelude::*;

verus! {

/// What the events of a stream add up to.
#[derive(Debug, PartialEq, Eq)]
pub struct ChatTally {
    pub text_parts: Vec<String>,
    pub reasoning_parts: Vec<String>,
    pub tool_calls: BTreeMap<usize, OpenAiStreamingToolCall>,
    pub usage: Option<Json>,
    pub finish_reason: Option<String>,
    pub saw_data_event: bool,
}

/// The view of a [`ChatTally`].
#[verifier::ext_equal]
pub struct TallyView {
    pub text: Seq<Seq<char>>,
    pub reasoning: Seq<Seq<char>>,
    pub calls: Map<usize, PendingCall>,
    pub usage: Option<JsonView>,
    pub finish_reason: Option<Seq<char>>,
    pub saw_data_event: bool,
}

impl View for ChatTally {
    type V = TallyView;

    open spec fn view(&self) -> TallyView {
        TallyView {
            text: text::views(self.text_parts@),
            reasoning: text::views(self.reasoning_parts@),
            calls: pending::pending_view(self.tool_calls@),
            usage: json::json_view_of(self.usage),
            finish_reason: text::view_of(self.finish_reason),
            saw_data_event: self.saw_data_event,
        }
    }
}

/// Nothing has come yet.
pub open spec fn empty_tally() -> TallyView {
    TallyView {
        text: Seq::empty(),
        reasoning: Seq::empty(),
        calls: Map::empty(),
        usage: None,
        finish_reason: None,
        saw_data_event: false,
    }
}

/// Streamed parts of tool calls, one after the other.
pub open spec fn with_deltas(
    calls: Map<usize, PendingCall>,
    deltas: Seq<JsonView>,
) -> Map<usize, PendingCall>
    decreases deltas.len(),
{
    if deltas.len() == 0 {
        calls
    } else {
        let before = with_deltas(calls, deltas.drop_last());
        let index = pending::delta_index(deltas.last());
        before.insert(
            index,
            pending::with_delta(pending::call_at(before, index, Seq::empty()), deltas.last()),
        )
    }
}

/// A tool call with what a whole call in a message says of it: an id, a name and
/// arguments each replace what was there. Arguments that are no text stand as
/// their JSON.
pub open spec fn with_message_call(call: PendingCall, said: JsonView) -> PendingCall {
    let function = said.at("function"@);
    PendingCall {
        id: pending::text_or(said, "id"@, call.id),
        internal_call_id: call.internal_call_id,
        name: pending::text_or(function, "name"@, call.name),
        arguments: match function.get("arguments"@) {
            Some(arguments) => match arguments.text() {
                Some(t) => t,
                None => json::printed(arguments),
            },
            None => call.arguments,
        },
    }
}

/// The whole tool calls of a message, by position.
pub open spec fn with_message_calls(
    calls: Map<usize, PendingCall>,
    said: Seq<JsonView>,
) -> Map<usize, PendingCall>
    decreases said.len(),
{
    if said.len() == 0 {
        calls
    } else {
        let before = with_message_calls(calls, said.drop_last());
        let index = (said.len() - 1) as usize;
        before.insert(
            index,
            with_message_call(pending::call_at(before, index, Seq::empty()), said.last()),
        )
    }
}

/// The finish reason that a choice adds: the first that is not empty stays.
pub open spec fn first_finish_reason(had: Option<Seq<char>>, choice: JsonView) -> Option<
    Seq<char>,
> {
    match had {
        Some(reason) => Some(reason),
        None => match choice.text_at("finish_reason"@) {
            Some(reason) => if reason.len() > 0 {
                Some(reason)
            } else {
                None
            },
            None => None,
        },
    }
}

/// The text segments of a part's `content`.
pub open spec fn spoken(part: JsonView) -> Seq<Seq<char>> {
    content::text_content_at(part, "content"@)
}

/// The text segments of a part's reasoning.
pub open spec fn thought(part: JsonView) -> Seq<Seq<char>> {
    content::text_content_at(part, "reasoning"@) + content::text_content_at(
        part,
        "reasoning_content"@,
    )
}

/// The `delta` of a choice added.
pub open spec fn tally_delta(t: TallyView, choice: JsonView) -> TallyView {
    match choice.get("delta"@) {
        Some(delta) => TallyView {
            text: t.text + spoken(delta),
            reasoning: t.reasoning + thought(delta),
            calls: match delta.items_at("tool_calls"@) {
                Some(deltas) => with_deltas(t.calls, deltas),
                None => t.calls,
            },
            ..t
        },
        None => t,
    }
}

/// The `message` of a choice added.
pub open spec fn tally_message(t: TallyView, choice: JsonView) -> TallyView {
    match choice.get("message"@) {
        Some(message) => TallyView {
            text: t.text + spoken(message),
            reasoning: t.reasoning + thought(message),
            calls: match message.items_at("tool_calls"@) {
                Some(said) => with_message_calls(t.calls, said),
                None => t.calls,
            },
            ..t
        },
        None => t,
    }
}

/// One choice added.
pub open spec fn tally_choice(t: TallyView, choice: JsonView) -> TallyView {
    tally_message(
        tally_delta(
            TallyView { finish_reason: first_finish_reason(t.finish_reason, choice), ..t },
            choice,
        ),
        choice,
    )
}

/// Choices added, one after the other.
pub open spec fn tally_choices(t: TallyView, choices: Seq<JsonView>) -> TallyView
    decreases choices.len(),
{
    if choices.len() == 0 {
        t
    } else {
        tally_choice(tally_choices(t, choices.drop_last()), choices.last())
    }
}

/// One event added, where it reports no error: the latest usage stays.
pub open spec fn tally_event(t: TallyView, event: JsonView, label: Seq<char>) -> Result<
    TallyView,
    ErrorView,
> {
    match event.get("error"@) {
        Some(error) => Err(
            ErrorView::Provider(
                label + " streaming error: "@ + stream_event::error_message(error),
            ),
        ),
        None => {
            let counted = TallyView {
                usage: match event.get("usage"@) {
                    Some(usage) => if usage is Null {
                        t.usage
                    } else {
                        Some(usage)
                    },
                    None => t.usage,
                },
                ..t
            };
            match event.items_at("choices"@) {
                Some(choices) => Ok(tally_choices(counted, choices)),
                None => Ok(counted),
            }
        },
    }
}

/// One payload added, from what the reader makes of its text. A payload that
/// carries no event, or one that is no JSON, adds nothing.
pub open spec fn tally_reading(
    t: TallyView,
    data: Seq<char>,
    reading: Result<JsonView, Seq<char>>,
    label: Seq<char>,
) -> Result<TallyView, ErrorView> {
    if sse::is_no_event(data) {
        Ok(t)
    } else {
        let seen = TallyView { saw_data_event: true, ..t };
        match reading {
            Ok(event) => tally_event(seen, event, label),
            Err(_) => Ok(seen),
        }
    }
}

/// One payload added.
pub open spec fn tally_payload(t: TallyView, payload: Seq<char>, label: Seq<char>) -> Result<
    TallyView,
    ErrorView,
> {
    tally_reading(t, text::trimmed(payload), json::parsed(text::trimmed(payload)), label)
}

/// Payloads added, up to the first that reports an error.
pub open spec fn tally_payloads(payloads: Seq<Seq<char>>, label: Seq<char>) -> Result<
    TallyView,
    ErrorView,
>
    decreases payloads.len(),
{
    if payloads.len() == 0 {
        Ok(empty_tally())
    } else {
        match tally_payloads(payloads.drop_last(), label) {
            Ok(t) => tally_payload(t, payloads.last(), label),
            Err(error) => Err(error),
        }
    }
}

/// The JSON of a tool call in the reply. A call whose name is blank has none.
pub open spec fn call_values(calls: Map<usize, PendingCall>, keys: Seq<usize>) -> Seq<JsonView>
    decreases keys.len(),
{
    if keys.len() == 0 {
        Seq::empty()
    } else {
        let before = call_values(calls, keys.drop_last());
        let call = calls[keys.last()];
        if text::is_blank(call.name) {
            before
        } else {
            before.push(call_value(keys.last(), call))
        }
    }
}

/// The JSON of a tool call in the reply.
pub open spec fn call_value(index: usize, call: PendingCall) -> JsonView {
    json::empty_object().with(
        "id"@,
        JsonView::Str(
            if call.id.len() == 0 {
                content::numbered_call(index as int)
            } else {
                call.id
            },
        ),
    ).with("type"@, JsonView::Str("function"@)).with(
        "function"@,
        json::empty_object().with("name"@, JsonView::Str(call.name)).with(
            "arguments"@,
            arguments::arguments_in(JsonView::Str(call.arguments)),
        ),
    )
}

/// The message of the reply.
pub open spec fn reply_message(t: TallyView) -> JsonView {
    let values = call_values(t.calls, pending::in_order(t.calls.dom()));
    let with_text = json::empty_object().with(
        "content"@,
        if t.text.len() == 0 {
            JsonView::Null
        } else {
            JsonView::Str(text::joined(t.text, ""@))
        },
    );
    let with_reasoning = if t.reasoning.len() == 0 {
        with_text
    } else {
        with_text.with("reasoning"@, JsonView::Str(text::joined(t.reasoning, ""@)))
    };
    if values.len() == 0 {
        with_reasoning
    } else {
        with_reasoning.with("tool_calls"@, JsonView::Array(values))
    }
}

/// The reply that a stream describes: an error where no data came, or where
/// neither text nor reasoning nor a tool call did.
pub open spec fn reply_body(t: TallyView, label: Seq<char>, response_text: Seq<char>) -> Result<
    JsonView,
    ErrorView,
> {
    let has_calls = call_values(t.calls, pending::in_order(t.calls.dom())).len() > 0;
    if !t.saw_data_event {
        Err(
            ErrorView::Provider(
                label + " streaming response missing SSE data events. Body: "@ + sse::truncated(
                    response_text,
                ),
            ),
        )
    } else if !has_calls && t.text.len() == 0 && t.reasoning.len() == 0 {
        Err(
            ErrorView::Provider(
                label
                    + " streaming response did not contain message content or tool calls. Body: "@
                    + sse::truncated(response_text),
            ),
        )
    } else {
        let finish_reason = match t.finish_reason {
            Some(reason) => reason,
            None => if has_calls {
                "tool_calls"@
            } else {
                "stop"@
            },
        };
        Ok(
            json::empty_object().with(
                "choices"@,
                JsonView::Array(
                    seq![
                        json::empty_object().with("message"@, reply_message(t)).with(
                            "finish_reason"@,
                            JsonView::Str(finish_reason),
                        ),
                    ],
                ),
            ).with(
                "usage"@,
                match t.usage {
                    Some(usage) => usage,
                    None => json::empty_object(),
                },
            ),
        )
    }
}

/// The reply that a stream's text describes.
pub open spec fn chat_reply(response_text: Seq<char>, label: Seq<char>) -> Result<
    JsonView,
    ErrorView,
> {
    match tally_payloads(sse::payloads(response_text), label) {
        Ok(t) => reply_body(t, label, response_text),
        Err(error) => Err(error),
    }
}

// ---------------------------------------------------------------------------
// Laws
// ---------------------------------------------------------------------------

/// Choices that were taken in without trouble say, as events, what they add to the
/// reply's text.
proof fn lemma_choices_say_what_they_add(
    pending: Map<usize, PendingCall>,
    choices: Seq<JsonView>,
    fresh: Seq<Seq<Seq<char>>>,
    t: TallyView,
)
    requires
        stream_event::after_choices(pending, choices, fresh).error is None,
    ensures
        tally_choices(t, choices).text == t.text + stream_event::said(
            stream_event::after_choices(pending, choices, fresh).events,
        ),
    decreases choices.len(),
{
    if choices.len() == 0 {
        assert(t.text + Seq::<Seq<char>>::empty() =~= t.text);
    } else {
        let before = stream_event::after_choices(pending, choices.drop_last(), fresh);
        assert(before.error is None);
        lemma_choices_say_what_they_add(pending, choices.drop_last(), fresh, t);
        let choice = choices.last();
        stream_event::lemma_choice_says_its_text(
            before.pending,
            before.events,
            choice,
            fresh[choices.len() - 1],
        );
        let had = tally_choices(t, choices.drop_last());
        assert(tally_choice(had, choice).text =~= had.text + stream_event::choice_text(choice));
        assert(t.text + stream_event::said(before.events) + stream_event::choice_text(choice)
            =~= t.text + (stream_event::said(before.events) + stream_event::choice_text(choice)));
    }
}

/// A reply says what its stream said: the texts that an event brings while it arrives
/// are those that it adds to the reply that the whole stream is put together to.
pub proof fn law_reply_says_what_the_stream_said(
    pending: Map<usize, PendingCall>,
    event: JsonView,
    fresh: Seq<Seq<Seq<char>>>,
    t: TallyView,
    label: Seq<char>,
)
    requires
        stream_event::after_event(pending, event, fresh).error is None,
    ensures
        tally_event(t, event, label) matches Ok(sum) && sum.text == t.text + stream_event::said(
            stream_event::after_event(pending, event, fresh).events,
        ),
{
    let counted = TallyView {
        usage: match event.get("usage"@) {
            Some(usage) => if usage is Null {
                t.usage
            } else {
                Some(usage)
            },
            None => t.usage,
        },
        ..t
    };
    match event.items_at("choices"@) {
        Some(choices) => lemma_choices_say_what_they_add(pending, choices, fresh, counted),
        None => {
            assert(t.text + Seq::<Seq<char>>::empty() =~= t.text);
        },
    }
}

/// The texts of a tally are not empty.
spec fn is_filled(t: TallyView) -> bool {
    text::all_filled(t.text) && text::all_filled(t.reasoning)
}

/// The segments of a part are not empty.
proof fn lemma_part_is_filled(part: JsonView)
    ensures
        text::all_filled(spoken(part)),
        text::all_filled(thought(part)),
{
    content::lemma_text_content_at_is_filled(part, "content"@);
    content::lemma_text_content_at_is_filled(part, "reasoning"@);
    content::lemma_text_content_at_is_filled(part, "reasoning_content"@);
    text::lemma_filled_lists(
        content::text_content_at(part, "reasoning"@),
        content::text_content_at(part, "reasoning_content"@),
    );
}

/// A choice adds no empty text.
proof fn lemma_choice_is_filled(t: TallyView, choice: JsonView)
    requires
        is_filled(t),
    ensures
        is_filled(tally_choice(t, choice)),
{
    let started = TallyView {
        finish_reason: first_finish_reason(t.finish_reason, choice),
        ..t
    };
    let told = tally_delta(started, choice);
    if let Some(delta) = choice.get("delta"@) {
        lemma_part_is_filled(delta);
        text::lemma_filled_lists(t.text, spoken(delta));
        text::lemma_filled_lists(t.reasoning, thought(delta));
    }
    if let Some(message) = choice.get("message"@) {
        lemma_part_is_filled(message);
        text::lemma_filled_lists(told.text, spoken(message));
        text::lemma_filled_lists(told.reasoning, thought(message));
    }
}

/// Choices add no empty text.
proof fn lemma_choices_are_filled(t: TallyView, choices: Seq<JsonView>)
    requires
        is_filled(t),
    ensures
        is_filled(tally_choices(t, choices)),
    decreases choices.len(),
{
    if choices.len() > 0 {
        lemma_choices_are_filled(t, choices.drop_last());
        lemma_choice_is_filled(tally_choices(t, choices.drop_last()), choices.last());
    }
}

/// Payloads add no empty text.
proof fn lemma_tally_is_filled(payloads: Seq<Seq<char>>, label: Seq<char>)
    ensures
        tally_payloads(payloads, label) matches Ok(t) ==> is_filled(t),
    decreases payloads.len(),
{
    if payloads.len() > 0 {
        lemma_tally_is_filled(payloads.drop_last(), label);
        if let Ok(t) = tally_payloads(payloads.drop_last(), label) {
            let seen = TallyView { saw_data_event: true, ..t };
            let data = text::trimmed(payloads.last());
            if let Ok(event) = json::parsed(data) {
                let counted = TallyView {
                    usage: match event.get("usage"@) {
                        Some(usage) => if usage is Null {
                            seen.usage
                        } else {
                            Some(usage)
                        },
                        None => seen.usage,
                    },
                    ..seen
                };
                if let Some(choices) = event.items_at("choices"@) {
                    lemma_choices_are_filled(counted, choices);
                }
            }
        }
    }
}

/// A tool call in a reply has a name.
proof fn lemma_call_has_a_name(index: usize, call: PendingCall)
    requires
        !text::is_blank(call.name),
    ensures
        content::tool_name(call_value(index, call)).len() > 0,
{
    reveal_strlit("id");
    reveal_strlit("type");
    reveal_strlit("function");
    reveal_strlit("name");
    reveal_strlit("arguments");
    let arguments = arguments::arguments_in(JsonView::Str(call.arguments));
    let named = json::empty_object().with("name"@, JsonView::Str(call.name));
    json::lemma_with_then_get(json::empty_object(), "name"@, JsonView::Str(call.name), "name"@);
    json::lemma_with_then_get(named, "arguments"@, arguments, "name"@);
    assert("name"@.len() != "arguments"@.len());
    let value = call_value(index, call);
    let typed = json::empty_object().with(
        "id"@,
        JsonView::Str(
            if call.id.len() == 0 {
                content::numbered_call(index as int)
            } else {
                call.id
            },
        ),
    ).with("type"@, JsonView::Str("function"@));
    json::lemma_with_then_get(
        typed,
        "function"@,
        named.with("arguments"@, arguments),
        "function"@,
    );
    assert(value == typed.with("function"@, named.with("arguments"@, arguments)));
}

/// The last tool call of a reply has a name.
proof fn lemma_last_call_has_a_name(calls: Map<usize, PendingCall>, keys: Seq<usize>)
    ensures
        call_values(calls, keys).len() > 0 ==> content::tool_name(
            call_values(calls, keys).last(),
        ).len() > 0,
    decreases keys.len(),
{
    if keys.len() > 0 {
        lemma_last_call_has_a_name(calls, keys.drop_last());
        let call = calls[keys.last()];
        if !text::is_blank(call.name) {
            lemma_call_has_a_name(keys.last(), call);
        }
    }
}

/// What the keys of a reply's message hold.
proof fn lemma_message_holds(t: TallyView)
    ensures
        reply_message(t).get("content"@) == Some(
            if t.text.len() == 0 {
                JsonView::Null
            } else {
                JsonView::Str(text::joined(t.text, ""@))
            },
        ),
        t.reasoning.len() > 0 ==> reply_message(t).get("reasoning"@) == Some(
            JsonView::Str(text::joined(t.reasoning, ""@)),
        ),
        call_values(t.calls, pending::in_order(t.calls.dom())).len() > 0 ==> reply_message(t).get(
            "tool_calls"@,
        ) == Some(JsonView::Array(call_values(t.calls, pending::in_order(t.calls.dom())))),
{
    reveal_strlit("content");
    reveal_strlit("reasoning");
    reveal_strlit("tool_calls");
    assert("content"@.len() == 7 && "reasoning"@.len() == 9 && "tool_calls"@.len() == 10);
    let values = call_values(t.calls, pending::in_order(t.calls.dom()));
    let content = if t.text.len() == 0 {
        JsonView::Null
    } else {
        JsonView::Str(text::joined(t.text, ""@))
    };
    let reasoning = JsonView::Str(text::joined(t.reasoning, ""@));
    let with_text = json::empty_object().with("content"@, content);
    let with_reasoning = if t.reasoning.len() == 0 {
        with_text
    } else {
        with_text.with("reasoning"@, reasoning)
    };
    json::lemma_with_then_get(json::empty_object(), "content"@, content, "content"@);
    json::lemma_with_then_get(with_text, "reasoning"@, reasoning, "content"@);
    json::lemma_with_then_get(with_reasoning, "tool_calls"@, JsonView::Array(values), "content"@);
    json::lemma_with_then_get(
        with_reasoning,
        "tool_calls"@,
        JsonView::Array(values),
        "reasoning"@,
    );
}

/// A message with text, reasoning or a tool call has a part to say.
proof fn lemma_message_says_something(t: TallyView, choice: JsonView)
    requires
        is_filled(t),
        choice.at("message"@) == reply_message(t),
        t.text.len() > 0 || t.reasoning.len() > 0 || call_values(
            t.calls,
            pending::in_order(t.calls.dom()),
        ).len() > 0,
    ensures
        response::choice_parts(choice).len() > 0,
{
    lemma_message_holds(t);
    let message = reply_message(t);
    let values = call_values(t.calls, pending::in_order(t.calls.dom()));
    if t.text.len() > 0 {
        text::lemma_joined_is_filled(t.text, ""@);
        assert(content::text_content_at(message, "content"@).len() == 1);
    } else if values.len() > 0 {
        lemma_last_call_has_a_name(t.calls, pending::in_order(t.calls.dom()));
        assert(message.items_at("tool_calls"@) == Some(values));
        assert(response::call_parts(values).len() > 0);
    } else {
        text::lemma_joined_is_filled(t.reasoning, ""@);
        assert(content::text_content_at(message, "reasoning"@).len() == 1);
        assert(response::reasoning_fallback(message) is Some);
    }
}

/// A stream that is accepted is no empty reply: the reply that it is put together to is
/// read without an error, whatever the provider is called, and says something. The reply
/// is kept as it is, and its total counts the tokens in and out, as far as 64 bits go.
pub proof fn law_an_accepted_stream_is_no_empty_reply(
    response_text: Seq<char>,
    label: Seq<char>,
    other_label: Seq<char>,
    body: JsonView,
)
    requires
        chat_reply(response_text, label) == Ok::<JsonView, ErrorView>(body),
    ensures
        response::openai_reply(body, other_label) matches Ok(reply) && {
            &&& reply.choice.len() > 0
            &&& reply.body == body
            &&& reply.usage.input_tokens + reply.usage.output_tokens <= u64::MAX
                ==> reply.usage.total_tokens == reply.usage.input_tokens
                + reply.usage.output_tokens
        },
{
    let payloads = sse::payloads(response_text);
    lemma_tally_is_filled(payloads, label);
    let t = tally_payloads(payloads, label)->Ok_0;
    reveal_strlit("choices");
    reveal_strlit("usage");
    reveal_strlit("message");
    reveal_strlit("finish_reason");
    assert("choices"@.len() != "usage"@.len());
    assert("message"@.len() != "finish_reason"@.len());
    let choice = body.at("choices"@)->Array_0[0];
    let has_calls = call_values(t.calls, pending::in_order(t.calls.dom())).len() > 0;
    let finish_reason = JsonView::Str(
        match t.finish_reason {
            Some(reason) => reason,
            None => if has_calls {
                "tool_calls"@
            } else {
                "stop"@
            },
        },
    );
    let usage = match t.usage {
        Some(usage) => usage,
        None => json::empty_object(),
    };
    let told = json::empty_object().with("message"@, reply_message(t));
    let made = told.with("finish_reason"@, finish_reason);
    let list = json::empty_object().with("choices"@, JsonView::Array(seq![made]));
    json::lemma_with_then_get(
        json::empty_object(),
        "message"@,
        reply_message(t),
        "message"@,
    );
    json::lemma_with_then_get(told, "finish_reason"@, finish_reason, "message"@);
    json::lemma_with_then_get(
        json::empty_object(),
        "choices"@,
        JsonView::Array(seq![made]),
        "choices"@,
    );
    json::lemma_with_then_get(list, "usage"@, usage, "choices"@);
    assert(body == list.with("usage"@, usage));
    assert(choice == made);
    lemma_message_says_something(t, made);
}

// ---------------------------------------------------------------------------
// Executable functions
// ---------------------------------------------------------------------------

impl ChatTally {
    /// Nothing has come yet.
    pub fn new() -> (tally: ChatTally)
        ensures
            tally@ == empty_tally(),
    {
        let tally = ChatTally {
            text_parts: Vec::new(),
            reasoning_parts: Vec::new(),
            tool_calls: BTreeMap::new(),
            usage: None,
            finish_reason: None,
            saw_data_event: false,
        };
        proof {
            assert(tally@ =~= empty_tally());
        }
        tally
    }

    /// Adds the text and the reasoning of a part.
    fn add_spoken(&mut self, part: &Json)
        ensures
            final(self)@ == (TallyView {
                text: old(self)@.text + spoken(part@),
                reasoning: old(self)@.reasoning + thought(part@),
                ..old(self)@
            }),
    {
        let ghost before = self@;
        content::collect_text_content_at(part, "content", &mut self.text_parts);
        content::collect_text_content_at(part, "reasoning", &mut self.reasoning_parts);
        content::collect_text_content_at(part, "reasoning_content", &mut self.reasoning_parts);
        proof {
            assert(before.reasoning + content::text_content_at(part@, "reasoning"@)
                + content::text_content_at(part@, "reasoning_content"@) =~= before.reasoning
                + thought(part@));
        }
    }

    /// Adds streamed parts of tool calls.
    fn add_deltas(&mut self, deltas: &Vec<Json>)
        ensures
            final(self)@ == (TallyView {
                calls: with_deltas(old(self)@.calls, json::json_views(deltas@)),
                ..old(self)@
            }),
    {
        let ghost before = self@;
        let ghost all = json::json_views(deltas@);
        let mut i: usize = 0;
        proof {
            assert(all.subrange(0, 0) =~= Seq::<JsonView>::empty());
        }
        while i < deltas.len()
            invariant
                i <= deltas@.len(),
                all == json::json_views(deltas@),
                self@ == (TallyView {
                    calls: with_deltas(before.calls, all.subrange(0, i as int)),
                    ..before
                }),
            decreases deltas@.len() - i,
        {
            let ghost held = self@.calls;
            proof {
                let next = all.subrange(0, i as int + 1);
                assert(next.drop_last() =~= all.subrange(0, i as int));
                assert(next.last() == deltas@[i as int]@);
            }
            let index: usize = pending::index_of_delta(&deltas[i]);
            let mut entry = pending::take_call_or_new(&mut self.tool_calls, index, "");
            proof {
                reveal_strlit("");
                assert(""@ =~= Seq::<char>::empty());
            }
            pending::add_delta(&mut entry, &deltas[i]);
            let ghost added = entry@;
            pending::put_call(&mut self.tool_calls, index, entry);
            proof {
                assert(held.remove(index).insert(index, added) =~= held.insert(index, added));
            }
            i += 1;
        }
        proof {
            assert(all.subrange(0, all.len() as int) =~= all);
        }
    }

    /// Adds the whole tool calls of a message.
    fn add_message_calls(&mut self, said: &Vec<Json>)
        ensures
            final(self)@ == (TallyView {
                calls: with_message_calls(old(self)@.calls, json::json_views(said@)),
                ..old(self)@
            }),
    {
        let ghost before = self@;
        let ghost all = json::json_views(said@);
        let mut i: usize = 0;
        proof {
            assert(all.subrange(0, 0) =~= Seq::<JsonView>::empty());
        }
        while i < said.len()
            invariant
                i <= said@.len(),
                all == json::json_views(said@),
                self@ == (TallyView {
                    calls: with_message_calls(before.calls, all.subrange(0, i as int)),
                    ..before
                }),
            decreases said@.len() - i,
        {
            let ghost held = self@.calls;
            proof {
                let next = all.subrange(0, i as int + 1);
                assert(next.drop_last() =~= all.subrange(0, i as int));
                assert(next.last() == said@[i as int]@);
                reveal_strlit("");
                assert(""@ =~= Seq::<char>::empty());
            }
            let mut entry = pending::take_call_or_new(&mut self.tool_calls, i, "");
            say_call(&mut entry, &said[i]);
            let ghost added = entry@;
            pending::put_call(&mut self.tool_calls, i, entry);
            proof {
                assert(held.remove(i).insert(i, added) =~= held.insert(i, added));
            }
            i += 1;
        }
        proof {
            assert(all.subrange(0, all.len() as int) =~= all);
        }
    }

    /// Adds one choice.
    fn add_choice(&mut self, choice: &Json)
        ensures
            final(self)@ == tally_choice(old(self)@, choice@),
    {
        if self.finish_reason.is_none() {
            if let Some(reason) = choice.str_at("finish_reason") {
                if !reason.is_empty() {
                    self.finish_reason = Some(reason.to_owned());
                }
            }
        }
        proof {
            assert(self@ =~= (TallyView {
                finish_reason: first_finish_reason(old(self)@.finish_reason, choice@),
                ..old(self)@
            }));
        }
        if let Some(delta) = choice.get("delta") {
            self.add_spoken(delta);
            if let Some(deltas) = delta.array_at("tool_calls") {
                self.add_deltas(deltas);
            }
        }
        if let Some(message) = choice.get("message") {
            self.add_spoken(message);
            if let Some(said) = message.array_at("tool_calls") {
                self.add_message_calls(said);
            }
        }
    }

    /// Adds one event.
    pub fn add_event(&mut self, event_body: &Json, provider_label: &str) -> (outcome: Result<
        (),
        CompletionError,
    >)
        ensures
            match outcome {
                Ok(_) => tally_event(old(self)@, event_body@, provider_label@) == Ok::<
                    TallyView,
                    ErrorView,
                >(final(self)@),
                Err(error) => tally_event(old(self)@, event_body@, provider_label@) == Err::<
                    TallyView,
                    ErrorView,
                >(error@) && final(self)@ == old(self)@,
            },
    {
        if let Some(error_body) = event_body.get("error") {
            let said = stream_event::message_of_error(error_body);
            return Err(
                CompletionError::ProviderError(
                    provider_label.to_owned().concat(" streaming error: ").concat(said.as_str()),
                ),
            );
        }
        if let Some(chunk_usage) = event_body.get("usage") {
            if !chunk_usage.is_null() {
                self.usage = Some(chunk_usage.duplicate());
            }
        }
        let ghost counted = self@;
        if let Some(choices) = event_body.array_at("choices") {
            let ghost all = json::json_views(choices@);
            let mut i: usize = 0;
            proof {
                assert(all.subrange(0, 0) =~= Seq::<JsonView>::empty());
            }
            while i < choices.len()
                invariant
                    i <= choices@.len(),
                    all == json::json_views(choices@),
                    self@ == tally_choices(counted, all.subrange(0, i as int)),
                decreases choices@.len() - i,
            {
                proof {
                    let next = all.subrange(0, i as int + 1);
                    assert(next.drop_last() =~= all.subrange(0, i as int));
                    assert(next.last() == choices@[i as int]@);
                }
                self.add_choice(&choices[i]);
                i += 1;
            }
            proof {
                assert(all.subrange(0, all.len() as int) =~= all);
            }
        }
        Ok(())
    }

    /// Adds one payload, from what the reader made of its text.
    pub fn add_reading(
        &mut self,
        data: &str,
        reading: Result<Json, String>,
        provider_label: &str,
    ) -> (outcome: Result<(), CompletionError>)
        ensures
            match outcome {
                Ok(_) => tally_reading(
                    old(self)@,
                    data@,
                    arguments::reading_view(reading),
                    provider_label@,
                ) == Ok::<TallyView, ErrorView>(final(self)@),
                Err(error) => tally_reading(
                    old(self)@,
                    data@,
                    arguments::reading_view(reading),
                    provider_label@,
                ) == Err::<TallyView, ErrorView>(error@) && final(self)@ == (TallyView {
                    saw_data_event: true,
                    ..old(self)@
                }),
            },
    {
        if is_no_event_text(data) {
            return Ok(());
        }
        self.saw_data_event = true;
        match reading {
            Ok(event_body) => self.add_event(&event_body, provider_label),
            Err(_) => Ok(()),
        }
    }

    /// The message of the reply and whether it holds tool calls.
    fn into_reply(self, provider_label: &str, response_text: &str) -> (reply: Result<
        Json,
        CompletionError,
    >)
        ensures
            message::json_result(reply) == reply_body(self@, provider_label@, response_text@),
    {
        let ghost t = self@;
        if !self.saw_data_event {
            let body = sse::truncate_body(response_text);
            return Err(
                CompletionError::ProviderError(
                    provider_label.to_owned().concat(
                        " streaming response missing SSE data events. Body: ",
                    ).concat(body.as_str()),
                ),
            );
        }
        let values = values_of_calls(self.tool_calls);
        let ghost call_list = json::json_views(values@);
        let has_calls = !values.is_empty();
        let has_text = !self.text_parts.is_empty();
        let has_reasoning = !self.reasoning_parts.is_empty();
        if !has_calls && !has_text && !has_reasoning {
            let body = sse::truncate_body(response_text);
            return Err(
                CompletionError::ProviderError(
                    provider_label.to_owned().concat(
                        " streaming response did not contain message content or tool calls. Body: ",
                    ).concat(body.as_str()),
                ),
            );
        }
        let content_value = if has_text {
            Json::Str(text::join(&self.text_parts, ""))
        } else {
            Json::Null
        };
        let mut message = Json::object().with("content", content_value);
        if has_reasoning {
            message = message.with("reasoning", Json::Str(text::join(&self.reasoning_parts, "")));
        }
        if has_calls {
            message = message.with("tool_calls", Json::array(values));
        }
        proof {
            assert(message@ == reply_message(t));
        }
        let finish_reason = match self.finish_reason {
            Some(reason) => reason,
            None => if has_calls {
                "tool_calls".to_owned()
            } else {
                "stop".to_owned()
            },
        };
        let usage = match self.usage {
            Some(usage) => usage,
            None => Json::object(),
        };
        let choice = Json::object().with("message", message).with(
            "finish_reason",
            Json::Str(finish_reason),
        );
        let mut choices: Vec<Json> = Vec::new();
        choices.push(choice);
        proof {
            assert(json::json_views(choices@) =~= seq![choice@]);
        }
        Ok(Json::object().with("choices", Json::array(choices)).with("usage", usage))
    }
}

/// Whether a payload carries no event.
pub fn is_no_event_text(data: &str) -> (yes: bool)
    ensures
        yes == sse::is_no_event(data@),
{
    data.is_empty() || text::same(data, "[DONE]")
}

/// Puts what a whole call in a message says into a tool call.
fn say_call(entry: &mut OpenAiStreamingToolCall, said: &Json)
    ensures
        final(entry)@ == with_message_call(old(entry)@, said@),
{
    pending::set_text(&mut entry.id, said, "id");
    let function = said.at("function");
    pending::set_text(&mut entry.name, function, "name");
    if let Some(arguments) = function.get("arguments") {
        entry.arguments = match arguments.as_str() {
            Some(t) => t.to_owned(),
            None => arguments.to_text(),
        };
    }
}

/// The JSON of the tool calls in the reply, by position.
fn values_of_calls(calls: BTreeMap<usize, OpenAiStreamingToolCall>) -> (values: Vec<Json>)
    ensures
        json::json_views(values@) == call_values(
            pending::pending_view(calls@),
            pending::in_order(pending::pending_view(calls@).dom()),
        ),
{
    let ghost all = pending::pending_view(calls@);
    let keys = pending::positions(&calls);
    let mut taken = calls;
    let mut values: Vec<Json> = Vec::new();
    let mut i: usize = 0;
    proof {
        assert(all.dom() =~= taken@.dom());
        assert(json::json_views(values@) =~= Seq::<JsonView>::empty());
        assert(keys@.subrange(0, 0) =~= Seq::<usize>::empty());
        assert forall|j: int| 0 <= j < keys@.len() implies pending::pending_view(
            taken@,
        ).contains_key(#[trigger] keys@[j]) by {
            assert(keys@.to_set().contains(keys@[j]));
        }
    }
    while i < keys.len()
        invariant
            i <= keys@.len(),
            pending::is_increasing(keys@),
            forall|j: int|
                i <= j < keys@.len() ==> pending::pending_view(taken@).contains_key(
                    #[trigger] keys@[j],
                ) && pending::pending_view(taken@)[keys@[j]] == all[keys@[j]],
            json::json_views(values@) == call_values(all, keys@.subrange(0, i as int)),
        decreases keys@.len() - i,
    {
        let index: usize = keys[i];
        let ghost before = json::json_views(values@);
        proof {
            let next = keys@.subrange(0, i as int + 1);
            assert(next.drop_last() =~= keys@.subrange(0, i as int));
            assert(next.last() == index);
        }
        if let Some(call) = pending::take_call(&mut taken, index) {
            if !text::is_blank_text(call.name.as_str()) {
                let id = if call.id.as_str().is_empty() {
                    content::numbered_call_id(index)
                } else {
                    call.id
                };
                let field = Json::Str(call.arguments);
                let arguments = arguments::parse_openai_tool_arguments(&field);
                let function = Json::object().with("name", Json::Str(call.name)).with(
                    "arguments",
                    arguments,
                );
                let value = Json::object().with("id", Json::Str(id)).with(
                    "type",
                    Json::string("function"),
                ).with("function", function);
                proof {
                    assert(json::json_views(values@.push(value)) =~= before.push(value@));
                }
                values.push(value);
            }
        }
        i += 1;
    }
    proof {
        assert(keys@.subrange(0, keys@.len() as int) =~= keys@);
    }
    values
}

/// Puts a whole chat-completions stream together to the reply that it describes.
pub fn parse_openai_chat_sse_response(response_text: &str, provider_label: &str) -> (reply: Result<
    Json,
    CompletionError,
>)
    ensures
        message::json_result(reply) == chat_reply(response_text@, provider_label@),
{
    let list = sse::sse_payloads(response_text);
    let ghost all = text::views(list@);
    let mut tally = ChatTally::new();
    let mut i: usize = 0;
    proof {
        assert(all.subrange(0, 0) =~= Seq::<Seq<char>>::empty());
    }
    while i < list.len()
        invariant
            i <= list@.len(),
            all == text::views(list@),
            all == sse::payloads(response_text@),
            tally_payloads(all.subrange(0, i as int), provider_label@) == Ok::<
                TallyView,
                ErrorView,
            >(tally@),
        decreases list@.len() - i,
    {
        proof {
            let next = all.subrange(0, i as int + 1);
            assert(next.drop_last() =~= all.subrange(0, i as int));
            assert(next.last() == list@[i as int]@);
        }
        let data = text::trim(list[i].as_str());
        let reading = Json::parse(data.as_str());
        match tally.add_reading(data.as_str(), reading, provider_label) {
            Ok(_) => {},
            Err(error) => {
                proof {
                    lemma_failed_payload_stays(all, provider_label@, i as int + 1);
                }
                return Err(error);
            },
        }
        i += 1;
    }
    proof {
        assert(all.subrange(0, all.len() as int) =~= all);
    }
    tally.into_reply(provider_label, response_text)
}

/// Once a payload has reported an error, later ones change nothing.
proof fn lemma_failed_payload_stays(payloads: Seq<Seq<char>>, label: Seq<char>, n: int)
    requires
        0 <= n <= payloads.len(),
        tally_payloads(payloads.subrange(0, n), label) is Err,
    ensures
        tally_payloads(payloads, label) == tally_payloads(payloads.subrange(0, n), label),
    decreases payloads.len(),
{
    if n == payloads.len() {
        assert(payloads.subrange(0, n) =~= payloads);
    } else {
        assert(payloads.drop_last().subrange(0, n) =~= payloads.subrange(0, n));
        lemma_failed_payload_stays(payloads.drop_last(), label, n);
    }
}

} // verus!
