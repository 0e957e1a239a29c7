//! What is read out of a provider's reply, by the keys that stand in it.
use crate::json;
use crate::json::{JsonNumberView, JsonView};
use crate::llm::api_error;
use crate::llm::arguments;
use crate::llm::content;
use crate::llm::convert;
use crate::llm::convert_laws;
use crate::llm::message::{
    AssistantContent, AssistantPart, CompletionResponse, ErrorView, MessageView, ResponseView,
    ToolCallView,
};
use crate::llm::reply;
use crate::llm::response;
use crate::llm::responses_api;
use crate::llm::sse;
use crate::text;
use vstd::prelude::*;

verus! {

/// A tool call with an id, a name and arguments, and nothing else.
pub open spec fn plain_call(id: Seq<char>, name: Seq<char>, arguments: JsonView) -> ToolCallView {
    ToolCallView {
        id,
        call_id: None,
        name,
        arguments,
        signature: None,
        additional_params: None,
    }
}

/// The text that a key holds, and nothing where it holds none.
pub open spec fn held_text(value: JsonView, key: Seq<char>) -> Seq<char> {
    if value.get(key) is Some && value.get(key)->0 is Str {
        value.get(key)->0->Str_0
    } else {
        Seq::empty()
    }
}

/// The count that a key holds, and zero where it holds none.
pub open spec fn held_count(value: JsonView, key: Seq<char>) -> u64 {
    match value.get(key) {
        Some(JsonView::Number(JsonNumberView::Unsigned(n))) => n,
        _ => 0,
    }
}

/// What a key holds, or `Null`.
pub open spec fn held(value: JsonView, key: Seq<char>) -> JsonView {
    if value.get(key) is Some {
        value.get(key)->0
    } else {
        JsonView::Null
    }
}

// ---------------------------------------------------------------------------
// Anthropic
// ---------------------------------------------------------------------------

/// The parts of an Anthropic reply are those of its blocks, one behind the other.
pub proof fn law_anthropic_blocks_add_up(a: Seq<JsonView>, b: Seq<JsonView>)
    ensures
        response::anthropic_blocks(a + b) == response::anthropic_blocks(a)
            + response::anthropic_blocks(b),
    decreases b.len(),
{
    if b.len() == 0 {
        assert(a + b =~= a);
    } else {
        law_anthropic_blocks_add_up(a, b.drop_last());
        assert((a + b).drop_last() =~= a + b.drop_last());
        assert(response::anthropic_blocks(a + b) =~= response::anthropic_blocks(a)
            + response::anthropic_blocks(b));
    }
}

/// A block of an Anthropic reply stands for one part at its place: one of type `text` for
/// its text unless that is blank, and one of type `tool_use` for a tool call with the id
/// and the name that it holds, the latter without white space around it, and with what
/// stands under `input` as its arguments. A block of another type stands for nothing.
pub proof fn law_anthropic_blocks_are_read_in_order(blocks: Seq<JsonView>, i: int)
    requires
        0 <= i < blocks.len(),
    ensures
        response::anthropic_blocks(blocks) == response::anthropic_blocks(blocks.take(i)) + (
        if blocks[i].get("type"@) == Some(JsonView::Str("text"@)) {
            if text::is_blank(held_text(blocks[i], "text"@)) {
                Seq::empty()
            } else {
                seq![AssistantPart::Text(held_text(blocks[i], "text"@))]
            }
        } else if blocks[i].get("type"@) == Some(JsonView::Str("tool_use"@)) {
            seq![
                AssistantPart::ToolCall(
                    plain_call(
                        held_text(blocks[i], "id"@),
                        text::trimmed(held_text(blocks[i], "name"@)),
                        held(blocks[i], "input"@),
                    ),
                ),
            ]
        } else {
            Seq::empty()
        }) + response::anthropic_blocks(blocks.skip(i + 1)),
{
    let one = seq![blocks[i]];
    assert(blocks =~= blocks.take(i) + one + blocks.skip(i + 1));
    law_anthropic_blocks_add_up(blocks.take(i) + one, blocks.skip(i + 1));
    law_anthropic_blocks_add_up(blocks.take(i), one);
    assert(one.drop_last() =~= Seq::empty());
    reveal_with_fuel(response::anthropic_blocks, 2);
    assert(response::anthropic_blocks(one) =~= response::anthropic_block(blocks[i]));
    reveal_strlit("text");
    reveal_strlit("tool_use");
    assert("text"@.len() != "tool_use"@.len());
}

/// An Anthropic reply with parts is read as those parts, with its counts of tokens: those
/// of the input, of the output, their sum where it fits, and those read from the cache.
pub proof fn law_anthropic_replies_are_read(body: JsonView, blocks: Seq<JsonView>)
    requires
        body.get("content"@) == Some(JsonView::Array(blocks)),
        response::anthropic_blocks(blocks).len() > 0,
    ensures
        response::anthropic_reply(body) matches Ok(reply) && {
            let usage = held(body, "usage"@);
            let read = held_count(usage, "input_tokens"@);
            let written = held_count(usage, "output_tokens"@);
            &&& reply.choice == response::anthropic_blocks(blocks)
            &&& reply.body == body
            &&& reply.message_id is None
            &&& reply.usage.input_tokens == read
            &&& reply.usage.output_tokens == written
            &&& read + written <= u64::MAX ==> reply.usage.total_tokens == read + written
            &&& reply.usage.cached_input_tokens == held_count(usage, "cache_read_input_tokens"@)
        },
{
}

/// An Anthropic reply without parts is one blank of text where it ends the turn, and an
/// error where it stops for any other reason; without a list of content it is an error.
pub proof fn law_empty_anthropic_replies(body: JsonView)
    ensures
        !(held(body, "content"@) is Array) ==> response::anthropic_reply(body) is Err,
        held(body, "content"@) matches JsonView::Array(blocks) && response::anthropic_blocks(
            blocks,
        ).len() == 0 ==> (response::anthropic_reply(body) is Ok <==> body.get("stop_reason"@)
            == Some(JsonView::Str("end_turn"@))),
        held(body, "content"@) matches JsonView::Array(blocks) && response::anthropic_blocks(
            blocks,
        ).len() == 0 && response::anthropic_reply(body) is Ok ==> response::anthropic_reply(
            body,
        )->Ok_0.choice == seq![AssistantPart::Text(seq![' '])],
{
    reveal_strlit(" ");
    reveal_strlit("unknown");
    reveal_strlit("end_turn");
    assert(" "@ =~= seq![' ']);
    assert("unknown"@.len() != "end_turn"@.len());
}

/// An Anthropic reply whose only block is of type `tool_use`, with texts under `id` and
/// `name` and any value under `input`, is read as one tool call with that id, that name
/// without white space around it, and that very value as its arguments.
pub proof fn law_a_tool_use_is_read_as_the_call(
    body: JsonView,
    block: JsonView,
    id: Seq<char>,
    name: Seq<char>,
    input: JsonView,
)
    requires
        body.get("content"@) == Some(JsonView::Array(seq![block])),
        block.get("type"@) == Some(JsonView::Str("tool_use"@)),
        block.get("id"@) == Some(JsonView::Str(id)),
        block.get("name"@) == Some(JsonView::Str(name)),
        block.get("input"@) == Some(input),
    ensures
        response::anthropic_reply(body) matches Ok(reply) && reply.choice == seq![
            AssistantPart::ToolCall(plain_call(id, text::trimmed(name), input)),
        ],
        text::trimmed(name) == name ==> response::anthropic_reply(body)->Ok_0.choice == seq![
            AssistantPart::ToolCall(plain_call(id, name, input)),
        ],
{
    let blocks = seq![block];
    law_anthropic_blocks_are_read_in_order(blocks, 0);
    assert(blocks.take(0) =~= Seq::empty());
    assert(blocks.skip(1) =~= Seq::empty());
    reveal_strlit("text");
    reveal_strlit("tool_use");
    assert("text"@.len() != "tool_use"@.len());
    assert(response::anthropic_blocks(blocks) =~= seq![
        AssistantPart::ToolCall(plain_call(id, text::trimmed(name), input)),
    ]);
    law_anthropic_replies_are_read(body, blocks);
}

/// A part that Anthropic gives back as it got it: text that is not blank, or a tool call
/// whose name has no white space around it and that has nothing that Anthropic does not
/// carry.
pub open spec fn is_kept_by_anthropic(part: AssistantPart) -> bool {
    match part {
        AssistantPart::Text(t) => !text::is_blank(t),
        AssistantPart::ToolCall(call) => text::trimmed(call.name) == call.name && call
            == plain_call(call.id, call.name, call.arguments),
        _ => false,
    }
}

/// What was converted for Anthropic and is read back is the same: the parts of a message of
/// text that is not blank and of tool calls come back as they were, every one of them and
/// in order.
pub proof fn law_parts_survive_a_round_through_anthropic(parts: Seq<AssistantPart>)
    requires
        forall|i: int| 0 <= i < parts.len() ==> is_kept_by_anthropic(#[trigger] parts[i]),
    ensures
        response::anthropic_blocks(convert::anthropic_assistant_parts(parts)) == parts,
    decreases parts.len(),
{
    if parts.len() > 0 {
        let rest = parts.drop_last();
        assert forall|i: int| 0 <= i < rest.len() implies is_kept_by_anthropic(
            #[trigger] rest[i],
        ) by {
            assert(rest[i] == parts[i]);
        }
        law_parts_survive_a_round_through_anthropic(rest);
        let last = parts.last();
        assert(is_kept_by_anthropic(parts[parts.len() - 1]));
        let more = convert::anthropic_assistant_part(last);
        law_anthropic_blocks_add_up(convert::anthropic_assistant_parts(rest), more);
        reveal_strlit("text");
        reveal_strlit("tool_use");
        reveal_strlit("type");
        assert("text"@.len() != "tool_use"@.len());
        match last {
            AssistantPart::Text(t) => {
                assert("type"@[1] == 'y');
                assert("text"@[1] == 'e');
                json::lemma_object_of_two(
                    "type"@,
                    JsonView::Str("text"@),
                    "text"@,
                    JsonView::Str(t),
                );
            },
            AssistantPart::ToolCall(call) => {
                convert_laws::lemma_tool_use(call);
            },
            _ => {},
        }
        assert(more.len() == 1);
        law_anthropic_blocks_are_read_in_order(more, 0);
        assert(more.take(0) =~= Seq::empty());
        assert(more.skip(1) =~= Seq::empty());
        assert(response::anthropic_blocks(more) =~= seq![last]);
        assert(rest + seq![last] =~= parts);
    }
}

/// A tool call that was converted for Anthropic and comes back as a reply is the same call:
/// its id, its name and its arguments.
pub proof fn law_a_call_survives_a_round_through_anthropic(
    body: JsonView,
    id: Option<Seq<char>>,
    call: ToolCallView,
)
    requires
        text::trimmed(call.name) == call.name,
        body.get("content"@) == convert::anthropic_messages(
            seq![
                MessageView::Assistant { id, content: seq![AssistantPart::ToolCall(call)] },
            ],
        )[0].get("content"@),
    ensures
        response::anthropic_reply(body) matches Ok(reply) && reply.choice == seq![
            AssistantPart::ToolCall(plain_call(call.id, call.name, call.arguments)),
        ],
{
    let parts = seq![AssistantPart::ToolCall(call)];
    convert_laws::law_anthropic_gets_every_assistant_part(parts, 0);
    convert_laws::law_anthropic_messages_hold_role_and_blocks(id, parts, Seq::empty());
    convert_laws::lemma_tool_use(call);
    assert(parts.take(0) =~= Seq::empty());
    assert(parts.skip(1) =~= Seq::empty());
    let block = convert::anthropic_assistant_part(AssistantPart::ToolCall(call))[0];
    assert(convert::anthropic_assistant_parts(parts) =~= seq![block]);
    reveal_strlit("role");
    reveal_strlit("content");
    assert("role"@.len() != "content"@.len());
    json::lemma_object_of_two(
        "role"@,
        JsonView::Str("assistant"@),
        "content"@,
        JsonView::Array(seq![block]),
    );
    law_a_tool_use_is_read_as_the_call(body, block, call.id, call.name, call.arguments);
}

// ---------------------------------------------------------------------------
// Texts in content
// ---------------------------------------------------------------------------

proof fn lemma_first_contents(a: Seq<JsonView>, b: Seq<JsonView>, n: nat)
    requires
        n <= a.len(),
    ensures
        content::text_content_of_first(a + b, n) == content::text_content_of_first(a, n),
    decreases n,
{
    if n > 0 {
        lemma_first_contents(a, b, (n - 1) as nat);
        assert((a + b)[n - 1] == a[n - 1]);
    }
}

proof fn lemma_contents_add_up(a: Seq<JsonView>, b: Seq<JsonView>, n: nat)
    requires
        n <= b.len(),
    ensures
        content::text_content_of_first(a + b, a.len() + n) == content::text_content_of_first(
            a,
            a.len(),
        ) + content::text_content_of_first(b, n),
    decreases n,
{
    if n == 0 {
        lemma_first_contents(a, b, a.len());
        assert(content::text_content_of_first(a, a.len()) + Seq::<Seq<char>>::empty()
            =~= content::text_content_of_first(a, a.len()));
    } else {
        lemma_contents_add_up(a, b, (n - 1) as nat);
        assert((a + b)[a.len() + n - 1] == b[n - 1]);
        assert(content::text_content_of_first(a + b, a.len() + n)
            =~= content::text_content_of_first(a, a.len()) + content::text_content_of_first(b, n));
    }
}

/// The texts of a content value: a string is its own text, a list has the texts of its
/// items in order, and an object has its `text`, its `summary`, its `refusal` and the texts
/// of its `content`, in this order. Empty texts do not count; numbers, truth values and
/// `null` have none.
pub proof fn law_texts_of_content(
    s: Seq<char>,
    a: Seq<JsonView>,
    b: Seq<JsonView>,
    object: JsonView,
)
    requires
        object is Object,
    ensures
        s.len() > 0 ==> content::text_content(JsonView::Str(s)) == seq![s],
        content::text_content(JsonView::Str(Seq::empty())) == Seq::<Seq<char>>::empty(),
        content::text_content(JsonView::Null) == Seq::<Seq<char>>::empty(),
        content::text_content(JsonView::Array(a + b)) == content::text_content(JsonView::Array(a))
            + content::text_content(JsonView::Array(b)),
        a.len() == 1 ==> content::text_content(JsonView::Array(a)) == content::text_content(a[0]),
        content::text_content(object) == (if held_text(object, "text"@).len() > 0 {
            seq![held_text(object, "text"@)]
        } else {
            Seq::empty()
        }) + (if held_text(object, "summary"@).len() > 0 {
            seq![held_text(object, "summary"@)]
        } else {
            Seq::empty()
        }) + (if held_text(object, "refusal"@).len() > 0 {
            seq![held_text(object, "refusal"@)]
        } else {
            Seq::empty()
        }) + content::text_content(held(object, "content"@)),
{
    lemma_contents_add_up(a, b, b.len());
    if a.len() == 1 {
        reveal_with_fuel(content::text_content_of_first, 2);
        assert(content::text_content_of_first(a, 1) =~= content::text_content(a[0]));
    }
    let entries = object->Object_0;
    json::lemma_key_position(entries, "content"@);
}

// ---------------------------------------------------------------------------
// Chat completions
// ---------------------------------------------------------------------------

/// A whole tool call of a chat-completions reply is read as a call with the id under `id`
/// and, under `function`, the name without white space around it and the arguments, read
/// where they are text.
pub proof fn law_chat_calls_are_read(
    call: JsonView,
    function: JsonView,
    id: Seq<char>,
    name: Seq<char>,
    arguments: JsonView,
    fallback: Seq<char>,
)
    requires
        call.get("function"@) == Some(function),
        function.get("name"@) == Some(JsonView::Str(name)),
        function.get("arguments"@) == Some(arguments),
        text::trimmed(name).len() > 0,
    ensures
        call.get("id"@) == Some(JsonView::Str(id)) && id.len() > 0 ==> content::parsed_tool_call(
            call,
            fallback,
        ) == Some(plain_call(id, text::trimmed(name), arguments::arguments_in(arguments))),
        call.get("id"@) is None && call.get("call_id"@) == Some(JsonView::Str(id)) && id.len() > 0
            ==> content::parsed_tool_call(call, fallback) == Some(
            plain_call(id, text::trimmed(name), arguments::arguments_in(arguments)),
        ),
        call.get("id"@) is None && call.get("call_id"@) is None ==> content::parsed_tool_call(
            call,
            fallback,
        ) == Some(plain_call(fallback, text::trimmed(name), arguments::arguments_in(arguments))),
{
    text::lemma_trimmed_twice(name);
}

/// A tool call without a name is none, and one without a `function` has name and arguments
/// of its own.
pub proof fn law_chat_calls_need_a_name(
    call: JsonView,
    id: Seq<char>,
    name: Seq<char>,
    arguments: JsonView,
    fallback: Seq<char>,
)
    requires
        call.get("function"@) is None,
    ensures
        !(held(call, "name"@) is Str) ==> content::parsed_tool_call(call, fallback) is None,
        call.get("name"@) == Some(JsonView::Str(name)) && text::is_blank(name)
            ==> content::parsed_tool_call(call, fallback) is None,
        call.get("name"@) == Some(JsonView::Str(name)) && !text::is_blank(name) && call.get("id"@)
            == Some(JsonView::Str(id)) && id.len() > 0 && call.get("arguments"@) == Some(arguments)
            ==> content::parsed_tool_call(call, fallback) == Some(
            plain_call(id, text::trimmed(name), arguments::arguments_in(arguments)),
        ),
{
    text::lemma_trimmed_twice(name);
}

/// A call of a reply that has an id and a name under the keys where chat completions put
/// them.
pub open spec fn is_full_call(call: JsonView) -> bool {
    held_text(call, "id"@).len() > 0 && !text::is_blank(
        held_text(held(call, "function"@), "name"@),
    )
}

/// Tool calls with an id and a name are all read, in order.
pub proof fn law_every_chat_call_is_read(calls: Seq<JsonView>)
    requires
        forall|i: int| 0 <= i < calls.len() ==> is_full_call(#[trigger] calls[i]),
    ensures
        response::call_parts(calls).len() == calls.len(),
        forall|i: int|
            0 <= i < calls.len() ==> (#[trigger] response::call_parts(calls)[i] matches
                AssistantPart::ToolCall(call) && call.id == held_text(calls[i], "id"@) && call.name
                == text::trimmed(held_text(held(calls[i], "function"@), "name"@))),
    decreases calls.len(),
{
    if calls.len() > 0 {
        let rest = calls.drop_last();
        assert forall|i: int| 0 <= i < rest.len() implies is_full_call(#[trigger] rest[i]) by {
            assert(rest[i] == calls[i]);
        }
        law_every_chat_call_is_read(rest);
        let last = calls.last();
        assert(is_full_call(calls[calls.len() - 1]));
        let name = held_text(held(last, "function"@), "name"@);
        text::lemma_trimmed_twice(name);
        assert forall|i: int| 0 <= i < calls.len() implies (
        #[trigger] response::call_parts(calls)[i] matches AssistantPart::ToolCall(call) && call.id
            == held_text(calls[i], "id"@) && call.name == text::trimmed(
            held_text(held(calls[i], "function"@), "name"@),
        )) by {
            if i < rest.len() {
                assert(response::call_parts(calls)[i] == response::call_parts(rest)[i]);
            }
        }
    }
}

/// What a chat-completions reply says is what the message of its first choice says: the
/// texts of its content, its tool calls, and the function call of the older form, in this
/// order. The counts of tokens are those under the keys that chat completions use.
pub proof fn law_chat_replies_are_read(
    body: JsonView,
    choices: Seq<JsonView>,
    message: JsonView,
    label: Seq<char>,
)
    requires
        body.get("choices"@) == Some(JsonView::Array(choices)),
        choices.len() > 0,
        choices[0].get("message"@) == Some(message),
    ensures
        ({
            let texts = content::text_content(held(message, "content"@)).map_values(
                |t: Seq<char>| AssistantPart::Text(t),
            );
            let calls = if held(message, "tool_calls"@) is Array {
                response::call_parts(held(message, "tool_calls"@)->Array_0)
            } else {
                Seq::empty()
            };
            let older = match message.get("function_call"@) {
                Some(call) => match content::parsed_tool_call(call, "function_call_0"@) {
                    Some(c) => seq![AssistantPart::ToolCall(c)],
                    None => Seq::empty(),
                },
                None => Seq::empty(),
            };
            let parts = texts + calls + older;
            let usage = held(body, "usage"@);
            let read = held_count(usage, "prompt_tokens"@);
            let written = held_count(usage, "completion_tokens"@);
            parts.len() > 0 ==> (response::openai_reply(body, label) matches Ok(reply) && {
                &&& reply.choice == parts
                &&& reply.body == body
                &&& reply.message_id is None
                &&& reply.usage.input_tokens == read
                &&& reply.usage.output_tokens == written
                &&& read + written <= u64::MAX ==> reply.usage.total_tokens == read + written
                &&& reply.usage.cached_input_tokens == held_count(
                    held(usage, "prompt_tokens_details"@),
                    "cached_tokens"@,
                )
            })
        }),
{
}

/// A chat-completions message that says nothing falls back on its reasoning, joined by
/// newlines: that under `reasoning_content`, then `reasoning`, then `reasoning_details`;
/// without any, on the choice's own text unless it is blank. A reply that has none of them
/// is an error, and so is one without choices.
pub proof fn law_silent_chat_replies(
    body: JsonView,
    choices: Seq<JsonView>,
    message: JsonView,
    label: Seq<char>,
)
    requires
        body.get("choices"@) == Some(JsonView::Array(choices)),
        choices.len() > 0,
        choices[0].get("message"@) == Some(message),
        response::message_parts(message).len() == 0,
    ensures
        ({
            let thoughts = content::text_content(held(message, "reasoning_content"@))
                + content::text_content(held(message, "reasoning"@)) + content::text_content(
                held(message, "reasoning_details"@),
            );
            let own = held_text(choices[0], "text"@);
            &&& thoughts.len() > 0 ==> (response::openai_reply(body, label) matches Ok(reply)
                && reply.choice == seq![AssistantPart::Text(text::joined(thoughts, "\n"@))])
            &&& thoughts.len() == 0 && !text::is_blank(own) ==> (response::openai_reply(
                body,
                label,
            ) matches Ok(reply) && reply.choice == seq![AssistantPart::Text(own)])
            &&& thoughts.len() == 0 && text::is_blank(own) ==> response::openai_reply(
                body,
                label,
            ) is Err
        }),
{
    assert(text::trimmed(Seq::<char>::empty()).len() == 0);
}

/// A chat-completions reply without a choice is an error.
pub proof fn law_chat_replies_need_a_choice(body: JsonView, label: Seq<char>)
    requires
        held(body, "choices"@) matches JsonView::Array(choices) ==> choices.len() == 0,
    ensures
        response::openai_reply(body, label) is Err,
{
}

/// A tool call that was converted for chat completions and is read back is the same call,
/// under the id that it went out with, where its arguments read back from their text.
pub proof fn law_a_call_survives_a_round_through_chat(call: ToolCallView, fallback: Seq<char>)
    requires
        text::trimmed(call.name) == call.name,
        call.name.len() > 0,
        convert_laws::matching_id(call.id, call.call_id).len() > 0,
        json::parsed(json::printed(call.arguments)) == Ok::<JsonView, Seq<char>>(call.arguments),
    ensures
        content::parsed_tool_call(convert::openai_tool_call(call), fallback) == Some(
            plain_call(
                convert_laws::matching_id(call.id, call.call_id),
                call.name,
                call.arguments,
            ),
        ),
{
    reveal_strlit("id");
    reveal_strlit("type");
    reveal_strlit("function");
    reveal_strlit("name");
    reveal_strlit("arguments");
    assert("id"@.len() == 2);
    assert("type"@.len() == 4);
    assert("function"@.len() == 8);
    assert("name"@.len() == 4);
    assert("arguments"@.len() == 9);
    let function = json::empty_object().with("name"@, JsonView::Str(call.name)).with(
        "arguments"@,
        JsonView::Str(json::printed(call.arguments)),
    );
    json::lemma_object_of_two(
        "name"@,
        JsonView::Str(call.name),
        "arguments"@,
        JsonView::Str(json::printed(call.arguments)),
    );
    json::lemma_object_of_three(
        "id"@,
        JsonView::Str(convert_laws::matching_id(call.id, call.call_id)),
        "type"@,
        JsonView::Str("function"@),
        "function"@,
        function,
    );
    law_chat_calls_are_read(
        convert::openai_tool_call(call),
        function,
        convert_laws::matching_id(call.id, call.call_id),
        call.name,
        JsonView::Str(json::printed(call.arguments)),
        fallback,
    );
}

// ---------------------------------------------------------------------------
// The Responses API
// ---------------------------------------------------------------------------

/// A `function_call` item of the Responses API adds one tool call behind what was read: its
/// id is the item's own, else the call's, else made of the item's position; it carries the
/// call's id where there is one, the name without white space around it, and the arguments,
/// read where they are text.
pub proof fn law_function_call_items_are_read(items: Seq<JsonView>, item: JsonView)
    requires
        item.get("type"@) == Some(JsonView::Str("function_call"@)),
    ensures
        ({
            let own = held_text(item, "id"@);
            let called = held_text(item, "call_id"@);
            &&& responses_api::after_items(items.push(item)).parts == responses_api::after_items(
                items,
            ).parts.push(
                AssistantPart::ToolCall(
                    ToolCallView {
                        id: if own.len() > 0 {
                            own
                        } else if called.len() > 0 {
                            called
                        } else {
                            "function_call_"@ + text::decimal(items.len())
                        },
                        call_id: if called.len() > 0 {
                            Some(called)
                        } else {
                            None
                        },
                        name: text::trimmed(held_text(item, "name"@)),
                        arguments: arguments::arguments_in(held(item, "arguments"@)),
                        signature: None,
                        additional_params: None,
                    },
                ),
            )
            &&& responses_api::after_items(items.push(item)).fallback
                == responses_api::after_items(items).fallback
        }),
{
    assert(items.push(item).drop_last() =~= items);
    reveal_strlit("message");
    reveal_strlit("function_call");
    assert("message"@.len() != "function_call"@.len());
}

/// The output texts among content items are those of type `output_text` that are not empty,
/// in order.
pub proof fn law_output_texts_are_kept_in_order(items: Seq<JsonView>)
    ensures
        responses_api::output_texts(items) == items.filter(
            |item: JsonView|
                item.get("type"@) == Some(JsonView::Str("output_text"@)) && held_text(
                    item,
                    "text"@,
                ).len() > 0,
        ).map_values(|item: JsonView| held_text(item, "text"@)),
    decreases items.len(),
{
    reveal(Seq::filter);
    let says = |item: JsonView|
        item.get("type"@) == Some(JsonView::Str("output_text"@)) && held_text(
            item,
            "text"@,
        ).len() > 0;
    let words = |item: JsonView| held_text(item, "text"@);
    let all = items.filter(says).map_values(words);
    if items.len() > 0 {
        law_output_texts_are_kept_in_order(items.drop_last());
        let before = items.drop_last().filter(says).map_values(words);
        if says(items.last()) {
            assert(all =~= before.push(words(items.last())));
            assert(before + seq![words(items.last())] =~= before.push(words(items.last())));
        } else {
            assert(all =~= before);
            assert(before + Seq::<Seq<char>>::empty() =~= before);
        }
    } else {
        assert(all =~= Seq::empty());
    }
}

/// A `message` item of the Responses API adds its output texts behind what was read; where
/// it has none, its other texts are kept to fall back on.
pub proof fn law_message_items_are_read(
    items: Seq<JsonView>,
    item: JsonView,
    content_items: Seq<JsonView>,
)
    requires
        item.get("type"@) == Some(JsonView::Str("message"@)),
        item.get("content"@) == Some(JsonView::Array(content_items)),
    ensures
        ({
            let was = responses_api::after_items(items);
            let now = responses_api::after_items(items.push(item));
            let texts = responses_api::output_texts(content_items);
            &&& texts.len() > 0 ==> now.parts == was.parts + texts.map_values(
                |t: Seq<char>| AssistantPart::Text(t),
            ) && now.fallback == was.fallback
            &&& texts.len() == 0 ==> now.parts == was.parts && now.fallback == was.fallback
                + responses_api::item_text(JsonView::Array(content_items))
        }),
{
    assert(items.push(item).drop_last() =~= items);
}

/// Any other item of the Responses API adds nothing but texts to fall back on, and the
/// texts to fall back on are said where no other text came, and only there.
pub proof fn law_texts_to_fall_back_on(items: Seq<JsonView>, item: JsonView)
    ensures
        item.get("type"@) != Some(JsonView::Str("message"@)) && item.get("type"@) != Some(
            JsonView::Str("function_call"@),
        ) ==> responses_api::after_items(items.push(item)).parts == responses_api::after_items(
            items,
        ).parts && responses_api::after_items(items.push(item)).fallback
            == responses_api::after_items(items).fallback + responses_api::item_text(item),
        (exists|i: int|
            0 <= i < responses_api::after_items(items).parts.len() && (
            #[trigger] responses_api::after_items(items).parts[i]) is Text)
            ==> responses_api::answer_parts(items) == responses_api::after_items(items).parts,
        !(exists|i: int|
            0 <= i < responses_api::after_items(items).parts.len() && (
            #[trigger] responses_api::after_items(items).parts[i]) is Text)
            ==> responses_api::answer_parts(items) == responses_api::after_items(items).parts
            + responses_api::after_items(items).fallback.map_values(
            |t: Seq<char>| AssistantPart::Text(t),
        ),
{
    assert(items.push(item).drop_last() =~= items);
}

/// A reply of the Responses API is read as what its output items say, with its counts of
/// tokens; one that says nothing is an error.
pub proof fn law_responses_replies_are_read(
    body: JsonView,
    items: Seq<JsonView>,
    label: Seq<char>,
)
    requires
        body.get("output"@) == Some(JsonView::Array(items)),
    ensures
        ({
            let parts = responses_api::answer_parts(items);
            let usage = held(body, "usage"@);
            let read = held_count(usage, "input_tokens"@);
            let written = held_count(usage, "output_tokens"@);
            &&& parts.len() == 0 ==> responses_api::responses_reply(body, label) is Err
            &&& parts.len() > 0 ==> (responses_api::responses_reply(body, label) matches Ok(reply)
                && {
                &&& reply.choice == parts
                &&& reply.body == body
                &&& reply.message_id is None
                &&& reply.usage.input_tokens == read
                &&& reply.usage.output_tokens == written
                &&& read + written <= u64::MAX ==> reply.usage.total_tokens == read + written
                &&& reply.usage.cached_input_tokens == held_count(
                    held(usage, "input_tokens_details"@),
                    "cached_tokens"@,
                )
            })
        }),
{
}

/// A content value or an output item has the texts of its items in order; an object that is
/// no tool call and no result of one has its own text, then the texts of its summary and of
/// its refusal, then those of its content; a tool call and its result have none.
pub proof fn law_texts_of_output_items(a: Seq<JsonView>, item: JsonView, object: JsonView)
    requires
        object is Object,
    ensures
        responses_api::item_text(JsonView::Array(a.push(item))) == responses_api::item_text(
            JsonView::Array(a),
        ) + responses_api::item_text(item),
        responses_api::item_text(JsonView::Array(Seq::empty())) == Seq::<Seq<char>>::empty(),
        object.get("type"@) == Some(JsonView::Str("function_call"@)) || object.get("type"@) == Some(
            JsonView::Str("function_call_output"@),
        ) ==> responses_api::item_text(object) == Seq::<Seq<char>>::empty(),
        object.get("type"@) != Some(JsonView::Str("function_call"@)) && object.get("type"@) != Some(
            JsonView::Str("function_call_output"@),
        ) ==> responses_api::item_text(object) == (if held_text(object, "text"@).len() > 0 {
            seq![held_text(object, "text"@)]
        } else {
            Seq::empty()
        }) + content::text_content(held(object, "summary"@)) + content::text_content(
            held(object, "refusal"@),
        ) + responses_api::item_text(held(object, "content"@)),
{
    let all = a.push(item);
    reveal_with_fuel(responses_api::item_text, 3);
    reveal_with_fuel(responses_api::item_text_of_first, 3);
    assert(responses_api::item_text(JsonView::Array(all)) == responses_api::item_text_of_first(
        all,
        all.len(),
    ));
    assert(responses_api::item_text(JsonView::Array(a)) == responses_api::item_text_of_first(
        a,
        a.len(),
    ));
    lemma_first_item_texts(a, item, a.len());
    assert(all[a.len() as int] == item);
    json::lemma_key_position(object->Object_0, "content"@);
    assert(content::text_content(JsonView::Null) =~= Seq::empty());
    assert(responses_api::item_text(JsonView::Null) =~= Seq::empty());
}

proof fn lemma_first_item_texts(a: Seq<JsonView>, item: JsonView, n: nat)
    requires
        n <= a.len(),
    ensures
        responses_api::item_text_of_first(a.push(item), n) == responses_api::item_text_of_first(
            a,
            n,
        ),
    decreases n,
{
    if n > 0 {
        lemma_first_item_texts(a, item, (n - 1) as nat);
        assert(a.push(item)[n - 1] == a[n - 1]);
    }
}

/// A stream of the Responses API carries the reply of its first line that completes it: a
/// line of data that reads as an event of type `response.completed` with a `response`. What
/// follows such a line does not matter, and other lines carry none.
pub proof fn law_the_first_completed_response_counts(lines: Seq<Seq<char>>, line: Seq<char>)
    ensures
        responses_api::first_completed(Seq::empty()) is None,
        responses_api::first_completed(lines) is Some ==> responses_api::first_completed(
            lines.push(line),
        ) == responses_api::first_completed(lines),
        responses_api::first_completed(lines) is None && !(line.len() >= 6 && line.take(6)
            == "data: "@) ==> responses_api::first_completed(lines.push(line)) is None,
{
    assert(lines.push(line).drop_last() =~= lines);
    reveal_strlit("data: ");
    if line.len() >= 6 {
        assert(line.subrange(0, 6) =~= line.take(6));
    }
}

/// A line of data with a `response.completed` event carries the response of that event.
pub proof fn law_completed_events_carry_their_response(
    lines: Seq<Seq<char>>,
    data: Seq<char>,
    event: JsonView,
    reply: JsonView,
)
    requires
        responses_api::first_completed(lines) is None,
        json::parsed(data) == Ok::<JsonView, Seq<char>>(event),
        text::trimmed(data).len() > 0,
        text::trimmed(data) != "[DONE]"@,
        event.get("type"@) == Some(JsonView::Str("response.completed"@)),
        event.get("response"@) == Some(reply),
    ensures
        responses_api::first_completed(lines.push("data: "@ + data)) == Some(reply),
{
    let line = "data: "@ + data;
    assert(lines.push(line).drop_last() =~= lines);
    reveal_strlit("data: ");
    assert(line.subrange(0, 6) =~= "data: "@);
    assert(line.subrange(6, line.len() as int) =~= data);
}

// ---------------------------------------------------------------------------
// Whole replies
// ---------------------------------------------------------------------------

/// A reply of Anthropic whose text is JSON is read where its status is one of success, from
/// 200 to 299; with any other status, and where its text is no JSON, it is an error. The
/// error of a refused request ends with the message that Anthropic gives.
pub proof fn law_anthropic_replies_count_with_success(
    status: u16,
    response_text: Seq<char>,
    body: JsonView,
    message: Seq<char>,
)
    ensures
        json::parsed(response_text) is Err ==> reply::anthropic_outcome(
            status,
            response_text,
        ) is Err,
        json::parsed(response_text) == Ok::<JsonView, Seq<char>>(body) && 200 <= status <= 299
            ==> reply::anthropic_outcome(status, response_text) == response::anthropic_reply(body),
        json::parsed(response_text) == Ok::<JsonView, Seq<char>>(body) && !(200 <= status <= 299)
            && held(body, "error"@).get("message"@) == Some(JsonView::Str(message))
            ==> reply::anthropic_outcome(status, response_text) == Err::<ResponseView, ErrorView>(
            ErrorView::Provider(
                "Anthropic API error"@ + " ("@ + api_error::status_line(status) + "): "@ + message,
            ),
        ),
        json::parsed(response_text) == Ok::<JsonView, Seq<char>>(body) && !(200 <= status <= 299)
            ==> reply::anthropic_outcome(status, response_text) is Err,
{
}

/// A reply of the Responses API with a status of success is read from its JSON, and from
/// the end of its stream for ChatGPT; with any other status it is an error that ends with
/// the message that the provider gives.
pub proof fn law_responses_replies_count_with_success(
    label: Seq<char>,
    status: u16,
    is_chatgpt: bool,
    response_text: Seq<char>,
    body: JsonView,
    message: Seq<char>,
)
    ensures
        200 <= status <= 299 && !is_chatgpt && json::parsed(response_text) == Ok::<
            JsonView,
            Seq<char>,
        >(body) ==> reply::responses_outcome(label, status, is_chatgpt, response_text)
            == responses_api::responses_reply(body, label),
        200 <= status <= 299 && !is_chatgpt && json::parsed(response_text) is Err
            ==> reply::responses_outcome(label, status, is_chatgpt, response_text) is Err,
        200 <= status <= 299 && is_chatgpt && responses_api::first_completed(
            text::lines(response_text),
        ) == Some(body) ==> reply::responses_outcome(label, status, is_chatgpt, response_text)
            == responses_api::responses_reply(body, label),
        200 <= status <= 299 && is_chatgpt && responses_api::first_completed(
            text::lines(response_text),
        ) is None ==> reply::responses_outcome(label, status, is_chatgpt, response_text) is Err,
        !(200 <= status <= 299) ==> reply::responses_outcome(
            label,
            status,
            is_chatgpt,
            response_text,
        ) is Err,
        !(200 <= status <= 299) && json::parsed(response_text) == Ok::<JsonView, Seq<char>>(body)
            && held(body, "error"@).get("message"@) == Some(JsonView::Str(message))
            ==> reply::responses_outcome(label, status, is_chatgpt, response_text) == Err::<
            ResponseView,
            ErrorView,
        >(
            ErrorView::Provider(
                label + " Responses API error"@ + " ("@ + api_error::status_line(status) + "): "@
                    + message,
            ),
        ),
{
}

/// The message of an error is that of its `error`, else its `detail`, else its own.
pub proof fn law_error_messages_are_found(body: JsonView, message: Seq<char>)
    ensures
        held(body, "error"@).get("message"@) == Some(JsonView::Str(message))
            ==> api_error::error_text(body) == Some(message),
        !(held(held(body, "error"@), "message"@) is Str) && body.get("detail"@) == Some(
            JsonView::Str(message),
        ) ==> api_error::error_text(body) == Some(message),
        !(held(held(body, "error"@), "message"@) is Str) && !(held(body, "detail"@) is Str)
            && body.get("message"@) == Some(JsonView::Str(message)) ==> api_error::error_text(body)
            == Some(message),
        !(held(held(body, "error"@), "message"@) is Str) && !(held(body, "detail"@) is Str) && !(
        held(body, "message"@) is Str) ==> api_error::error_text(body) is None,
{
}

/// The error of a chat-completions request has the provider's name, the status and the
/// message of its error; where a proxy tells, the upstream provider and what it said too.
/// Where the text is no JSON, it has as much of the text as fits.
pub proof fn law_chat_errors_tell_what_was_said(
    label: Seq<char>,
    status: u16,
    response_text: Seq<char>,
    body: JsonView,
    message: Seq<char>,
    name: Seq<char>,
    raw: Seq<char>,
)
    ensures
        json::parsed(response_text) is Err ==> reply::chat_failure(label, status, response_text)
            == ErrorView::Provider(
            label + " API error ("@ + (api_error::status_line(status) + ": "@ + sse::truncated(
                response_text,
            )) + ")"@,
        ),
        json::parsed(response_text) == Ok::<JsonView, Seq<char>>(body) && held(
            body,
            "error"@,
        ).get("message"@) == Some(JsonView::Str(message)) && held(body, "error"@).get(
            "metadata"@,
        ) is None ==> reply::chat_failure(label, status, response_text) == ErrorView::Provider(
            label + " API error ("@ + (api_error::status_line(status) + ": "@ + message) + ")"@,
        ),
        json::parsed(response_text) == Ok::<JsonView, Seq<char>>(body) && held(
            body,
            "error"@,
        ).get("message"@) == Some(JsonView::Str(message)) && held(
            held(body, "error"@),
            "metadata"@,
        ).get("provider_name"@) == Some(JsonView::Str(name)) && name.len() > 0 && held(
            held(body, "error"@),
            "metadata"@,
        ).get("raw"@) == Some(JsonView::Str(raw)) && raw.len() > 0 ==> reply::chat_failure(
            label,
            status,
            response_text,
        ) == ErrorView::Provider(
            label + " API error ("@ + (api_error::status_line(status) + ": "@ + message
                + " (upstream provider "@ + name + ": "@ + raw + ")"@) + ")"@,
        ),
{
}

/// Renaming touches the names of tool calls alone: each call keeps its id and arguments and
/// gets the name that its tool had, and all else of the reply stays as it was.
pub proof fn law_renaming_touches_names_alone<F: Fn(&String, &Vec<(String, String)>) -> String>(
    original_name: F,
    original_tools: Vec<(String, String)>,
    before: CompletionResponse,
    after: CompletionResponse,
    i: int,
)
    requires
        reply::are_renamed(original_name, original_tools, before, after),
        0 <= i < before.choice@.len(),
    ensures
        after.usage == before.usage,
        after.raw_response == before.raw_response,
        after.message_id == before.message_id,
        after.choice@.len() == before.choice@.len(),
        !(before.choice@[i] is ToolCall) ==> after.choice@[i] == before.choice@[i],
        before.choice@[i] matches AssistantContent::ToolCall(call) ==> (after.choice@[i] matches
            AssistantContent::ToolCall(renamed) && renamed.id == call.id && renamed.call_id
            == call.call_id && renamed.function.arguments == call.function.arguments
            && renamed.signature == call.signature && call_ensures(
            original_name,
            (&call.function.name, &original_tools),
            renamed.function.name,
        )),
{
    assert(reply::is_renamed(original_name, original_tools, before.choice@[i], after.choice@[i]));
}

} // verus!
