//! What a provider's reply says: the parts of the answer and the token counts.
use crate::json;
use crate::json::{Json, JsonView};
use crate::llm::arguments;
use crate::llm::content;
use crate::llm::message;
use crate::llm::message::{
    AssistantContent, AssistantPart, CompletionError, CompletionResponse, ErrorView, RawResponse,
    ResponseView, Text, Usage,
};
use crate::text;
use vstd::prelude::*;

verus! {

/// A token count in a reply: none counts as zero.
pub open spec fn count(value: JsonView) -> u64 {
    match value.unsigned() {
        Some(n) => n,
        None => 0,
    }
}

/// Token counts, with their total in 64 bits.
pub open spec fn usage_of(input_tokens: u64, output_tokens: u64, cached: u64) -> Usage {
    Usage {
        input_tokens,
        output_tokens,
        total_tokens: input_tokens.wrapping_add(output_tokens),
        cached_input_tokens: cached,
    }
}

/// A token count in a reply.
pub(crate) fn count_of(value: &Json) -> (n: u64)
    ensures
        n == count(value@),
{
    match value.as_u64() {
        Some(n) => n,
        None => 0,
    }
}

/// Token counts, with their total in 64 bits.
pub(crate) fn make_usage(input_tokens: u64, output_tokens: u64, cached: u64) -> (usage: Usage)
    ensures
        usage == usage_of(input_tokens, output_tokens, cached),
{
    Usage {
        input_tokens,
        output_tokens,
        total_tokens: input_tokens.wrapping_add(output_tokens),
        cached_input_tokens: cached,
    }
}

/// The text where there is one, else nothing.
pub open spec fn text_or_empty(value: JsonView) -> Seq<char> {
    match value.text() {
        Some(t) => t,
        None => Seq::empty(),
    }
}

/// The text where there is one, else `other`.
pub open spec fn text_or_other(value: JsonView, other: Seq<char>) -> Seq<char> {
    match value.text() {
        Some(t) => t,
        None => other,
    }
}

/// The text where there is one, else `other`.
fn text_or(value: &Json, other: &str) -> (t: String)
    ensures
        t@ == text_or_other(value@, other@),
{
    match value.as_str() {
        Some(t) => t.to_owned(),
        None => other.to_owned(),
    }
}

/// The text where there is one, else nothing.
fn text_or_none(value: &Json) -> (t: String)
    ensures
        t@ == text_or_empty(value@),
{
    match value.as_str() {
        Some(t) => t.to_owned(),
        None => String::new(),
    }
}

/// Texts as parts of an answer.
pub open spec fn text_parts(texts: Seq<Seq<char>>) -> Seq<AssistantPart> {
    texts.map_values(|t: Seq<char>| AssistantPart::Text(t))
}

/// Appends texts as parts of an answer.
pub(crate) fn push_texts(texts: Vec<String>, parts: &mut Vec<AssistantContent>)
    ensures
        message::assistant_parts(final(parts)@) == message::assistant_parts(old(parts)@)
            + text_parts(text::views(texts@)),
{
    let ghost before = message::assistant_parts(parts@);
    let ghost all = text::views(texts@);
    proof {
        assert(before + text_parts(all.subrange(0, 0)) =~= before);
    }
    for t in it: texts.into_iter()
        invariant
            it.seq() == texts@,
            all == text::views(texts@),
            message::assistant_parts(parts@) == before + text_parts(
                all.subrange(0, it.index() as int),
            ),
    {
        let ghost i = it.index() as int;
        let part = AssistantContent::Text(Text { text: t });
        proof {
            assert(all[i] == t@);
            assert(text_parts(all.subrange(0, i + 1)) =~= text_parts(all.subrange(0, i)).push(
                part@,
            ));
            assert(message::assistant_parts(parts@.push(part)) =~= message::assistant_parts(
                parts@,
            ).push(part@));
            assert(before + text_parts(all.subrange(0, i)).push(part@) =~= (before + text_parts(
                all.subrange(0, i),
            )).push(part@));
        }
        parts.push(part);
    }
    proof {
        assert(all.subrange(0, all.len() as int) =~= all);
    }
}

// ---------------------------------------------------------------------------
// Anthropic
// ---------------------------------------------------------------------------

/// The part that a block of an Anthropic reply stands for: blank text, thinking
/// and unknown blocks stand for none.
pub open spec fn anthropic_block(block: JsonView) -> Seq<AssistantPart> {
    let kind = block.at("type"@).text();
    if kind == Some("text"@) {
        let t = text_or_empty(block.at("text"@));
        if text::is_blank(t) {
            Seq::empty()
        } else {
            seq![AssistantPart::Text(t)]
        }
    } else if kind == Some("tool_use"@) {
        seq![
            AssistantPart::ToolCall(
                content::tool_call_view(
                    text_or_empty(block.at("id"@)),
                    None,
                    text_or_empty(block.at("name"@)),
                    block.at("input"@),
                ),
            ),
        ]
    } else {
        Seq::empty()
    }
}

/// The parts of the blocks of an Anthropic reply, in order.
pub open spec fn anthropic_blocks(blocks: Seq<JsonView>) -> Seq<AssistantPart>
    decreases blocks.len(),
{
    if blocks.len() == 0 {
        Seq::empty()
    } else {
        anthropic_blocks(blocks.drop_last()) + anthropic_block(blocks.last())
    }
}

/// What an Anthropic reply says. A reply without parts that ends the turn stands
/// for one blank of text; any other reply without parts is an error.
pub open spec fn anthropic_reply(body: JsonView) -> Result<ResponseView, ErrorView> {
    match body.at("content"@).items() {
        None => Err(ErrorView::Response("missing content array"@)),
        Some(blocks) => {
            let parts = anthropic_blocks(blocks);
            let stop_reason = text_or_other(body.at("stop_reason"@), "unknown"@);
            let usage = body.at("usage"@);
            if parts.len() == 0 && stop_reason != "end_turn"@ {
                Err(
                    ErrorView::Response(
                        "empty response from Anthropic (stop_reason: "@ + stop_reason + ")"@,
                    ),
                )
            } else {
                Ok(
                    ResponseView {
                        choice: if parts.len() == 0 {
                            seq![AssistantPart::Text(" "@)]
                        } else {
                            parts
                        },
                        usage: usage_of(
                            count(usage.at("input_tokens"@)),
                            count(usage.at("output_tokens"@)),
                            count(usage.at("cache_read_input_tokens"@)),
                        ),
                        body,
                        message_id: None,
                    },
                )
            }
        },
    }
}

/// Appends the part that a block of an Anthropic reply stands for.
fn push_anthropic_block(block: &Json, parts: &mut Vec<AssistantContent>)
    ensures
        message::assistant_parts(final(parts)@) == message::assistant_parts(old(parts)@)
            + anthropic_block(block@),
{
    let ghost before = message::assistant_parts(parts@);
    let kind = block.at("type").as_str();
    let is_text = match kind {
        Some(k) => text::same(k, "text"),
        None => false,
    };
    let is_tool = match kind {
        Some(k) => text::same(k, "tool_use"),
        None => false,
    };
    if is_text {
        let t = text_or_none(block.at("text"));
        if !text::is_blank_text(t.as_str()) {
            let part = AssistantContent::Text(Text { text: t });
            proof {
                assert(message::assistant_parts(parts@.push(part)) =~= before + seq![part@]);
            }
            parts.push(part);
        } else {
            proof {
                assert(before + Seq::<AssistantPart>::empty() =~= before);
            }
        }
    } else if is_tool {
        let id = text_or_none(block.at("id"));
        let name = text_or_none(block.at("name"));
        let arguments = block.at("input").duplicate();
        let part = AssistantContent::ToolCall(content::make_tool_call(id, name, arguments));
        proof {
            assert(message::assistant_parts(parts@.push(part)) =~= before + seq![part@]);
        }
        parts.push(part);
    } else {
        proof {
            assert(before + Seq::<AssistantPart>::empty() =~= before);
        }
    }
}

/// Reads an Anthropic reply.
pub fn parse_anthropic_response(body: Json) -> (response: Result<
    CompletionResponse,
    CompletionError,
>)
    ensures
        message::response_result(response) == anthropic_reply(body@),
        response is Ok ==> response->Ok_0.choice@.len() > 0,
{
    let mut parts: Vec<AssistantContent> = Vec::new();
    match body.at("content").as_array() {
        Some(blocks) => {
            let ghost all = json::json_views(blocks@);
            let mut i: usize = 0;
            proof {
                assert(all.subrange(0, 0) =~= Seq::<JsonView>::empty());
                assert(message::assistant_parts(parts@) =~= Seq::<AssistantPart>::empty());
            }
            while i < blocks.len()
                invariant
                    i <= blocks@.len(),
                    all == json::json_views(blocks@),
                    message::assistant_parts(parts@) == anthropic_blocks(
                        all.subrange(0, i as int),
                    ),
                decreases blocks@.len() - i,
            {
                proof {
                    let next = all.subrange(0, i as int + 1);
                    assert(next.drop_last() =~= all.subrange(0, i as int));
                    assert(next.last() == blocks@[i as int]@);
                }
                push_anthropic_block(&blocks[i], &mut parts);
                i += 1;
            }
            proof {
                assert(all.subrange(0, all.len() as int) =~= all);
            }
        },
        None => {
            return Err(CompletionError::ResponseError("missing content array".to_owned()));
        },
    }
    if parts.is_empty() {
        let stop_reason = text_or(body.at("stop_reason"), "unknown");
        if !text::same(stop_reason.as_str(), "end_turn") {
            return Err(
                CompletionError::ResponseError(
                    "empty response from Anthropic (stop_reason: ".to_owned().concat(
                        stop_reason.as_str(),
                    ).concat(")"),
                ),
            );
        }
        parts.push(AssistantContent::Text(Text { text: " ".to_owned() }));
        proof {
            assert(message::assistant_parts(parts@) =~= seq![AssistantPart::Text(" "@)]);
        }
    }
    let counts = body.at("usage");
    let usage = make_usage(
        count_of(counts.at("input_tokens")),
        count_of(counts.at("output_tokens")),
        count_of(counts.at("cache_read_input_tokens")),
    );
    Ok(
        CompletionResponse {
            choice: parts,
            usage,
            raw_response: RawResponse { body },
            message_id: None,
        },
    )
}

// ---------------------------------------------------------------------------
// Chat completions
// ---------------------------------------------------------------------------

/// The reasoning of a message, where it has any: its segments one below the other.
pub open spec fn reasoning_fallback(message: JsonView) -> Option<Seq<char>> {
    let parts = content::text_content_at(message, "reasoning_content"@) + content::text_content_at(
        message,
        "reasoning"@,
    ) + content::text_content_at(message, "reasoning_details"@);
    if parts.len() == 0 {
        None
    } else {
        Some(text::joined(parts, "\n"@))
    }
}

/// The reasoning of a message, where it has any.
pub fn parse_openai_reasoning_fallback(message: &Json) -> (reasoning: Option<String>)
    ensures
        text::view_of(reasoning) == reasoning_fallback(message@),
{
    let mut parts: Vec<String> = Vec::new();
    content::collect_text_content_at(message, "reasoning_content", &mut parts);
    content::collect_text_content_at(message, "reasoning", &mut parts);
    content::collect_text_content_at(message, "reasoning_details", &mut parts);
    proof {
        assert(text::views(parts@) =~= content::text_content_at(message@, "reasoning_content"@)
            + content::text_content_at(message@, "reasoning"@) + content::text_content_at(
            message@,
            "reasoning_details"@,
        ));
    }
    if parts.is_empty() {
        None
    } else {
        Some(text::join(&parts, "\n"))
    }
}

/// An optional tool call as parts of an answer.
pub open spec fn call_part(call: Option<message::ToolCallView>) -> Seq<AssistantPart> {
    match call {
        Some(c) => seq![AssistantPart::ToolCall(c)],
        None => Seq::empty(),
    }
}

/// The tool calls of a message, in order. One without an id is named after its
/// position.
pub open spec fn call_parts(calls: Seq<JsonView>) -> Seq<AssistantPart>
    decreases calls.len(),
{
    if calls.len() == 0 {
        Seq::empty()
    } else {
        call_parts(calls.drop_last()) + call_part(
            content::parsed_tool_call(calls.last(), content::numbered_call(calls.len() - 1)),
        )
    }
}

/// The parts of a message proper: its text, its tool calls, and the function call
/// of the older form.
pub open spec fn message_parts(message: JsonView) -> Seq<AssistantPart> {
    text_parts(content::text_content_at(message, "content"@)) + (match message.items_at(
        "tool_calls"@,
    ) {
        Some(calls) => call_parts(calls),
        None => Seq::empty(),
    }) + (match message.get("function_call"@) {
        Some(call) => call_part(content::parsed_tool_call(call, "function_call_0"@)),
        None => Seq::empty(),
    })
}

/// The parts of a choice: those of its message; without any, the reasoning of the
/// message; without that, the choice's own text unless it is blank.
pub open spec fn choice_parts(choice: JsonView) -> Seq<AssistantPart> {
    let message = choice.at("message"@);
    let own = message_parts(message);
    if own.len() > 0 {
        own
    } else {
        match reasoning_fallback(message) {
            Some(reasoning) => seq![AssistantPart::Text(reasoning)],
            None => match choice.at("text"@).text() {
                Some(t) => if text::is_blank(t) {
                    Seq::empty()
                } else {
                    seq![AssistantPart::Text(t)]
                },
                None => Seq::empty(),
            },
        }
    }
}

/// What a chat-completions reply says: its first choice counts.
pub open spec fn openai_reply(body: JsonView, label: Seq<char>) -> Result<ResponseView, ErrorView> {
    match body.at("choices"@).items() {
        Some(choices) => if choices.len() == 0 {
            Err(ErrorView::Response("missing choices array"@))
        } else {
            let choice = choices[0];
            let parts = choice_parts(choice);
            let usage = body.at("usage"@);
            if parts.len() == 0 {
                Err(
                    ErrorView::Response(
                        "empty response from "@ + label + " (finish_reason: "@ + text_or_other(
                            choice.at("finish_reason"@),
                            "unknown"@,
                        ) + ")"@,
                    ),
                )
            } else {
                Ok(
                    ResponseView {
                        choice: parts,
                        usage: usage_of(
                            count(usage.at("prompt_tokens"@)),
                            count(usage.at("completion_tokens"@)),
                            count(usage.at("prompt_tokens_details"@).at("cached_tokens"@)),
                        ),
                        body,
                        message_id: None,
                    },
                )
            }
        },
        None => Err(ErrorView::Response("missing choices array"@)),
    }
}

/// Appends the tool calls of a message.
fn push_calls(calls: &Vec<Json>, parts: &mut Vec<AssistantContent>)
    ensures
        message::assistant_parts(final(parts)@) == message::assistant_parts(old(parts)@)
            + call_parts(json::json_views(calls@)),
{
    let ghost before = message::assistant_parts(parts@);
    let ghost all = json::json_views(calls@);
    let mut i: usize = 0;
    proof {
        assert(all.subrange(0, 0) =~= Seq::<JsonView>::empty());
        assert(before + Seq::<AssistantPart>::empty() =~= before);
    }
    while i < calls.len()
        invariant
            i <= calls@.len(),
            all == json::json_views(calls@),
            message::assistant_parts(parts@) == before + call_parts(all.subrange(0, i as int)),
        decreases calls@.len() - i,
    {
        let ghost so_far = call_parts(all.subrange(0, i as int));
        let ghost had = message::assistant_parts(parts@);
        proof {
            let next = all.subrange(0, i as int + 1);
            assert(next.drop_last() =~= all.subrange(0, i as int));
            assert(next.last() == calls@[i as int]@);
        }
        match content::parse_openai_tool_call(&calls[i], content::numbered_call_id(i)) {
            Some(call) => {
                let part = AssistantContent::ToolCall(call);
                proof {
                    assert(message::assistant_parts(parts@.push(part)) =~= had.push(part@));
                    assert((before + so_far).push(part@) =~= before + (so_far + seq![part@]));
                }
                parts.push(part);
            },
            None => {
                proof {
                    assert(so_far + Seq::<AssistantPart>::empty() =~= so_far);
                }
            },
        }
        i += 1;
    }
    proof {
        assert(all.subrange(0, all.len() as int) =~= all);
    }
}

/// The parts of a choice.
fn parts_of_choice(choice: &Json) -> (parts: Vec<AssistantContent>)
    ensures
        message::assistant_parts(parts@) == choice_parts(choice@),
{
    let message = choice.at("message");
    let mut parts: Vec<AssistantContent> = Vec::new();
    let mut texts: Vec<String> = Vec::new();
    content::collect_text_content_at(message, "content", &mut texts);
    let ghost spoken = content::text_content_at(message@, "content"@);
    proof {
        assert(text::views(texts@) =~= spoken);
    }
    push_texts(texts, &mut parts);
    proof {
        assert(message::assistant_parts(parts@) =~= text_parts(spoken));
    }
    let ghost one = message::assistant_parts(parts@);
    match message.array_at("tool_calls") {
        Some(calls) => push_calls(calls, &mut parts),
        None => {
            proof {
                assert(one + Seq::<AssistantPart>::empty() =~= one);
            }
        },
    }
    let ghost two = message::assistant_parts(parts@);
    proof {
        assert(two + Seq::<AssistantPart>::empty() =~= two);
    }
    if let Some(function_call) = message.get("function_call") {
        if let Some(call) = content::parse_openai_tool_call(
            function_call,
            "function_call_0".to_owned(),
        ) {
            let part = AssistantContent::ToolCall(call);
            proof {
                assert(message::assistant_parts(parts@.push(part)) =~= two + seq![part@]);
            }
            parts.push(part);
        }
    }
    proof {
        assert(message::assistant_parts(parts@) == message_parts(message@));
    }
    if parts.is_empty() {
        match parse_openai_reasoning_fallback(message) {
            Some(reasoning) => {
                parts.push(AssistantContent::Text(Text { text: reasoning }));
                proof {
                    assert(message::assistant_parts(parts@) =~= seq![
                        AssistantPart::Text(reasoning@),
                    ]);
                }
            },
            None => {
                if let Some(t) = choice.at("text").as_str() {
                    if !text::is_blank_text(t) {
                        parts.push(AssistantContent::Text(Text { text: t.to_owned() }));
                        proof {
                            assert(message::assistant_parts(parts@) =~= seq![
                                AssistantPart::Text(t@),
                            ]);
                        }
                    }
                }
            },
        }
    }
    parts
}

/// Reads a chat-completions reply.
pub fn parse_openai_response(body: Json, provider_label: &str) -> (response: Result<
    CompletionResponse,
    CompletionError,
>)
    ensures
        message::response_result(response) == openai_reply(body@, provider_label@),
        response is Ok ==> response->Ok_0.choice@.len() > 0,
{
    let choice = match body.at("choices").as_array() {
        Some(choices) => if choices.len() > 0 {
            &choices[0]
        } else {
            return Err(CompletionError::ResponseError("missing choices array".to_owned()));
        },
        None => {
            return Err(CompletionError::ResponseError("missing choices array".to_owned()));
        },
    };
    let parts = parts_of_choice(choice);
    if parts.is_empty() {
        let finish_reason = text_or(choice.at("finish_reason"), "unknown");
        return Err(
            CompletionError::ResponseError(
                "empty response from ".to_owned().concat(provider_label).concat(
                    " (finish_reason: ",
                ).concat(finish_reason.as_str()).concat(")"),
            ),
        );
    }
    let counts = body.at("usage");
    let usage = make_usage(
        count_of(counts.at("prompt_tokens")),
        count_of(counts.at("completion_tokens")),
        count_of(counts.at("prompt_tokens_details").at("cached_tokens")),
    );
    Ok(
        CompletionResponse {
            choice: parts,
            usage,
            raw_response: RawResponse { body },
            message_id: None,
        },
    )
}

} // verus!
