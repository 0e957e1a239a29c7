//! A conversation in the JSON that each kind of provider takes.
use crate::json;
use crate::json::{Json, JsonView};
use crate::llm::message;
use crate::llm::message::{
    AssistantContent, AssistantPart, DocumentSourceKind, Image, ImageView, Message, MessageView,
    Reasoning, ReasoningContent, ReasoningPart, SourceView, ToolCall, ToolCallView, ToolResult,
    ToolResultContent, ToolResultPart, UserContent, UserPart,
};
use crate::llm::response;
use crate::text;
use vstd::prelude::*;

verus! {

// ---------------------------------------------------------------------------
// Specification: the pieces
// ---------------------------------------------------------------------------

/// A value as a sequence of at most one.
pub open spec fn one_or_none(value: Option<JsonView>) -> Seq<JsonView> {
    match value {
        Some(v) => seq![v],
        None => Seq::empty(),
    }
}

/// A text value.
pub open spec fn str_value(s: Seq<char>) -> JsonView {
    JsonView::Str(s)
}

/// An object of a type and a text.
pub open spec fn typed_text(kind: Seq<char>, t: Seq<char>) -> JsonView {
    json::empty_object().with("type"@, str_value(kind)).with("text"@, str_value(t))
}

/// An object of a role and content.
pub open spec fn role_content(role: Seq<char>, content: JsonView) -> JsonView {
    json::empty_object().with("role"@, str_value(role)).with("content"@, content)
}

/// The id by which a tool call and its result are matched: the call id where there
/// is one that is not empty, else the id.
pub open spec fn preferred_id(id: Seq<char>, call_id: Option<Seq<char>>) -> Seq<char> {
    match call_id {
        Some(c) => if c.len() > 0 {
            c
        } else {
            id
        },
        None => id,
    }
}

/// The texts among the parts of a tool result, in order.
pub open spec fn result_texts(content: Seq<ToolResultPart>) -> Seq<Seq<char>>
    decreases content.len(),
{
    if content.len() == 0 {
        Seq::empty()
    } else {
        match content.last() {
            ToolResultPart::Text(t) => result_texts(content.drop_last()).push(t),
            _ => result_texts(content.drop_last()),
        }
    }
}

/// A tool result as one text.
pub open spec fn result_text(content: Seq<ToolResultPart>) -> Seq<char> {
    text::joined(result_texts(content), "\n"@)
}

/// The readable text of a reasoning block, unless it is blank.
pub open spec fn reasoning_text(part: ReasoningPart) -> Option<Seq<char>> {
    match part {
        ReasoningPart::Text { text: t, .. } => if text::is_blank(t) {
            None
        } else {
            Some(t)
        },
        ReasoningPart::Summary(t) => if text::is_blank(t) {
            None
        } else {
            Some(t)
        },
        _ => None,
    }
}

/// The readable texts of reasoning blocks, in order.
pub open spec fn reasoning_texts(content: Seq<ReasoningPart>) -> Seq<Seq<char>>
    decreases content.len(),
{
    if content.len() == 0 {
        Seq::empty()
    } else {
        match reasoning_text(content.last()) {
            Some(t) => reasoning_texts(content.drop_last()).push(t),
            None => reasoning_texts(content.drop_last()),
        }
    }
}

/// The MIME type of an image; JPEG where it has none.
pub open spec fn image_mime(image: ImageView) -> Seq<char> {
    match image.media_type {
        Some(kind) => message::mime_type(kind),
        None => "image/jpeg"@,
    }
}

/// Base64 data as a data URL.
pub open spec fn data_url(media_type: Seq<char>, data: Seq<char>) -> Seq<char> {
    "data:"@ + media_type + ";base64,"@ + data
}

/// An image as an Anthropic content block.
pub open spec fn anthropic_image(image: ImageView) -> Option<JsonView> {
    match image.data {
        SourceView::Base64(data) => Some(
            json::empty_object().with("type"@, str_value("image"@)).with(
                "source"@,
                json::empty_object().with("type"@, str_value("base64"@)).with(
                    "media_type"@,
                    str_value(image_mime(image)),
                ).with("data"@, str_value(data)),
            ),
        ),
        SourceView::Url(url) => Some(
            json::empty_object().with("type"@, str_value("image"@)).with(
                "source"@,
                json::empty_object().with("type"@, str_value("url"@)).with("url"@, str_value(url)),
            ),
        ),
        SourceView::Other => None,
    }
}

/// The URL of an image, where it has one or can be given one.
pub open spec fn image_url(image: ImageView) -> Option<Seq<char>> {
    match image.data {
        SourceView::Base64(data) => Some(data_url(image_mime(image), data)),
        SourceView::Url(url) => Some(url),
        SourceView::Other => None,
    }
}

/// An image as a chat-completions content part.
pub open spec fn openai_image(image: ImageView) -> Option<JsonView> {
    match image_url(image) {
        Some(url) => Some(
            json::empty_object().with("type"@, str_value("image_url"@)).with(
                "image_url"@,
                json::empty_object().with("url"@, str_value(url)),
            ),
        ),
        None => None,
    }
}

/// An image as a content part of the Responses API.
pub open spec fn responses_image(image: ImageView) -> Option<JsonView> {
    match image_url(image) {
        Some(url) => Some(
            json::empty_object().with("type"@, str_value("input_image"@)).with(
                "image_url"@,
                str_value(url),
            ),
        ),
        None => None,
    }
}

// ---------------------------------------------------------------------------
// Specification: Anthropic
// ---------------------------------------------------------------------------

/// A part of a user message for Anthropic. Blank text is left out.
pub open spec fn anthropic_user_part(part: UserPart) -> Seq<JsonView> {
    match part {
        UserPart::Text(t) => if text::is_blank(t) {
            Seq::empty()
        } else {
            seq![typed_text("text"@, t)]
        },
        UserPart::Image(image) => one_or_none(anthropic_image(image)),
        UserPart::ToolResult { id, content, .. } => seq![
            json::empty_object().with("type"@, str_value("tool_result"@)).with(
                "tool_use_id"@,
                str_value(id),
            ).with("content"@, str_value(result_text(content))),
        ],
        UserPart::Other => Seq::empty(),
    }
}

/// A part of an assistant message for Anthropic. Blank text is left out.
pub open spec fn anthropic_assistant_part(part: AssistantPart) -> Seq<JsonView> {
    match part {
        AssistantPart::Text(t) => if text::is_blank(t) {
            Seq::empty()
        } else {
            seq![typed_text("text"@, t)]
        },
        AssistantPart::ToolCall(call) => seq![
            json::empty_object().with("type"@, str_value("tool_use"@)).with(
                "id"@,
                str_value(call.id),
            ).with("name"@, str_value(call.name)).with("input"@, call.arguments),
        ],
        _ => Seq::empty(),
    }
}

pub open spec fn anthropic_user_parts(parts: Seq<UserPart>) -> Seq<JsonView>
    decreases parts.len(),
{
    if parts.len() == 0 {
        Seq::empty()
    } else {
        anthropic_user_parts(parts.drop_last()) + anthropic_user_part(parts.last())
    }
}

pub open spec fn anthropic_assistant_parts(parts: Seq<AssistantPart>) -> Seq<JsonView>
    decreases parts.len(),
{
    if parts.len() == 0 {
        Seq::empty()
    } else {
        anthropic_assistant_parts(parts.drop_last()) + anthropic_assistant_part(parts.last())
    }
}

/// A message for Anthropic. One that has no parts is left out.
pub open spec fn anthropic_message(m: MessageView) -> Seq<JsonView> {
    match m {
        MessageView::User(content) => {
            let parts = anthropic_user_parts(content);
            if parts.len() == 0 {
                Seq::empty()
            } else {
                seq![role_content("user"@, JsonView::Array(parts))]
            }
        },
        MessageView::Assistant { content, .. } => {
            let parts = anthropic_assistant_parts(content);
            if parts.len() == 0 {
                Seq::empty()
            } else {
                seq![role_content("assistant"@, JsonView::Array(parts))]
            }
        },
    }
}

/// A conversation for Anthropic.
pub open spec fn anthropic_messages(messages: Seq<MessageView>) -> Seq<JsonView>
    decreases messages.len(),
{
    if messages.len() == 0 {
        Seq::empty()
    } else {
        anthropic_messages(messages.drop_last()) + anthropic_message(messages.last())
    }
}

// ---------------------------------------------------------------------------
// Specification: chat completions
// ---------------------------------------------------------------------------

/// The content parts of a user message for chat completions.
pub open spec fn openai_content_parts(parts: Seq<UserPart>) -> Seq<JsonView>
    decreases parts.len(),
{
    if parts.len() == 0 {
        Seq::empty()
    } else {
        openai_content_parts(parts.drop_last()) + (match parts.last() {
            UserPart::Text(t) => seq![typed_text("text"@, t)],
            UserPart::Image(image) => one_or_none(openai_image(image)),
            _ => Seq::empty(),
        })
    }
}

/// A tool result as a message of its own.
pub open spec fn openai_tool_result(
    id: Seq<char>,
    call_id: Option<Seq<char>>,
    content: Seq<ToolResultPart>,
) -> JsonView {
    json::empty_object().with("role"@, str_value("tool"@)).with(
        "tool_call_id"@,
        str_value(preferred_id(id, call_id)),
    ).with("content"@, str_value(result_text(content)))
}

/// The tool results of a user message for chat completions.
pub open spec fn openai_tool_results(parts: Seq<UserPart>) -> Seq<JsonView>
    decreases parts.len(),
{
    if parts.len() == 0 {
        Seq::empty()
    } else {
        openai_tool_results(parts.drop_last()) + (match parts.last() {
            UserPart::ToolResult { id, call_id, content } => seq![
                openai_tool_result(id, call_id, content),
            ],
            _ => Seq::empty(),
        })
    }
}

/// The content of a user message: plain text where one text is all there is, else
/// the list of parts.
pub open spec fn openai_user_content(parts: Seq<JsonView>) -> JsonView {
    if parts.len() == 1 && parts[0].at("type"@).text() == Some("text"@) {
        parts[0].at("text"@)
    } else {
        JsonView::Array(parts)
    }
}

/// A tool call for chat completions: its arguments are JSON in a string.
pub open spec fn openai_tool_call(call: ToolCallView) -> JsonView {
    json::empty_object().with("id"@, str_value(preferred_id(call.id, call.call_id))).with(
        "type"@,
        str_value("function"@),
    ).with(
        "function"@,
        json::empty_object().with("name"@, str_value(call.name)).with(
            "arguments"@,
            str_value(json::printed(call.arguments)),
        ),
    )
}

/// The texts among the parts of an assistant message.
pub open spec fn spoken_texts(parts: Seq<AssistantPart>) -> Seq<Seq<char>>
    decreases parts.len(),
{
    if parts.len() == 0 {
        Seq::empty()
    } else {
        match parts.last() {
            AssistantPart::Text(t) => spoken_texts(parts.drop_last()).push(t),
            _ => spoken_texts(parts.drop_last()),
        }
    }
}

/// The readable reasoning among the parts of an assistant message.
pub open spec fn thought_texts(parts: Seq<AssistantPart>) -> Seq<Seq<char>>
    decreases parts.len(),
{
    if parts.len() == 0 {
        Seq::empty()
    } else {
        thought_texts(parts.drop_last()) + (match parts.last() {
            AssistantPart::Reasoning { content, .. } => reasoning_texts(content),
            _ => Seq::empty(),
        })
    }
}

/// The message carries reasoning, readable or not.
pub open spec fn has_reasoning(parts: Seq<AssistantPart>) -> bool
    decreases parts.len(),
{
    parts.len() > 0 && (parts.last() is Reasoning || has_reasoning(parts.drop_last()))
}

/// The tool calls among the parts of an assistant message, for chat completions.
pub open spec fn openai_calls(parts: Seq<AssistantPart>) -> Seq<JsonView>
    decreases parts.len(),
{
    if parts.len() == 0 {
        Seq::empty()
    } else {
        match parts.last() {
            AssistantPart::ToolCall(call) => openai_calls(parts.drop_last()).push(
                openai_tool_call(call),
            ),
            _ => openai_calls(parts.drop_last()),
        }
    }
}

/// An assistant message for chat completions. Content is `null` where there is no
/// text but a tool call or reasoning, and the reasoning stands beside it even
/// where none of it is readable.
pub open spec fn openai_assistant(parts: Seq<AssistantPart>) -> JsonView {
    let texts = spoken_texts(parts);
    let calls = openai_calls(parts);
    let bare = json::empty_object().with("role"@, str_value("assistant"@));
    let with_text = if texts.len() > 0 {
        bare.with("content"@, str_value(text::joined(texts, "\n"@)))
    } else if calls.len() > 0 || has_reasoning(parts) {
        bare.with("content"@, JsonView::Null)
    } else {
        bare
    };
    let with_reasoning = if has_reasoning(parts) {
        with_text.with(
            "reasoning_content"@,
            str_value(text::joined(thought_texts(parts), "\n"@)),
        )
    } else {
        with_text
    };
    if calls.len() > 0 {
        with_reasoning.with("tool_calls"@, JsonView::Array(calls))
    } else {
        with_reasoning
    }
}

/// A message for chat completions: tool results follow the rest of a user message
/// as messages of their own.
pub open spec fn openai_message(m: MessageView) -> Seq<JsonView> {
    match m {
        MessageView::User(content) => {
            let parts = openai_content_parts(content);
            (if parts.len() == 0 {
                Seq::empty()
            } else {
                seq![role_content("user"@, openai_user_content(parts))]
            }) + openai_tool_results(content)
        },
        MessageView::Assistant { content, .. } => seq![openai_assistant(content)],
    }
}

/// A conversation for chat completions.
pub open spec fn openai_messages(messages: Seq<MessageView>) -> Seq<JsonView>
    decreases messages.len(),
{
    if messages.len() == 0 {
        Seq::empty()
    } else {
        openai_messages(messages.drop_last()) + openai_message(messages.last())
    }
}

// ---------------------------------------------------------------------------
// Specification: the Responses API
// ---------------------------------------------------------------------------

/// The content parts of a user message for the Responses API.
pub open spec fn responses_content_parts(parts: Seq<UserPart>) -> Seq<JsonView>
    decreases parts.len(),
{
    if parts.len() == 0 {
        Seq::empty()
    } else {
        responses_content_parts(parts.drop_last()) + (match parts.last() {
            UserPart::Text(t) => seq![typed_text("input_text"@, t)],
            UserPart::Image(image) => one_or_none(responses_image(image)),
            _ => Seq::empty(),
        })
    }
}

/// The tool results of a user message for the Responses API.
pub open spec fn responses_tool_results(parts: Seq<UserPart>) -> Seq<JsonView>
    decreases parts.len(),
{
    if parts.len() == 0 {
        Seq::empty()
    } else {
        responses_tool_results(parts.drop_last()) + (match parts.last() {
            UserPart::ToolResult { id, call_id, content } => seq![
                json::empty_object().with("type"@, str_value("function_call_output"@)).with(
                    "call_id"@,
                    str_value(preferred_id(id, call_id)),
                ).with("output"@, str_value(result_text(content))),
            ],
            _ => Seq::empty(),
        })
    }
}

/// A tool call for the Responses API.
pub open spec fn responses_tool_call(call: ToolCallView) -> JsonView {
    json::empty_object().with("type"@, str_value("function_call"@)).with(
        "name"@,
        str_value(call.name),
    ).with("arguments"@, str_value(json::printed(call.arguments))).with(
        "call_id"@,
        str_value(preferred_id(call.id, call.call_id)),
    )
}

/// The tool calls among the parts of an assistant message, for the Responses API.
pub open spec fn responses_calls(parts: Seq<AssistantPart>) -> Seq<JsonView>
    decreases parts.len(),
{
    if parts.len() == 0 {
        Seq::empty()
    } else {
        match parts.last() {
            AssistantPart::ToolCall(call) => responses_calls(parts.drop_last()).push(
                responses_tool_call(call),
            ),
            _ => responses_calls(parts.drop_last()),
        }
    }
}

/// Texts as output parts of the Responses API.
pub open spec fn responses_texts(texts: Seq<Seq<char>>) -> Seq<JsonView> {
    texts.map_values(|t: Seq<char>| typed_text("output_text"@, t))
}

/// An assistant message proper for the Responses API. Without text and without
/// reasoning there is none.
pub open spec fn responses_assistant(parts: Seq<AssistantPart>) -> Seq<JsonView> {
    let texts = spoken_texts(parts);
    let plain = role_content("assistant"@, JsonView::Array(responses_texts(texts)));
    if has_reasoning(parts) {
        seq![
            plain.with(
                "reasoning_content"@,
                str_value(text::joined(thought_texts(parts), "\n"@)),
            ),
        ]
    } else if texts.len() > 0 {
        seq![plain]
    } else {
        Seq::empty()
    }
}

/// A message for the Responses API: tool results go before the rest of a user
/// message, tool calls behind the rest of an assistant message.
pub open spec fn responses_message(m: MessageView) -> Seq<JsonView> {
    match m {
        MessageView::User(content) => {
            let parts = responses_content_parts(content);
            responses_tool_results(content) + (if parts.len() == 0 {
                Seq::empty()
            } else {
                seq![role_content("user"@, JsonView::Array(parts))]
            })
        },
        MessageView::Assistant { content, .. } => responses_assistant(content) + responses_calls(
            content,
        ),
    }
}

/// A conversation for the Responses API.
pub open spec fn responses_input(messages: Seq<MessageView>) -> Seq<JsonView>
    decreases messages.len(),
{
    if messages.len() == 0 {
        Seq::empty()
    } else {
        responses_input(messages.drop_last()) + responses_message(messages.last())
    }
}

// ---------------------------------------------------------------------------
// Laws
// ---------------------------------------------------------------------------

/// A message whose parts are all blank text is not sent to Anthropic.
pub proof fn law_blank_assistant_is_not_sent_to_anthropic(
    id: Option<Seq<char>>,
    content: Seq<AssistantPart>,
)
    requires
        forall|i: int|
            0 <= i < content.len() ==> ((#[trigger] content[i]) matches AssistantPart::Text(t)
                && text::is_blank(t)),
    ensures
        anthropic_message(MessageView::Assistant { id, content }) == Seq::<JsonView>::empty(),
    decreases content.len(),
{
    if content.len() > 0 {
        let rest = content.drop_last();
        assert forall|i: int| 0 <= i < rest.len() implies ((#[trigger] rest[i]) matches
            AssistantPart::Text(t) && text::is_blank(t)) by {
            assert(rest[i] == content[i]);
        }
        law_blank_assistant_is_not_sent_to_anthropic(id, rest);
        assert(content.last() == content[content.len() - 1]);
        assert(anthropic_assistant_parts(content) =~= anthropic_assistant_parts(rest));
    }
}

/// The blank that stands for an Anthropic reply without parts is not sent back to
/// Anthropic.
pub proof fn law_end_turn_placeholder_is_not_sent_back(body: JsonView, id: Option<Seq<char>>)
    requires
        body.at("content"@).items() matches Some(blocks) && response::anthropic_blocks(
            blocks,
        ).len() == 0,
        response::anthropic_reply(body) is Ok,
    ensures
        anthropic_message(
            MessageView::Assistant { id, content: response::anthropic_reply(body)->Ok_0.choice },
        ) == Seq::<JsonView>::empty(),
{
    reveal_strlit(" ");
    let blank = " "@;
    assert(blank.drop_first().len() == 0);
    assert(text::trimmed_start(blank) == text::trimmed_start(blank.drop_first()));
    assert(text::is_blank(blank));
    law_blank_assistant_is_not_sent_to_anthropic(
        id,
        response::anthropic_reply(body)->Ok_0.choice,
    );
}

/// A tool call and the result that carries its ids go out under the same id, to
/// chat completions and to the Responses API alike.
pub proof fn law_call_and_result_ids_agree(
    call: ToolCallView,
    result_content: Seq<ToolResultPart>,
)
    ensures
        openai_tool_call(call).text_at("id"@) == openai_tool_result(
            call.id,
            call.call_id,
            result_content,
        ).text_at("tool_call_id"@),
        openai_tool_call(call).text_at("id"@) == responses_tool_call(call).text_at("call_id"@),
        openai_tool_call(call).text_at("id"@) == Some(preferred_id(call.id, call.call_id)),
{
    reveal_strlit("id");
    reveal_strlit("type");
    reveal_strlit("function");
    reveal_strlit("tool_call_id");
    reveal_strlit("content");
    reveal_strlit("call_id");
    let wanted = str_value(preferred_id(call.id, call.call_id));
    let function = json::empty_object().with("name"@, str_value(call.name)).with(
        "arguments"@,
        str_value(json::printed(call.arguments)),
    );
    assert("id"@.len() == 2);
    assert("type"@.len() == 4);
    assert("function"@.len() == 8);
    assert("tool_call_id"@.len() == 12);
    assert("content"@.len() == 7);
    let c0 = json::empty_object();
    let c1 = c0.with("id"@, wanted);
    let c2 = c1.with("type"@, str_value("function"@));
    json::lemma_with_then_get(c0, "id"@, wanted, "id"@);
    json::lemma_with_then_get(c1, "type"@, str_value("function"@), "id"@);
    json::lemma_with_then_get(c2, "function"@, function, "id"@);
    let r1 = json::empty_object().with("role"@, str_value("tool"@));
    let r2 = r1.with("tool_call_id"@, wanted);
    json::lemma_with_then_get(r1, "tool_call_id"@, wanted, "tool_call_id"@);
    json::lemma_with_then_get(
        r2,
        "content"@,
        str_value(result_text(result_content)),
        "tool_call_id"@,
    );
    let s = json::empty_object().with("type"@, str_value("function_call"@)).with(
        "name"@,
        str_value(call.name),
    ).with("arguments"@, str_value(json::printed(call.arguments)));
    json::lemma_with_then_get(s, "call_id"@, wanted, "call_id"@);
}

// ---------------------------------------------------------------------------
// Executable functions: the pieces
// ---------------------------------------------------------------------------

/// An object of a type and a text.
fn make_typed_text(kind: &str, t: &str) -> (value: Json)
    ensures
        value@ == typed_text(kind@, t@),
{
    Json::object().with("type", Json::string(kind)).with("text", Json::string(t))
}

/// An object of a role and content.
pub(crate) fn make_role_content(role: &str, content: Json) -> (value: Json)
    ensures
        value@ == role_content(role@, content@),
{
    Json::object().with("role", Json::string(role)).with("content", content)
}

/// The id by which a tool call and its result are matched.
fn pick_id(id: &String, call_id: &Option<String>) -> (picked: String)
    ensures
        picked@ == preferred_id(id@, text::view_of(*call_id)),
{
    match call_id {
        Some(c) => if c.as_str().is_empty() {
            id.clone()
        } else {
            c.clone()
        },
        None => id.clone(),
    }
}

/// A tool result as one text.
pub fn tool_result_content_to_string(content: &Vec<ToolResultContent>) -> (t: String)
    ensures
        t@ == result_text(content@.map_values(|c: ToolResultContent| c@)),
{
    let ghost all = content@.map_values(|c: ToolResultContent| c@);
    let mut texts: Vec<String> = Vec::new();
    let mut i: usize = 0;
    proof {
        assert(text::views(texts@) =~= result_texts(all.subrange(0, 0)));
    }
    while i < content.len()
        invariant
            i <= content@.len(),
            all == content@.map_values(|c: ToolResultContent| c@),
            text::views(texts@) == result_texts(all.subrange(0, i as int)),
        decreases content@.len() - i,
    {
        let ghost before = text::views(texts@);
        proof {
            let next = all.subrange(0, i as int + 1);
            assert(next.drop_last() =~= all.subrange(0, i as int));
            assert(next.last() == content@[i as int]@);
        }
        if let ToolResultContent::Text(t) = &content[i] {
            let copy = t.text.clone();
            proof {
                assert(text::views(texts@.push(copy)) =~= before.push(copy@));
            }
            texts.push(copy);
        }
        i += 1;
    }
    proof {
        assert(all.subrange(0, all.len() as int) =~= all);
    }
    text::join(&texts, "\n")
}

/// The readable text of a reasoning block, unless it is blank.
fn text_of_reasoning(part: &ReasoningContent) -> (t: Option<String>)
    ensures
        text::view_of(t) == reasoning_text(part@),
{
    let found = match part {
        ReasoningContent::Text { text, .. } => text,
        ReasoningContent::Summary(summary) => summary,
        _ => {
            return None;
        },
    };
    if text::is_blank_text(found.as_str()) {
        None
    } else {
        Some(found.clone())
    }
}

/// The readable texts of a reasoning.
pub fn collect_reasoning_text_parts(reasoning: &Reasoning) -> (texts: Vec<String>)
    ensures
        text::views(texts@) == reasoning_texts(message::reasoning_parts(reasoning.content@)),
{
    let ghost all = message::reasoning_parts(reasoning.content@);
    let mut texts: Vec<String> = Vec::new();
    let mut i: usize = 0;
    proof {
        assert(text::views(texts@) =~= reasoning_texts(all.subrange(0, 0)));
    }
    while i < reasoning.content.len()
        invariant
            i <= reasoning.content@.len(),
            all == message::reasoning_parts(reasoning.content@),
            text::views(texts@) == reasoning_texts(all.subrange(0, i as int)),
        decreases reasoning.content@.len() - i,
    {
        let ghost before = text::views(texts@);
        proof {
            let next = all.subrange(0, i as int + 1);
            assert(next.drop_last() =~= all.subrange(0, i as int));
            assert(next.last() == reasoning.content@[i as int]@);
        }
        if let Some(t) = text_of_reasoning(&reasoning.content[i]) {
            proof {
                assert(text::views(texts@.push(t)) =~= before.push(t@));
            }
            texts.push(t);
        }
        i += 1;
    }
    proof {
        assert(all.subrange(0, all.len() as int) =~= all);
    }
    texts
}

/// The MIME type of an image; JPEG where it has none.
fn mime_of_image(image: &Image) -> (name: &'static str)
    ensures
        name@ == image_mime(image@),
{
    match &image.media_type {
        Some(kind) => kind.to_mime_type(),
        None => "image/jpeg",
    }
}

/// An image as an Anthropic content block.
pub fn convert_image_anthropic(image: &Image) -> (value: Option<Json>)
    ensures
        json::json_view_of(value) == anthropic_image(image@),
{
    match &image.data {
        DocumentSourceKind::Base64(data) => {
            let source = Json::object().with("type", Json::string("base64")).with(
                "media_type",
                Json::string(mime_of_image(image)),
            ).with("data", Json::string(data.as_str()));
            Some(Json::object().with("type", Json::string("image")).with("source", source))
        },
        DocumentSourceKind::Url(url) => {
            let source = Json::object().with("type", Json::string("url")).with(
                "url",
                Json::string(url.as_str()),
            );
            Some(Json::object().with("type", Json::string("image")).with("source", source))
        },
        DocumentSourceKind::Other => None,
    }
}

/// The URL of an image, where it has one or can be given one.
fn url_of_image(image: &Image) -> (url: Option<String>)
    ensures
        text::view_of(url) == image_url(image@),
{
    match &image.data {
        DocumentSourceKind::Base64(data) => Some(
            "data:".to_owned().concat(mime_of_image(image)).concat(";base64,").concat(
                data.as_str(),
            ),
        ),
        DocumentSourceKind::Url(url) => Some(url.clone()),
        DocumentSourceKind::Other => None,
    }
}

/// An image as a chat-completions content part.
pub fn convert_image_openai(image: &Image) -> (value: Option<Json>)
    ensures
        json::json_view_of(value) == openai_image(image@),
{
    match url_of_image(image) {
        Some(url) => Some(
            Json::object().with("type", Json::string("image_url")).with(
                "image_url",
                Json::object().with("url", Json::Str(url)),
            ),
        ),
        None => None,
    }
}

/// An image as a content part of the Responses API.
pub fn convert_image_openai_responses(image: &Image) -> (value: Option<Json>)
    ensures
        json::json_view_of(value) == responses_image(image@),
{
    match url_of_image(image) {
        Some(url) => Some(
            Json::object().with("type", Json::string("input_image")).with(
                "image_url",
                Json::Str(url),
            ),
        ),
        None => None,
    }
}

/// Appends a value.
fn push_value(values: &mut Vec<Json>, value: Json)
    ensures
        json::json_views(final(values)@) == json::json_views(old(values)@).push(value@),
        json::json_views(final(values)@) == json::json_views(old(values)@) + seq![value@],
{
    let ghost before = json::json_views(values@);
    values.push(value);
    proof {
        assert(json::json_views(values@) =~= before.push(value@));
        assert(json::json_views(values@) =~= before + seq![value@]);
    }
}

/// Appends a value where there is one.
fn push_option(values: &mut Vec<Json>, value: Option<Json>)
    ensures
        json::json_views(final(values)@) == json::json_views(old(values)@) + one_or_none(
            json::json_view_of(value),
        ),
{
    let ghost before = json::json_views(values@);
    match value {
        Some(v) => push_value(values, v),
        None => {
            proof {
                assert(before + Seq::<JsonView>::empty() =~= before);
            }
        },
    }
}

/// Appends values.
fn push_values(values: &mut Vec<Json>, more: Vec<Json>)
    ensures
        json::json_views(final(values)@) == json::json_views(old(values)@) + json::json_views(
            more@,
        ),
{
    let mut more = more;
    let ghost had = values@;
    let ghost added = more@;
    values.append(&mut more);
    proof {
        assert(values@ =~= had + added);
        assert(json::json_views(values@) =~= json::json_views(had) + json::json_views(added));
    }
}

/// Adding nothing changes nothing.
proof fn lemma_add_nothing(values: Seq<JsonView>)
    ensures
        values + Seq::<JsonView>::empty() == values,
{
    assert(values + Seq::<JsonView>::empty() =~= values);
}

// ---------------------------------------------------------------------------
// Executable functions: Anthropic
// ---------------------------------------------------------------------------

/// Appends a part of a user message for Anthropic.
fn push_anthropic_user_part(values: &mut Vec<Json>, part: &UserContent)
    ensures
        json::json_views(final(values)@) == json::json_views(old(values)@) + anthropic_user_part(
            part@,
        ),
{
    proof {
        lemma_add_nothing(json::json_views(values@));
    }
    match part {
        UserContent::Text(t) => {
            if !text::is_blank_text(t.text.as_str()) {
                push_value(values, make_typed_text("text", t.text.as_str()));
            }
        },
        UserContent::Image(image) => push_option(values, convert_image_anthropic(image)),
        UserContent::ToolResult(result) => {
            let value = Json::object().with("type", Json::string("tool_result")).with(
                "tool_use_id",
                Json::string(result.id.as_str()),
            ).with("content", Json::Str(tool_result_content_to_string(&result.content)));
            push_value(values, value);
        },
        UserContent::Other => {},
    }
}

/// Appends a part of an assistant message for Anthropic.
fn push_anthropic_assistant_part(values: &mut Vec<Json>, part: &AssistantContent)
    ensures
        json::json_views(final(values)@) == json::json_views(old(values)@)
            + anthropic_assistant_part(part@),
{
    proof {
        lemma_add_nothing(json::json_views(values@));
    }
    match part {
        AssistantContent::Text(t) => {
            if !text::is_blank_text(t.text.as_str()) {
                push_value(values, make_typed_text("text", t.text.as_str()));
            }
        },
        AssistantContent::ToolCall(call) => {
            let value = Json::object().with("type", Json::string("tool_use")).with(
                "id",
                Json::string(call.id.as_str()),
            ).with("name", Json::string(call.function.name.as_str())).with(
                "input",
                call.function.arguments.duplicate(),
            );
            push_value(values, value);
        },
        _ => {},
    }
}

/// Appends a message for Anthropic.
fn push_anthropic_message(values: &mut Vec<Json>, m: &Message)
    ensures
        json::json_views(final(values)@) == json::json_views(old(values)@) + anthropic_message(m@),
{
    proof {
        lemma_add_nothing(json::json_views(values@));
    }
    let mut parts: Vec<Json> = Vec::new();
    proof {
        assert(json::json_views(parts@) =~= Seq::<JsonView>::empty());
    }
    match m {
        Message::User { content } => {
            let ghost all = message::user_parts(content@);
            let mut i: usize = 0;
            proof {
                assert(all.subrange(0, 0) =~= Seq::<UserPart>::empty());
            }
            while i < content.len()
                invariant
                    i <= content@.len(),
                    all == message::user_parts(content@),
                    json::json_views(parts@) == anthropic_user_parts(all.subrange(0, i as int)),
                decreases content@.len() - i,
            {
                proof {
                    let next = all.subrange(0, i as int + 1);
                    assert(next.drop_last() =~= all.subrange(0, i as int));
                    assert(next.last() == content@[i as int]@);
                }
                push_anthropic_user_part(&mut parts, &content[i]);
                i += 1;
            }
            proof {
                assert(all.subrange(0, all.len() as int) =~= all);
            }
            if !parts.is_empty() {
                push_value(values, make_role_content("user", Json::array(parts)));
            }
        },
        Message::Assistant { content, .. } => {
            let ghost all = message::assistant_parts(content@);
            let mut i: usize = 0;
            proof {
                assert(all.subrange(0, 0) =~= Seq::<AssistantPart>::empty());
            }
            while i < content.len()
                invariant
                    i <= content@.len(),
                    all == message::assistant_parts(content@),
                    json::json_views(parts@) == anthropic_assistant_parts(
                        all.subrange(0, i as int),
                    ),
                decreases content@.len() - i,
            {
                proof {
                    let next = all.subrange(0, i as int + 1);
                    assert(next.drop_last() =~= all.subrange(0, i as int));
                    assert(next.last() == content@[i as int]@);
                }
                push_anthropic_assistant_part(&mut parts, &content[i]);
                i += 1;
            }
            proof {
                assert(all.subrange(0, all.len() as int) =~= all);
            }
            if !parts.is_empty() {
                push_value(values, make_role_content("assistant", Json::array(parts)));
            }
        },
    }
}

/// A conversation for Anthropic.
pub fn convert_messages_to_anthropic(messages: &Vec<Message>) -> (values: Vec<Json>)
    ensures
        json::json_views(values@) == anthropic_messages(message::message_views(messages@)),
{
    let ghost all = message::message_views(messages@);
    let mut values: Vec<Json> = Vec::new();
    let mut i: usize = 0;
    proof {
        assert(all.subrange(0, 0) =~= Seq::<MessageView>::empty());
        assert(json::json_views(values@) =~= Seq::<JsonView>::empty());
    }
    while i < messages.len()
        invariant
            i <= messages@.len(),
            all == message::message_views(messages@),
            json::json_views(values@) == anthropic_messages(all.subrange(0, i as int)),
        decreases messages@.len() - i,
    {
        proof {
            let next = all.subrange(0, i as int + 1);
            assert(next.drop_last() =~= all.subrange(0, i as int));
            assert(next.last() == messages@[i as int]@);
        }
        push_anthropic_message(&mut values, &messages[i]);
        i += 1;
    }
    proof {
        assert(all.subrange(0, all.len() as int) =~= all);
    }
    values
}

// ---------------------------------------------------------------------------
// Executable functions: chat completions
// ---------------------------------------------------------------------------

/// A tool call for chat completions.
fn make_openai_call(call: &ToolCall) -> (value: Json)
    ensures
        value@ == openai_tool_call(call@),
{
    let function = Json::object().with("name", Json::string(call.function.name.as_str())).with(
        "arguments",
        Json::Str(call.function.arguments.to_text()),
    );
    Json::object().with("id", Json::Str(pick_id(&call.id, &call.call_id))).with(
        "type",
        Json::string("function"),
    ).with("function", function)
}

/// A tool result for chat completions.
fn make_openai_result(result: &ToolResult) -> (value: Json)
    ensures
        value@ == openai_tool_result(
            result.id@,
            text::view_of(result.call_id),
            result.content@.map_values(|c: ToolResultContent| c@),
        ),
{
    Json::object().with("role", Json::string("tool")).with(
        "tool_call_id",
        Json::Str(pick_id(&result.id, &result.call_id)),
    ).with("content", Json::Str(tool_result_content_to_string(&result.content)))
}

/// The content of a user message.
fn make_openai_user_content(parts: Vec<Json>) -> (value: Json)
    ensures
        value@ == openai_user_content(json::json_views(parts@)),
{
    let ghost views = json::json_views(parts@);
    if parts.len() == 1 {
        let is_text = match parts[0].at("type").as_str() {
            Some(kind) => text::same(kind, "text"),
            None => false,
        };
        if is_text {
            proof {
                assert(views[0] == parts@[0]@);
            }
            return parts[0].at("text").duplicate();
        }
        proof {
            assert(views[0] == parts@[0]@);
        }
    }
    Json::array(parts)
}

/// Appends a user message for chat completions.
fn push_openai_user(values: &mut Vec<Json>, content: &Vec<UserContent>)
    ensures
        json::json_views(final(values)@) == json::json_views(old(values)@) + openai_message(
            MessageView::User(message::user_parts(content@)),
        ),
{
    let ghost all = message::user_parts(content@);
    let ghost before = json::json_views(values@);
    let mut parts: Vec<Json> = Vec::new();
    let mut results: Vec<Json> = Vec::new();
    let mut i: usize = 0;
    proof {
        assert(all.subrange(0, 0) =~= Seq::<UserPart>::empty());
        assert(json::json_views(parts@) =~= Seq::<JsonView>::empty());
        assert(json::json_views(results@) =~= Seq::<JsonView>::empty());
    }
    while i < content.len()
        invariant
            i <= content@.len(),
            all == message::user_parts(content@),
            json::json_views(parts@) == openai_content_parts(all.subrange(0, i as int)),
            json::json_views(results@) == openai_tool_results(all.subrange(0, i as int)),
        decreases content@.len() - i,
    {
        proof {
            let next = all.subrange(0, i as int + 1);
            assert(next.drop_last() =~= all.subrange(0, i as int));
            assert(next.last() == content@[i as int]@);
            lemma_add_nothing(json::json_views(parts@));
            lemma_add_nothing(json::json_views(results@));
        }
        match &content[i] {
            UserContent::Text(t) => push_value(
                &mut parts,
                make_typed_text("text", t.text.as_str()),
            ),
            UserContent::Image(image) => push_option(&mut parts, convert_image_openai(image)),
            UserContent::ToolResult(result) => push_value(
                &mut results,
                make_openai_result(result),
            ),
            UserContent::Other => {},
        }
        i += 1;
    }
    proof {
        assert(all.subrange(0, all.len() as int) =~= all);
        lemma_add_nothing(before);
    }
    let ghost own = json::json_views(parts@);
    let ghost outcomes = json::json_views(results@);
    if !parts.is_empty() {
        push_value(values, make_role_content("user", make_openai_user_content(parts)));
    }
    push_values(values, results);
    proof {
        let first = if own.len() == 0 {
            Seq::<JsonView>::empty()
        } else {
            seq![role_content("user"@, openai_user_content(own))]
        };
        assert(before + first + outcomes =~= before + (first + outcomes));
    }
}

/// Appends an assistant message for chat completions.
fn push_openai_assistant(values: &mut Vec<Json>, content: &Vec<AssistantContent>)
    ensures
        json::json_views(final(values)@) == json::json_views(old(values)@) + seq![
            openai_assistant(message::assistant_parts(content@)),
        ],
{
    let ghost all = message::assistant_parts(content@);
    let mut texts: Vec<String> = Vec::new();
    let mut reasoning: Vec<String> = Vec::new();
    let mut saw_reasoning = false;
    let mut calls: Vec<Json> = Vec::new();
    let mut i: usize = 0;
    proof {
        assert(all.subrange(0, 0) =~= Seq::<AssistantPart>::empty());
        assert(text::views(texts@) =~= Seq::<Seq<char>>::empty());
        assert(text::views(reasoning@) =~= Seq::<Seq<char>>::empty());
        assert(json::json_views(calls@) =~= Seq::<JsonView>::empty());
    }
    while i < content.len()
        invariant
            i <= content@.len(),
            all == message::assistant_parts(content@),
            text::views(texts@) == spoken_texts(all.subrange(0, i as int)),
            text::views(reasoning@) == thought_texts(all.subrange(0, i as int)),
            saw_reasoning == has_reasoning(all.subrange(0, i as int)),
            json::json_views(calls@) == openai_calls(all.subrange(0, i as int)),
        decreases content@.len() - i,
    {
        let ghost texts0 = text::views(texts@);
        let ghost reasoning0 = text::views(reasoning@);
        proof {
            let next = all.subrange(0, i as int + 1);
            assert(next.drop_last() =~= all.subrange(0, i as int));
            assert(next.last() == content@[i as int]@);
            assert(reasoning0 + Seq::<Seq<char>>::empty() =~= reasoning0);
        }
        match &content[i] {
            AssistantContent::Text(t) => {
                let copy = t.text.clone();
                proof {
                    assert(text::views(texts@.push(copy)) =~= texts0.push(copy@));
                }
                texts.push(copy);
            },
            AssistantContent::Reasoning(r) => {
                saw_reasoning = true;
                let mut more = collect_reasoning_text_parts(r);
                let ghost had = reasoning@;
                let ghost added = more@;
                reasoning.append(&mut more);
                proof {
                    assert(reasoning@ =~= had + added);
                    assert(text::views(reasoning@) =~= reasoning0 + text::views(added));
                }
            },
            AssistantContent::ToolCall(call) => push_value(&mut calls, make_openai_call(call)),
            AssistantContent::Image(_) => {},
        }
        i += 1;
    }
    proof {
        assert(all.subrange(0, all.len() as int) =~= all);
    }
    let mut msg = Json::object().with("role", Json::string("assistant"));
    let has_calls = !calls.is_empty();
    if !texts.is_empty() {
        msg = msg.with("content", Json::Str(text::join(&texts, "\n")));
    } else if has_calls || saw_reasoning {
        msg = msg.with("content", Json::Null);
    }
    if saw_reasoning {
        msg = msg.with("reasoning_content", Json::Str(text::join(&reasoning, "\n")));
    }
    if has_calls {
        msg = msg.with("tool_calls", Json::array(calls));
    }
    proof {
        assert(msg@ == openai_assistant(all));
    }
    push_value(values, msg);
}

/// A conversation for chat completions.
pub fn convert_messages_to_openai(messages: &Vec<Message>) -> (values: Vec<Json>)
    ensures
        json::json_views(values@) == openai_messages(message::message_views(messages@)),
{
    let ghost all = message::message_views(messages@);
    let mut values: Vec<Json> = Vec::new();
    let mut i: usize = 0;
    proof {
        assert(all.subrange(0, 0) =~= Seq::<MessageView>::empty());
        assert(json::json_views(values@) =~= Seq::<JsonView>::empty());
    }
    while i < messages.len()
        invariant
            i <= messages@.len(),
            all == message::message_views(messages@),
            json::json_views(values@) == openai_messages(all.subrange(0, i as int)),
        decreases messages@.len() - i,
    {
        proof {
            let next = all.subrange(0, i as int + 1);
            assert(next.drop_last() =~= all.subrange(0, i as int));
            assert(next.last() == messages@[i as int]@);
        }
        match &messages[i] {
            Message::User { content } => push_openai_user(&mut values, content),
            Message::Assistant { content, .. } => push_openai_assistant(&mut values, content),
        }
        i += 1;
    }
    proof {
        assert(all.subrange(0, all.len() as int) =~= all);
    }
    values
}

// ---------------------------------------------------------------------------
// Executable functions: the Responses API
// ---------------------------------------------------------------------------

/// A tool result for the Responses API.
fn make_responses_result(result: &ToolResult) -> (value: Json)
    ensures
        seq![value@] == (match UserContent::ToolResult(*result)@ {
            UserPart::ToolResult { id, call_id, content } => seq![
                json::empty_object().with("type"@, str_value("function_call_output"@)).with(
                    "call_id"@,
                    str_value(preferred_id(id, call_id)),
                ).with("output"@, str_value(result_text(content))),
            ],
            _ => Seq::empty(),
        }),
{
    Json::object().with("type", Json::string("function_call_output")).with(
        "call_id",
        Json::Str(pick_id(&result.id, &result.call_id)),
    ).with("output", Json::Str(tool_result_content_to_string(&result.content)))
}

/// A tool call for the Responses API.
fn make_responses_call(call: &ToolCall) -> (value: Json)
    ensures
        value@ == responses_tool_call(call@),
{
    Json::object().with("type", Json::string("function_call")).with(
        "name",
        Json::string(call.function.name.as_str()),
    ).with("arguments", Json::Str(call.function.arguments.to_text())).with(
        "call_id",
        Json::Str(pick_id(&call.id, &call.call_id)),
    )
}

/// Appends a user message for the Responses API.
fn push_responses_user(values: &mut Vec<Json>, content: &Vec<UserContent>)
    ensures
        json::json_views(final(values)@) == json::json_views(old(values)@) + responses_message(
            MessageView::User(message::user_parts(content@)),
        ),
{
    let ghost all = message::user_parts(content@);
    let ghost before = json::json_views(values@);
    let mut parts: Vec<Json> = Vec::new();
    let mut i: usize = 0;
    proof {
        assert(all.subrange(0, 0) =~= Seq::<UserPart>::empty());
        assert(json::json_views(parts@) =~= Seq::<JsonView>::empty());
        lemma_add_nothing(before);
    }
    while i < content.len()
        invariant
            i <= content@.len(),
            all == message::user_parts(content@),
            json::json_views(parts@) == responses_content_parts(all.subrange(0, i as int)),
            json::json_views(values@) == before + responses_tool_results(
                all.subrange(0, i as int),
            ),
        decreases content@.len() - i,
    {
        let ghost results0 = responses_tool_results(all.subrange(0, i as int));
        proof {
            let next = all.subrange(0, i as int + 1);
            assert(next.drop_last() =~= all.subrange(0, i as int));
            assert(next.last() == content@[i as int]@);
            lemma_add_nothing(json::json_views(parts@));
            lemma_add_nothing(results0);
        }
        match &content[i] {
            UserContent::Text(t) => push_value(
                &mut parts,
                make_typed_text("input_text", t.text.as_str()),
            ),
            UserContent::Image(image) => push_option(
                &mut parts,
                convert_image_openai_responses(image),
            ),
            UserContent::ToolResult(result) => {
                let value = make_responses_result(result);
                push_value(values, value);
                proof {
                    assert(before + results0 + seq![value@] =~= before + (results0 + seq![value@]));
                    assert(content@[i as int]@ == UserContent::ToolResult(*result)@);
                }
            },
            UserContent::Other => {},
        }
        i += 1;
    }
    proof {
        assert(all.subrange(0, all.len() as int) =~= all);
    }
    let ghost own = json::json_views(parts@);
    let ghost results = responses_tool_results(all);
    if !parts.is_empty() {
        push_value(values, make_role_content("user", Json::array(parts)));
        proof {
            let last = seq![role_content("user"@, JsonView::Array(own))];
            assert(before + results + last =~= before + (results + last));
        }
    } else {
        proof {
            lemma_add_nothing(results);
        }
    }
}

/// Texts as output parts of the Responses API.
fn make_responses_texts(texts: &Vec<String>) -> (values: Vec<Json>)
    ensures
        json::json_views(values@) == responses_texts(text::views(texts@)),
{
    let mut values: Vec<Json> = Vec::new();
    let mut i: usize = 0;
    while i < texts.len()
        invariant
            i <= texts@.len(),
            values@.len() == i,
            forall|j: int|
                0 <= j < i ==> (#[trigger] values@[j])@ == typed_text("output_text"@, texts@[j]@),
        decreases texts@.len() - i,
    {
        values.push(make_typed_text("output_text", texts[i].as_str()));
        i += 1;
    }
    proof {
        assert(json::json_views(values@) =~= responses_texts(text::views(texts@)));
    }
    values
}

/// Appends an assistant message for the Responses API.
fn push_responses_assistant(values: &mut Vec<Json>, content: &Vec<AssistantContent>)
    ensures
        json::json_views(final(values)@) == json::json_views(old(values)@) + (responses_assistant(
            message::assistant_parts(content@),
        ) + responses_calls(message::assistant_parts(content@))),
{
    let ghost all = message::assistant_parts(content@);
    let ghost before = json::json_views(values@);
    let mut texts: Vec<String> = Vec::new();
    let mut reasoning: Vec<String> = Vec::new();
    let mut saw_reasoning = false;
    let mut calls: Vec<Json> = Vec::new();
    let mut i: usize = 0;
    proof {
        assert(all.subrange(0, 0) =~= Seq::<AssistantPart>::empty());
        assert(text::views(texts@) =~= Seq::<Seq<char>>::empty());
        assert(text::views(reasoning@) =~= Seq::<Seq<char>>::empty());
        assert(json::json_views(calls@) =~= Seq::<JsonView>::empty());
        lemma_add_nothing(before);
    }
    while i < content.len()
        invariant
            i <= content@.len(),
            all == message::assistant_parts(content@),
            text::views(texts@) == spoken_texts(all.subrange(0, i as int)),
            text::views(reasoning@) == thought_texts(all.subrange(0, i as int)),
            saw_reasoning == has_reasoning(all.subrange(0, i as int)),
            json::json_views(calls@) == responses_calls(all.subrange(0, i as int)),
        decreases content@.len() - i,
    {
        let ghost texts0 = text::views(texts@);
        let ghost reasoning0 = text::views(reasoning@);
        proof {
            let next = all.subrange(0, i as int + 1);
            assert(next.drop_last() =~= all.subrange(0, i as int));
            assert(next.last() == content@[i as int]@);
            assert(reasoning0 + Seq::<Seq<char>>::empty() =~= reasoning0);
        }
        match &content[i] {
            AssistantContent::Text(t) => {
                let copy = t.text.clone();
                proof {
                    assert(text::views(texts@.push(copy)) =~= texts0.push(copy@));
                }
                texts.push(copy);
            },
            AssistantContent::Reasoning(r) => {
                saw_reasoning = true;
                let mut more = collect_reasoning_text_parts(r);
                let ghost had = reasoning@;
                let ghost added = more@;
                reasoning.append(&mut more);
                proof {
                    assert(reasoning@ =~= had + added);
                    assert(text::views(reasoning@) =~= reasoning0 + text::views(added));
                }
            },
            AssistantContent::ToolCall(call) => push_value(&mut calls, make_responses_call(call)),
            AssistantContent::Image(_) => {},
        }
        i += 1;
    }
    proof {
        assert(all.subrange(0, all.len() as int) =~= all);
    }
    let ghost call_list = json::json_views(calls@);
    if !texts.is_empty() || saw_reasoning {
        let plain = make_role_content("assistant", Json::array(make_responses_texts(&texts)));
        if saw_reasoning {
            push_value(
                values,
                plain.with("reasoning_content", Json::Str(text::join(&reasoning, "\n"))),
            );
        } else {
            push_value(values, plain);
        }
    }
    proof {
        assert(json::json_views(values@) == before + responses_assistant(all));
        assert(before + responses_assistant(all) + call_list =~= before + (responses_assistant(all)
            + call_list));
    }
    push_values(values, calls);
}

/// A conversation for the Responses API.
pub fn convert_messages_to_openai_responses(messages: &Vec<Message>) -> (values: Vec<Json>)
    ensures
        json::json_views(values@) == responses_input(message::message_views(messages@)),
{
    let ghost all = message::message_views(messages@);
    let mut values: Vec<Json> = Vec::new();
    let mut i: usize = 0;
    proof {
        assert(all.subrange(0, 0) =~= Seq::<MessageView>::empty());
        assert(json::json_views(values@) =~= Seq::<JsonView>::empty());
    }
    while i < messages.len()
        invariant
            i <= messages@.len(),
            all == message::message_views(messages@),
            json::json_views(values@) == responses_input(all.subrange(0, i as int)),
        decreases messages@.len() - i,
    {
        proof {
            let next = all.subrange(0, i as int + 1);
            assert(next.drop_last() =~= all.subrange(0, i as int));
            assert(next.last() == messages@[i as int]@);
        }
        match &messages[i] {
            Message::User { content } => push_responses_user(&mut values, content),
            Message::Assistant { content, .. } => push_responses_assistant(&mut values, content),
        }
        i += 1;
    }
    proof {
        assert(all.subrange(0, all.len() as int) =~= all);
    }
    values
}

} // verus!
