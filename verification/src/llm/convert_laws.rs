//! What a conversation looks like once it has been put into a provider's JSON: which
//! objects there are, with which keys, and in which order.
use crate::json;
use crate::json::JsonView;
use crate::llm::convert;
use crate::llm::message;
use crate::llm::message::{
    AssistantPart, ImageMediaType, ImageView, MessageView, ReasoningPart, SourceView, ToolCallView,
    ToolResultPart, UserPart,
};
use crate::text;
use vstd::prelude::*;

verus! {

// ---------------------------------------------------------------------------
// What stands in a conversation
// ---------------------------------------------------------------------------

/// The texts of a tool result.
pub open spec fn texts_of_result(result: Seq<ToolResultPart>) -> Seq<Seq<char>> {
    result.filter(|p: ToolResultPart| p is Text).map_values(|p: ToolResultPart| p->Text_0)
}

/// The texts that an assistant message says.
pub open spec fn texts_said(parts: Seq<AssistantPart>) -> Seq<Seq<char>> {
    parts.filter(|p: AssistantPart| p is Text).map_values(|p: AssistantPart| p->Text_0)
}

/// The tool calls of an assistant message.
pub open spec fn calls_made(parts: Seq<AssistantPart>) -> Seq<ToolCallView> {
    parts.filter(|p: AssistantPart| p is ToolCall).map_values(|p: AssistantPart| p->ToolCall_0)
}

/// Reasoning that can be read: a text or a summary that is not blank.
pub open spec fn is_readable(part: ReasoningPart) -> bool {
    match part {
        ReasoningPart::Text { text: t, .. } => !text::is_blank(t),
        ReasoningPart::Summary(t) => !text::is_blank(t),
        _ => false,
    }
}

/// The text of reasoning that can be read.
pub open spec fn words_of(part: ReasoningPart) -> Seq<char> {
    match part {
        ReasoningPart::Text { text: t, .. } => t,
        ReasoningPart::Summary(t) => t,
        _ => Seq::empty(),
    }
}

/// The id that a call and its result are matched by: the call id, unless it is missing
/// or empty, and else the id.
pub open spec fn matching_id(id: Seq<char>, call_id: Option<Seq<char>>) -> Seq<char> {
    if call_id is Some && call_id->0.len() > 0 {
        call_id->0
    } else {
        id
    }
}

proof fn lemma_result_texts(result: Seq<ToolResultPart>)
    ensures
        convert::result_texts(result) == texts_of_result(result),
    decreases result.len(),
{
    reveal(Seq::filter);
    let all = texts_of_result(result);
    if result.len() > 0 {
        lemma_result_texts(result.drop_last());
        if let ToolResultPart::Text(t) = result.last() {
            assert(all =~= texts_of_result(result.drop_last()).push(t));
        } else {
            assert(all =~= texts_of_result(result.drop_last()));
        }
    } else {
        assert(all =~= Seq::empty());
    }
}

proof fn lemma_spoken_texts(parts: Seq<AssistantPart>)
    ensures
        convert::spoken_texts(parts) == texts_said(parts),
    decreases parts.len(),
{
    reveal(Seq::filter);
    let all = texts_said(parts);
    if parts.len() > 0 {
        lemma_spoken_texts(parts.drop_last());
        if let AssistantPart::Text(t) = parts.last() {
            assert(all =~= texts_said(parts.drop_last()).push(t));
        } else {
            assert(all =~= texts_said(parts.drop_last()));
        }
    } else {
        assert(all =~= Seq::empty());
    }
}

proof fn lemma_has_reasoning(parts: Seq<AssistantPart>)
    ensures
        convert::has_reasoning(parts) <==> exists|i: int|
            0 <= i < parts.len() && (#[trigger] parts[i]) is Reasoning,
    decreases parts.len(),
{
    if parts.len() > 0 {
        let rest = parts.drop_last();
        lemma_has_reasoning(rest);
        if parts.last() is Reasoning {
            assert(parts[parts.len() - 1] is Reasoning);
        } else if convert::has_reasoning(rest) {
            let i = choose|i: int| 0 <= i < rest.len() && (#[trigger] rest[i]) is Reasoning;
            assert(parts[i] == rest[i]);
        } else if exists|i: int| 0 <= i < parts.len() && (#[trigger] parts[i]) is Reasoning {
            let i = choose|i: int| 0 <= i < parts.len() && (#[trigger] parts[i]) is Reasoning;
            assert(rest[i] == parts[i]);
        }
    }
}

/// Reasoning is read out as its texts and summaries that are not blank, in order; what is
/// encrypted or redacted is not read out.
pub proof fn law_readable_reasoning_is_kept_in_order(content: Seq<ReasoningPart>)
    ensures
        convert::reasoning_texts(content) == content.filter(
            |p: ReasoningPart| is_readable(p),
        ).map_values(|p: ReasoningPart| words_of(p)),
    decreases content.len(),
{
    reveal(Seq::filter);
    let readable = |p: ReasoningPart| is_readable(p);
    let words = |p: ReasoningPart| words_of(p);
    let all = content.filter(readable).map_values(words);
    if content.len() > 0 {
        law_readable_reasoning_is_kept_in_order(content.drop_last());
        let before = content.drop_last().filter(readable).map_values(words);
        if is_readable(content.last()) {
            assert(all =~= before.push(words_of(content.last())));
        } else {
            assert(all =~= before);
        }
    } else {
        assert(all =~= Seq::empty());
    }
}

/// The reasoning of an assistant message is that of its parts, one behind the other.
pub proof fn law_reasoning_of_parts_adds_up(a: Seq<AssistantPart>, b: Seq<AssistantPart>)
    ensures
        convert::thought_texts(a + b) == convert::thought_texts(a) + convert::thought_texts(b),
        forall|id: Option<Seq<char>>, content: Seq<ReasoningPart>| #[trigger]
            convert::thought_texts(seq![AssistantPart::Reasoning { id, content }])
                == convert::reasoning_texts(content),
    decreases b.len(),
{
    if b.len() == 0 {
        assert(a + b =~= a);
        assert(convert::thought_texts(a) + Seq::<Seq<char>>::empty() =~= convert::thought_texts(a));
    } else {
        law_reasoning_of_parts_adds_up(a, b.drop_last());
        assert((a + b).drop_last() =~= a + b.drop_last());
        assert(convert::thought_texts(a + b) =~= convert::thought_texts(a) + convert::thought_texts(
            b,
        ));
    }
    assert forall|id: Option<Seq<char>>, content: Seq<ReasoningPart>| #[trigger]
        convert::thought_texts(seq![AssistantPart::Reasoning { id, content }])
            == convert::reasoning_texts(content) by {
        let one = seq![AssistantPart::Reasoning { id, content }];
        assert(one.drop_last() =~= Seq::empty());
        reveal_with_fuel(convert::thought_texts, 2);
        assert(convert::thought_texts(one) =~= convert::reasoning_texts(content));
    }
}

// ---------------------------------------------------------------------------
// Anthropic
// ---------------------------------------------------------------------------

/// For Anthropic, the blocks of user parts stand one behind the other.
pub proof fn law_anthropic_user_blocks_add_up(a: Seq<UserPart>, b: Seq<UserPart>)
    ensures
        convert::anthropic_user_parts(a + b) == convert::anthropic_user_parts(a)
            + convert::anthropic_user_parts(b),
    decreases b.len(),
{
    if b.len() == 0 {
        assert(a + b =~= a);
    } else {
        law_anthropic_user_blocks_add_up(a, b.drop_last());
        assert((a + b).drop_last() =~= a + b.drop_last());
    }
}

/// For Anthropic, the blocks of assistant parts stand one behind the other.
pub proof fn law_anthropic_assistant_blocks_add_up(a: Seq<AssistantPart>, b: Seq<AssistantPart>)
    ensures
        convert::anthropic_assistant_parts(a + b) == convert::anthropic_assistant_parts(a)
            + convert::anthropic_assistant_parts(b),
    decreases b.len(),
{
    if b.len() == 0 {
        assert(a + b =~= a);
    } else {
        law_anthropic_assistant_blocks_add_up(a, b.drop_last());
        assert((a + b).drop_last() =~= a + b.drop_last());
    }
}

proof fn lemma_anthropic_user_split(content: Seq<UserPart>, i: int)
    requires
        0 <= i < content.len(),
    ensures
        convert::anthropic_user_parts(content) == convert::anthropic_user_parts(content.take(i))
            + convert::anthropic_user_part(content[i]) + convert::anthropic_user_parts(
            content.skip(i + 1),
        ),
{
    let one = seq![content[i]];
    assert(content =~= content.take(i) + one + content.skip(i + 1));
    law_anthropic_user_blocks_add_up(content.take(i) + one, content.skip(i + 1));
    law_anthropic_user_blocks_add_up(content.take(i), one);
    assert(one.drop_last() =~= Seq::empty());
    reveal_with_fuel(convert::anthropic_user_parts, 2);
    assert(convert::anthropic_user_parts(one) =~= convert::anthropic_user_part(content[i]));
}

proof fn lemma_anthropic_assistant_split(content: Seq<AssistantPart>, i: int)
    requires
        0 <= i < content.len(),
    ensures
        convert::anthropic_assistant_parts(content) == convert::anthropic_assistant_parts(
            content.take(i),
        ) + convert::anthropic_assistant_part(content[i]) + convert::anthropic_assistant_parts(
            content.skip(i + 1),
        ),
{
    let one = seq![content[i]];
    assert(content =~= content.take(i) + one + content.skip(i + 1));
    law_anthropic_assistant_blocks_add_up(content.take(i) + one, content.skip(i + 1));
    law_anthropic_assistant_blocks_add_up(content.take(i), one);
    assert(one.drop_last() =~= Seq::empty());
    reveal_with_fuel(convert::anthropic_assistant_parts, 2);
    assert(convert::anthropic_assistant_parts(one) =~= convert::anthropic_assistant_part(
        content[i],
    ));
}

proof fn lemma_role_content(role: Seq<char>, content: JsonView)
    ensures
        convert::role_content(role, content) == JsonView::Object(
            seq![("role"@, JsonView::Str(role)), ("content"@, content)],
        ),
        convert::role_content(role, content).get("role"@) == Some(JsonView::Str(role)),
        convert::role_content(role, content).get("content"@) == Some(content),
{
    reveal_strlit("role");
    reveal_strlit("content");
    assert("role"@.len() != "content"@.len());
    json::lemma_object_of_two("role"@, JsonView::Str(role), "content"@, content);
}

proof fn lemma_typed_text(kind: Seq<char>, t: Seq<char>)
    ensures
        convert::typed_text(kind, t) == JsonView::Object(
            seq![("type"@, JsonView::Str(kind)), ("text"@, JsonView::Str(t))],
        ),
        convert::typed_text(kind, t).get("type"@) == Some(JsonView::Str(kind)),
        convert::typed_text(kind, t).get("text"@) == Some(JsonView::Str(t)),
{
    reveal_strlit("type");
    reveal_strlit("text");
    assert("type"@[1] == 'y');
    assert("text"@[1] == 'e');
    json::lemma_object_of_two("type"@, JsonView::Str(kind), "text"@, JsonView::Str(t));
}

/// A conversation is put into the JSON of each kind of provider message by message: what
/// comes of it is what comes of its messages, one behind the other.
pub proof fn law_conversations_are_converted_in_order(a: Seq<MessageView>, b: Seq<MessageView>)
    ensures
        convert::anthropic_messages(a + b) == convert::anthropic_messages(a)
            + convert::anthropic_messages(b),
        convert::openai_messages(a + b) == convert::openai_messages(a) + convert::openai_messages(
            b,
        ),
        convert::responses_input(a + b) == convert::responses_input(a) + convert::responses_input(
            b,
        ),
    decreases b.len(),
{
    if b.len() == 0 {
        assert(a + b =~= a);
    } else {
        law_conversations_are_converted_in_order(a, b.drop_last());
        assert((a + b).drop_last() =~= a + b.drop_last());
    }
}

proof fn lemma_one_message(m: MessageView)
    ensures
        convert::anthropic_messages(seq![m]) == convert::anthropic_message(m),
        convert::openai_messages(seq![m]) == convert::openai_message(m),
        convert::responses_input(seq![m]) == convert::responses_message(m),
{
    let one = seq![m];
    reveal_with_fuel(convert::anthropic_messages, 2);
    reveal_with_fuel(convert::openai_messages, 2);
    reveal_with_fuel(convert::responses_input, 2);
    assert(one.drop_last() =~= Seq::empty());
    assert(convert::anthropic_messages(one) =~= convert::anthropic_message(m));
    assert(convert::openai_messages(one) =~= convert::openai_message(m));
    assert(convert::responses_input(one) =~= convert::responses_message(m));
}

/// For Anthropic, a message with blocks is one object of its role and those blocks, and a
/// message without any is left out.
pub proof fn law_anthropic_messages_hold_role_and_blocks(
    id: Option<Seq<char>>,
    said: Seq<AssistantPart>,
    asked: Seq<UserPart>,
)
    ensures
        convert::anthropic_messages(seq![MessageView::User(asked)]) == (
        if convert::anthropic_user_parts(asked).len() == 0 {
            Seq::empty()
        } else {
            seq![
                JsonView::Object(
                    seq![
                        ("role"@, JsonView::Str("user"@)),
                        ("content"@, JsonView::Array(convert::anthropic_user_parts(asked))),
                    ],
                ),
            ]
        }),
        convert::anthropic_messages(seq![MessageView::Assistant { id, content: said }]) == (
        if convert::anthropic_assistant_parts(said).len() == 0 {
            Seq::empty()
        } else {
            seq![
                JsonView::Object(
                    seq![
                        ("role"@, JsonView::Str("assistant"@)),
                        ("content"@, JsonView::Array(convert::anthropic_assistant_parts(said))),
                    ],
                ),
            ]
        }),
{
    lemma_one_message(MessageView::User(asked));
    lemma_one_message(MessageView::Assistant { id, content: said });
    lemma_role_content("user"@, JsonView::Array(convert::anthropic_user_parts(asked)));
    lemma_role_content("assistant"@, JsonView::Array(convert::anthropic_assistant_parts(said)));
}

/// Every tool result of a user message is sent to Anthropic: it stands in the one message
/// that is sent, behind the blocks of the parts before it and before those of the parts
/// behind it, as a block of type `tool_result` with the result's id under `tool_use_id`
/// and its texts, joined by newlines, under `content`.
pub proof fn law_anthropic_gets_every_tool_result(
    content: Seq<UserPart>,
    i: int,
    id: Seq<char>,
    call_id: Option<Seq<char>>,
    result: Seq<ToolResultPart>,
)
    requires
        0 <= i < content.len(),
        content[i] == (UserPart::ToolResult { id, call_id, content: result }),
    ensures
        ({
            let sent = convert::anthropic_messages(seq![MessageView::User(content)]);
            let before = convert::anthropic_user_parts(content.take(i));
            let after = convert::anthropic_user_parts(content.skip(i + 1));
            &&& sent.len() == 1
            &&& sent[0].get("role"@) == Some(JsonView::Str("user"@))
            &&& sent[0].get("content"@) == Some(
                JsonView::Array(
                    before + seq![
                        JsonView::Object(
                            seq![
                                ("type"@, JsonView::Str("tool_result"@)),
                                ("tool_use_id"@, JsonView::Str(id)),
                                (
                                    "content"@,
                                    JsonView::Str(text::joined(texts_of_result(result), "\n"@)),
                                ),
                            ],
                        ),
                    ] + after,
                ),
            )
        }),
{
    lemma_one_message(MessageView::User(content));
    lemma_anthropic_user_split(content, i);
    lemma_role_content("user"@, JsonView::Array(convert::anthropic_user_parts(content)));
    lemma_result_texts(result);
    reveal_strlit("type");
    reveal_strlit("tool_use_id");
    reveal_strlit("content");
    assert("type"@.len() == 4);
    assert("tool_use_id"@.len() == 11);
    assert("content"@.len() == 7);
    json::lemma_object_of_three(
        "type"@,
        JsonView::Str("tool_result"@),
        "tool_use_id"@,
        JsonView::Str(id),
        "content"@,
        JsonView::Str(convert::result_text(result)),
    );
}

/// A user's text goes to Anthropic at its place as a block of that text, and not at all
/// where it is blank.
pub proof fn law_anthropic_gets_every_user_text(content: Seq<UserPart>, i: int, t: Seq<char>)
    requires
        0 <= i < content.len(),
        content[i] == UserPart::Text(t),
    ensures
        convert::anthropic_user_parts(content) == convert::anthropic_user_parts(content.take(i)) + (
        if text::is_blank(t) {
            Seq::empty()
        } else {
            seq![
                JsonView::Object(
                    seq![("type"@, JsonView::Str("text"@)), ("text"@, JsonView::Str(t))],
                ),
            ]
        }) + convert::anthropic_user_parts(content.skip(i + 1)),
{
    lemma_anthropic_user_split(content, i);
    lemma_typed_text("text"@, t);
}

/// A user's image goes to Anthropic at its place: base64 data with its media type, JPEG
/// where it has none, and a URL as it is. Content of other kinds does not go.
pub proof fn law_anthropic_gets_every_user_image(content: Seq<UserPart>, i: int)
    requires
        0 <= i < content.len(),
        content[i] is Image || content[i] is Other,
    ensures
        convert::anthropic_user_parts(content) == convert::anthropic_user_parts(content.take(i)) + (
        match content[i] {
            UserPart::Image(ImageView { data: SourceView::Base64(data), media_type }) => seq![
                JsonView::Object(
                    seq![
                        ("type"@, JsonView::Str("image"@)),
                        (
                            "source"@,
                            JsonView::Object(
                                seq![
                                    ("type"@, JsonView::Str("base64"@)),
                                    (
                                        "media_type"@,
                                        JsonView::Str(
                                            if media_type is Some {
                                                message::mime_type(media_type->0)
                                            } else {
                                                "image/jpeg"@
                                            },
                                        ),
                                    ),
                                    ("data"@, JsonView::Str(data)),
                                ],
                            ),
                        ),
                    ],
                ),
            ],
            UserPart::Image(ImageView { data: SourceView::Url(url), .. }) => seq![
                JsonView::Object(
                    seq![
                        ("type"@, JsonView::Str("image"@)),
                        (
                            "source"@,
                            JsonView::Object(
                                seq![
                                    ("type"@, JsonView::Str("url"@)),
                                    ("url"@, JsonView::Str(url)),
                                ],
                            ),
                        ),
                    ],
                ),
            ],
            _ => Seq::empty(),
        }) + convert::anthropic_user_parts(content.skip(i + 1)),
{
    lemma_anthropic_user_split(content, i);
    reveal_strlit("type");
    reveal_strlit("source");
    reveal_strlit("media_type");
    reveal_strlit("data");
    reveal_strlit("url");
    assert("type"@.len() == 4);
    assert("source"@.len() == 6);
    assert("media_type"@.len() == 10);
    assert("data"@.len() == 4 && "data"@[0] == 'd');
    assert("type"@[0] == 't');
    assert("url"@.len() == 3);
    if let UserPart::Image(image) = content[i] {
        match image.data {
            SourceView::Base64(data) => {
                json::lemma_object_of_three(
                    "type"@,
                    JsonView::Str("base64"@),
                    "media_type"@,
                    JsonView::Str(convert::image_mime(image)),
                    "data"@,
                    JsonView::Str(data),
                );
                json::lemma_object_of_two(
                    "type"@,
                    JsonView::Str("image"@),
                    "source"@,
                    json::empty_object().with("type"@, JsonView::Str("base64"@)).with(
                        "media_type"@,
                        JsonView::Str(convert::image_mime(image)),
                    ).with("data"@, JsonView::Str(data)),
                );
            },
            SourceView::Url(url) => {
                json::lemma_object_of_two(
                    "type"@,
                    JsonView::Str("url"@),
                    "url"@,
                    JsonView::Str(url),
                );
                json::lemma_object_of_two(
                    "type"@,
                    JsonView::Str("image"@),
                    "source"@,
                    json::empty_object().with("type"@, JsonView::Str("url"@)).with(
                        "url"@,
                        JsonView::Str(url),
                    ),
                );
            },
            SourceView::Other => {},
        }
    }
}

/// What the assistant said goes to Anthropic part by part and in order: text as a block of
/// that text unless it is blank, a tool call as a `tool_use` block with its id, its name
/// and its arguments under `input`. Reasoning and images do not go.
pub proof fn law_anthropic_gets_every_assistant_part(content: Seq<AssistantPart>, i: int)
    requires
        0 <= i < content.len(),
    ensures
        convert::anthropic_assistant_parts(content) == convert::anthropic_assistant_parts(
            content.take(i),
        ) + (match content[i] {
            AssistantPart::Text(t) => if text::is_blank(t) {
                Seq::empty()
            } else {
                seq![
                    JsonView::Object(
                        seq![("type"@, JsonView::Str("text"@)), ("text"@, JsonView::Str(t))],
                    ),
                ]
            },
            AssistantPart::ToolCall(call) => seq![
                JsonView::Object(
                    seq![
                        ("type"@, JsonView::Str("tool_use"@)),
                        ("id"@, JsonView::Str(call.id)),
                        ("name"@, JsonView::Str(call.name)),
                        ("input"@, call.arguments),
                    ],
                ),
            ],
            _ => Seq::empty(),
        }) + convert::anthropic_assistant_parts(content.skip(i + 1)),
{
    lemma_anthropic_assistant_split(content, i);
    match content[i] {
        AssistantPart::Text(t) => {
            lemma_typed_text("text"@, t);
        },
        AssistantPart::ToolCall(call) => {
            lemma_tool_use(call);
        },
        _ => {},
    }
}

/// A tool call as an Anthropic block.
pub proof fn lemma_tool_use(call: ToolCallView)
    ensures
        convert::anthropic_assistant_part(AssistantPart::ToolCall(call)) == seq![
            JsonView::Object(
                seq![
                    ("type"@, JsonView::Str("tool_use"@)),
                    ("id"@, JsonView::Str(call.id)),
                    ("name"@, JsonView::Str(call.name)),
                    ("input"@, call.arguments),
                ],
            ),
        ],
        ({
            let block = convert::anthropic_assistant_part(AssistantPart::ToolCall(call))[0];
            &&& block.get("type"@) == Some(JsonView::Str("tool_use"@))
            &&& block.get("id"@) == Some(JsonView::Str(call.id))
            &&& block.get("name"@) == Some(JsonView::Str(call.name))
            &&& block.get("input"@) == Some(call.arguments)
        }),
{
    reveal_strlit("type");
    reveal_strlit("id");
    reveal_strlit("name");
    reveal_strlit("input");
    assert("type"@.len() == 4 && "type"@[0] == 't');
    assert("id"@.len() == 2);
    assert("name"@.len() == 4 && "name"@[0] == 'n');
    assert("input"@.len() == 5);
    json::lemma_object_of_four(
        "type"@,
        JsonView::Str("tool_use"@),
        "id"@,
        JsonView::Str(call.id),
        "name"@,
        JsonView::Str(call.name),
        "input"@,
        call.arguments,
    );
}

/// Each kind of image has its MIME type.
pub proof fn law_images_have_their_mime_types()
    ensures
        message::mime_type(ImageMediaType::Jpeg) == "image/jpeg"@,
        message::mime_type(ImageMediaType::Png) == "image/png"@,
        message::mime_type(ImageMediaType::Gif) == "image/gif"@,
        message::mime_type(ImageMediaType::Webp) == "image/webp"@,
        message::mime_type(ImageMediaType::Heic) == "image/heic"@,
        message::mime_type(ImageMediaType::Heif) == "image/heif"@,
        message::mime_type(ImageMediaType::Svg) == "image/svg+xml"@,
{
}

/// The URL by which chat completions and the Responses API get an image: the image's own,
/// or a data URL of its base64 data and its media type, JPEG where it has none.
pub open spec fn url_for(image: ImageView) -> Option<Seq<char>> {
    match image.data {
        SourceView::Url(url) => Some(url),
        SourceView::Base64(data) => Some(
            "data:"@ + (if image.media_type is Some {
                message::mime_type(image.media_type->0)
            } else {
                "image/jpeg"@
            }) + ";base64,"@ + data,
        ),
        SourceView::Other => None,
    }
}

// ---------------------------------------------------------------------------
// Chat completions
// ---------------------------------------------------------------------------

/// For chat completions, the content parts and the tool results of user parts stand one
/// behind the other.
pub proof fn law_chat_user_parts_add_up(a: Seq<UserPart>, b: Seq<UserPart>)
    ensures
        convert::openai_content_parts(a + b) == convert::openai_content_parts(a)
            + convert::openai_content_parts(b),
        convert::openai_tool_results(a + b) == convert::openai_tool_results(a)
            + convert::openai_tool_results(b),
    decreases b.len(),
{
    if b.len() == 0 {
        assert(a + b =~= a);
    } else {
        law_chat_user_parts_add_up(a, b.drop_last());
        assert((a + b).drop_last() =~= a + b.drop_last());
        assert(convert::openai_content_parts(a + b) =~= convert::openai_content_parts(a)
            + convert::openai_content_parts(b));
        assert(convert::openai_tool_results(a + b) =~= convert::openai_tool_results(a)
            + convert::openai_tool_results(b));
    }
}

/// For chat completions, each part of a user message stands at its place: text and images
/// among the content parts, tool results among the messages that follow, each with the id
/// that its call went out under and its texts, joined by newlines.
pub proof fn law_chat_gets_every_user_part(content: Seq<UserPart>, i: int)
    requires
        0 <= i < content.len(),
    ensures
        convert::openai_content_parts(content) == convert::openai_content_parts(content.take(i)) + (
        match content[i] {
            UserPart::Text(t) => seq![
                JsonView::Object(
                    seq![("type"@, JsonView::Str("text"@)), ("text"@, JsonView::Str(t))],
                ),
            ],
            UserPart::Image(image) => if url_for(image) is Some {
                seq![
                    JsonView::Object(
                        seq![
                            ("type"@, JsonView::Str("image_url"@)),
                            (
                                "image_url"@,
                                JsonView::Object(
                                    seq![("url"@, JsonView::Str(url_for(image)->0))],
                                ),
                            ),
                        ],
                    ),
                ]
            } else {
                Seq::empty()
            },
            _ => Seq::empty(),
        }) + convert::openai_content_parts(content.skip(i + 1)),
        convert::openai_tool_results(content) == convert::openai_tool_results(content.take(i)) + (
        match content[i] {
            UserPart::ToolResult { id, call_id, content: result } => seq![
                JsonView::Object(
                    seq![
                        ("role"@, JsonView::Str("tool"@)),
                        ("tool_call_id"@, JsonView::Str(matching_id(id, call_id))),
                        (
                            "content"@,
                            JsonView::Str(text::joined(texts_of_result(result), "\n"@)),
                        ),
                    ],
                ),
            ],
            _ => Seq::empty(),
        }) + convert::openai_tool_results(content.skip(i + 1)),
{
    let one = seq![content[i]];
    let before = content.take(i);
    let after = content.skip(i + 1);
    assert(content =~= before + one + after);
    law_chat_user_parts_add_up(before + one, after);
    law_chat_user_parts_add_up(before, one);
    assert(one.drop_last() =~= Seq::empty());
    reveal_with_fuel(convert::openai_content_parts, 2);
    reveal_with_fuel(convert::openai_tool_results, 2);
    match content[i] {
        UserPart::Text(t) => {
            lemma_typed_text("text"@, t);
            assert(convert::openai_content_parts(one) =~= seq![convert::typed_text("text"@, t)]);
            assert(convert::openai_tool_results(one) =~= Seq::empty());
        },
        UserPart::Image(image) => {
            assert(convert::image_url(image) == url_for(image));
            assert(convert::openai_content_parts(one) =~= convert::one_or_none(
                convert::openai_image(image),
            ));
            assert(convert::openai_tool_results(one) =~= Seq::empty());
            if url_for(image) is Some {
                let url = url_for(image)->0;
                reveal_strlit("type");
                reveal_strlit("image_url");
                reveal_strlit("url");
                assert("type"@.len() == 4);
                assert("image_url"@.len() == 9);
                json::lemma_new_key(Seq::empty(), "url"@, JsonView::Str(url));
                assert(json::empty_object().with("url"@, JsonView::Str(url))
                    =~= JsonView::Object(seq![("url"@, JsonView::Str(url))]));
                json::lemma_object_of_two(
                    "type"@,
                    JsonView::Str("image_url"@),
                    "image_url"@,
                    json::empty_object().with("url"@, JsonView::Str(url)),
                );
            }
        },
        UserPart::ToolResult { id, call_id, content: result } => {
            assert(convert::openai_content_parts(one) =~= Seq::empty());
            assert(convert::openai_tool_results(one) =~= seq![
                convert::openai_tool_result(id, call_id, result),
            ]);
            lemma_result_texts(result);
            reveal_strlit("role");
            reveal_strlit("tool_call_id");
            reveal_strlit("content");
            assert("role"@.len() == 4);
            assert("tool_call_id"@.len() == 12);
            assert("content"@.len() == 7);
            json::lemma_object_of_three(
                "role"@,
                JsonView::Str("tool"@),
                "tool_call_id"@,
                JsonView::Str(matching_id(id, call_id)),
                "content"@,
                JsonView::Str(convert::result_text(result)),
            );
        },
        UserPart::Other => {
            assert(convert::openai_content_parts(one) =~= Seq::empty());
            assert(convert::openai_tool_results(one) =~= Seq::empty());
        },
    }
}

/// For chat completions, a user message is one object of its role and its content parts,
/// where it has any, and then its tool results as messages of their own. A single text is
/// sent as that text; any other content is sent as the list of its parts.
pub proof fn law_chat_user_messages(content: Seq<UserPart>, t: Seq<char>)
    ensures
        ({
            let parts = convert::openai_content_parts(content);
            let sent = convert::openai_messages(seq![MessageView::User(content)]);
            &&& parts.len() == 0 ==> sent == convert::openai_tool_results(content)
            &&& parts.len() > 1 ==> sent == seq![
                JsonView::Object(
                    seq![("role"@, JsonView::Str("user"@)), ("content"@, JsonView::Array(parts))],
                ),
            ] + convert::openai_tool_results(content)
        }),
        convert::openai_messages(seq![MessageView::User(seq![UserPart::Text(t)])]) == seq![
            JsonView::Object(
                seq![("role"@, JsonView::Str("user"@)), ("content"@, JsonView::Str(t))],
            ),
        ],
{
    let parts = convert::openai_content_parts(content);
    lemma_one_message(MessageView::User(content));
    lemma_role_content("user"@, JsonView::Array(parts));
    if parts.len() == 0 {
        assert(convert::openai_message(MessageView::User(content))
            =~= convert::openai_tool_results(content));
    }
    let one = seq![UserPart::Text(t)];
    lemma_one_message(MessageView::User(one));
    law_chat_gets_every_user_part(one, 0);
    assert(one.take(0) =~= Seq::empty());
    assert(one.skip(1) =~= Seq::empty());
    lemma_typed_text("text"@, t);
    assert(convert::openai_content_parts(one) =~= seq![convert::typed_text("text"@, t)]);
    assert(convert::openai_tool_results(one) =~= Seq::empty());
    lemma_role_content("user"@, JsonView::Str(t));
    assert(convert::openai_message(MessageView::User(one)) =~= seq![
        convert::role_content("user"@, JsonView::Str(t)),
    ]);
}

/// A tool call as chat completions get it.
proof fn lemma_chat_call(call: ToolCallView)
    ensures
        convert::openai_tool_call(call) == JsonView::Object(
            seq![
                ("id"@, JsonView::Str(matching_id(call.id, call.call_id))),
                ("type"@, JsonView::Str("function"@)),
                (
                    "function"@,
                    JsonView::Object(
                        seq![
                            ("name"@, JsonView::Str(call.name)),
                            ("arguments"@, JsonView::Str(json::printed(call.arguments))),
                        ],
                    ),
                ),
            ],
        ),
{
    reveal_strlit("id");
    reveal_strlit("type");
    reveal_strlit("function");
    reveal_strlit("name");
    reveal_strlit("arguments");
    assert("id"@.len() == 2);
    assert("type"@.len() == 4);
    assert("function"@.len() == 8);
    assert("name"@.len() == 4);
    assert("arguments"@.len() == 9);
    json::lemma_object_of_two(
        "name"@,
        JsonView::Str(call.name),
        "arguments"@,
        JsonView::Str(json::printed(call.arguments)),
    );
    json::lemma_object_of_three(
        "id"@,
        JsonView::Str(matching_id(call.id, call.call_id)),
        "type"@,
        JsonView::Str("function"@),
        "function"@,
        json::empty_object().with("name"@, JsonView::Str(call.name)).with(
            "arguments"@,
            JsonView::Str(json::printed(call.arguments)),
        ),
    );
}

/// For chat completions, the tool calls of a message are all sent, in order, each with the
/// id that its result will come under, its name, and its arguments as JSON text.
pub proof fn law_chat_gets_every_tool_call(parts: Seq<AssistantPart>)
    ensures
        convert::openai_calls(parts) == calls_made(parts).map_values(
            |call: ToolCallView|
                JsonView::Object(
                    seq![
                        ("id"@, JsonView::Str(matching_id(call.id, call.call_id))),
                        ("type"@, JsonView::Str("function"@)),
                        (
                            "function"@,
                            JsonView::Object(
                                seq![
                                    ("name"@, JsonView::Str(call.name)),
                                    ("arguments"@, JsonView::Str(json::printed(call.arguments))),
                                ],
                            ),
                        ),
                    ],
                ),
        ),
    decreases parts.len(),
{
    reveal(Seq::filter);
    if parts.len() > 0 {
        law_chat_gets_every_tool_call(parts.drop_last());
        if let AssistantPart::ToolCall(call) = parts.last() {
            lemma_chat_call(call);
            assert(calls_made(parts) =~= calls_made(parts.drop_last()).push(call));
        } else {
            assert(calls_made(parts) =~= calls_made(parts.drop_last()));
        }
    } else {
        assert(calls_made(parts) =~= Seq::empty());
    }
}

/// For chat completions, an assistant message is one object: its role; its texts, joined by
/// newlines, under `content`, which is `null` where there is no text but a tool call or
/// reasoning; its readable reasoning, joined by newlines, under `reasoning_content` where
/// it has reasoning at all; and its tool calls where it has any.
pub proof fn law_chat_assistant_messages(id: Option<Seq<char>>, parts: Seq<AssistantPart>)
    ensures
        ({
            let sent = convert::openai_messages(seq![MessageView::Assistant { id, content: parts }]);
            let reasons = exists|i: int| 0 <= i < parts.len() && (#[trigger] parts[i]) is Reasoning;
            let calls = convert::openai_calls(parts);
            &&& sent.len() == 1
            &&& sent[0].get("role"@) == Some(JsonView::Str("assistant"@))
            &&& sent[0].get("content"@) == (if texts_said(parts).len() > 0 {
                Some(JsonView::Str(text::joined(texts_said(parts), "\n"@)))
            } else if calls.len() > 0 || reasons {
                Some(JsonView::Null)
            } else {
                None
            })
            &&& sent[0].get("reasoning_content"@) == (if reasons {
                Some(JsonView::Str(text::joined(convert::thought_texts(parts), "\n"@)))
            } else {
                None
            })
            &&& sent[0].get("tool_calls"@) == (if calls.len() > 0 {
                Some(JsonView::Array(calls))
            } else {
                None
            })
        }),
{
    lemma_one_message(MessageView::Assistant { id, content: parts });
    lemma_spoken_texts(parts);
    lemma_has_reasoning(parts);
    reveal_strlit("role");
    reveal_strlit("content");
    reveal_strlit("reasoning_content");
    reveal_strlit("tool_calls");
    assert("role"@.len() == 4);
    assert("content"@.len() == 7);
    assert("reasoning_content"@.len() == 17);
    assert("tool_calls"@.len() == 10);
    let texts = convert::spoken_texts(parts);
    let calls = convert::openai_calls(parts);
    let reasons = convert::has_reasoning(parts);
    let empty = json::empty_object();
    let role = JsonView::Str("assistant"@);
    let bare = empty.with("role"@, role);
    json::lemma_with_then_get(empty, "role"@, role, "content"@);
    json::lemma_with_then_get(empty, "role"@, role, "reasoning_content"@);
    json::lemma_with_then_get(empty, "role"@, role, "tool_calls"@);
    let said = if texts.len() > 0 {
        JsonView::Str(text::joined(texts, "\n"@))
    } else {
        JsonView::Null
    };
    let has_content = texts.len() > 0 || calls.len() > 0 || reasons;
    json::lemma_with_then_get(bare, "content"@, said, "role"@);
    json::lemma_with_then_get(bare, "content"@, said, "reasoning_content"@);
    json::lemma_with_then_get(bare, "content"@, said, "tool_calls"@);
    let with_text = if has_content {
        bare.with("content"@, said)
    } else {
        bare
    };
    let thoughts = JsonView::Str(text::joined(convert::thought_texts(parts), "\n"@));
    json::lemma_with_then_get(with_text, "reasoning_content"@, thoughts, "role"@);
    json::lemma_with_then_get(with_text, "reasoning_content"@, thoughts, "content"@);
    json::lemma_with_then_get(with_text, "reasoning_content"@, thoughts, "tool_calls"@);
    let with_reasoning = if reasons {
        with_text.with("reasoning_content"@, thoughts)
    } else {
        with_text
    };
    let called = JsonView::Array(calls);
    json::lemma_with_then_get(with_reasoning, "tool_calls"@, called, "role"@);
    json::lemma_with_then_get(with_reasoning, "tool_calls"@, called, "content"@);
    json::lemma_with_then_get(with_reasoning, "tool_calls"@, called, "reasoning_content"@);
}

// ---------------------------------------------------------------------------
// The Responses API
// ---------------------------------------------------------------------------

/// For the Responses API, the content parts and the tool results of user parts stand one
/// behind the other.
pub proof fn law_responses_user_parts_add_up(a: Seq<UserPart>, b: Seq<UserPart>)
    ensures
        convert::responses_content_parts(a + b) == convert::responses_content_parts(a)
            + convert::responses_content_parts(b),
        convert::responses_tool_results(a + b) == convert::responses_tool_results(a)
            + convert::responses_tool_results(b),
    decreases b.len(),
{
    if b.len() == 0 {
        assert(a + b =~= a);
    } else {
        law_responses_user_parts_add_up(a, b.drop_last());
        assert((a + b).drop_last() =~= a + b.drop_last());
        assert(convert::responses_content_parts(a + b) =~= convert::responses_content_parts(a)
            + convert::responses_content_parts(b));
        assert(convert::responses_tool_results(a + b) =~= convert::responses_tool_results(a)
            + convert::responses_tool_results(b));
    }
}

/// For the Responses API, each part of a user message stands at its place: text and images
/// among the content parts, tool results among the items that go before them, each with
/// the id that its call went out under and its texts, joined by newlines.
pub proof fn law_responses_get_every_user_part(content: Seq<UserPart>, i: int)
    requires
        0 <= i < content.len(),
    ensures
        convert::responses_content_parts(content) == convert::responses_content_parts(
            content.take(i),
        ) + (match content[i] {
            UserPart::Text(t) => seq![
                JsonView::Object(
                    seq![("type"@, JsonView::Str("input_text"@)), ("text"@, JsonView::Str(t))],
                ),
            ],
            UserPart::Image(image) => if url_for(image) is Some {
                seq![
                    JsonView::Object(
                        seq![
                            ("type"@, JsonView::Str("input_image"@)),
                            ("image_url"@, JsonView::Str(url_for(image)->0)),
                        ],
                    ),
                ]
            } else {
                Seq::empty()
            },
            _ => Seq::empty(),
        }) + convert::responses_content_parts(content.skip(i + 1)),
        convert::responses_tool_results(content) == convert::responses_tool_results(content.take(i))
            + (match content[i] {
            UserPart::ToolResult { id, call_id, content: result } => seq![
                JsonView::Object(
                    seq![
                        ("type"@, JsonView::Str("function_call_output"@)),
                        ("call_id"@, JsonView::Str(matching_id(id, call_id))),
                        (
                            "output"@,
                            JsonView::Str(text::joined(texts_of_result(result), "\n"@)),
                        ),
                    ],
                ),
            ],
            _ => Seq::empty(),
        }) + convert::responses_tool_results(content.skip(i + 1)),
{
    let one = seq![content[i]];
    let before = content.take(i);
    let after = content.skip(i + 1);
    assert(content =~= before + one + after);
    law_responses_user_parts_add_up(before + one, after);
    law_responses_user_parts_add_up(before, one);
    assert(one.drop_last() =~= Seq::empty());
    reveal_with_fuel(convert::responses_content_parts, 2);
    reveal_with_fuel(convert::responses_tool_results, 2);
    match content[i] {
        UserPart::Text(t) => {
            lemma_typed_text("input_text"@, t);
            assert(convert::responses_content_parts(one) =~= seq![
                convert::typed_text("input_text"@, t),
            ]);
            assert(convert::responses_tool_results(one) =~= Seq::empty());
        },
        UserPart::Image(image) => {
            assert(convert::image_url(image) == url_for(image));
            assert(convert::responses_content_parts(one) =~= convert::one_or_none(
                convert::responses_image(image),
            ));
            assert(convert::responses_tool_results(one) =~= Seq::empty());
            if url_for(image) is Some {
                reveal_strlit("type");
                reveal_strlit("image_url");
                assert("type"@.len() == 4);
                assert("image_url"@.len() == 9);
                json::lemma_object_of_two(
                    "type"@,
                    JsonView::Str("input_image"@),
                    "image_url"@,
                    JsonView::Str(url_for(image)->0),
                );
            }
        },
        UserPart::ToolResult { id, call_id, content: result } => {
            assert(convert::responses_content_parts(one) =~= Seq::empty());
            lemma_result_texts(result);
            reveal_strlit("type");
            reveal_strlit("call_id");
            reveal_strlit("output");
            assert("type"@.len() == 4);
            assert("call_id"@.len() == 7);
            assert("output"@.len() == 6);
            json::lemma_object_of_three(
                "type"@,
                JsonView::Str("function_call_output"@),
                "call_id"@,
                JsonView::Str(matching_id(id, call_id)),
                "output"@,
                JsonView::Str(convert::result_text(result)),
            );
        },
        UserPart::Other => {
            assert(convert::responses_content_parts(one) =~= Seq::empty());
            assert(convert::responses_tool_results(one) =~= Seq::empty());
        },
    }
}

/// For the Responses API, a user message is its tool results as items of their own, and
/// then one object of its role and its content parts, where it has any.
pub proof fn law_responses_user_messages(content: Seq<UserPart>)
    ensures
        ({
            let parts = convert::responses_content_parts(content);
            let results = convert::responses_tool_results(content);
            convert::responses_input(seq![MessageView::User(content)]) == (if parts.len() == 0 {
                results
            } else {
                results.push(
                    JsonView::Object(
                        seq![
                            ("role"@, JsonView::Str("user"@)),
                            ("content"@, JsonView::Array(parts)),
                        ],
                    ),
                )
            })
        }),
{
    lemma_one_message(MessageView::User(content));
    lemma_role_content("user"@, JsonView::Array(convert::responses_content_parts(content)));
}

/// For the Responses API, the tool calls of a message are all sent, in order, each with the
/// id that its result will come under, its name, and its arguments as JSON text.
pub proof fn law_responses_get_every_tool_call(parts: Seq<AssistantPart>)
    ensures
        convert::responses_calls(parts) == calls_made(parts).map_values(
            |call: ToolCallView|
                JsonView::Object(
                    seq![
                        ("type"@, JsonView::Str("function_call"@)),
                        ("name"@, JsonView::Str(call.name)),
                        ("arguments"@, JsonView::Str(json::printed(call.arguments))),
                        ("call_id"@, JsonView::Str(matching_id(call.id, call.call_id))),
                    ],
                ),
        ),
    decreases parts.len(),
{
    reveal(Seq::filter);
    if parts.len() > 0 {
        law_responses_get_every_tool_call(parts.drop_last());
        if let AssistantPart::ToolCall(call) = parts.last() {
            reveal_strlit("type");
            reveal_strlit("name");
            reveal_strlit("arguments");
            reveal_strlit("call_id");
            assert("type"@.len() == 4 && "type"@[0] == 't');
            assert("name"@.len() == 4 && "name"@[0] == 'n');
            assert("arguments"@.len() == 9);
            assert("call_id"@.len() == 7);
            json::lemma_object_of_four(
                "type"@,
                JsonView::Str("function_call"@),
                "name"@,
                JsonView::Str(call.name),
                "arguments"@,
                JsonView::Str(json::printed(call.arguments)),
                "call_id"@,
                JsonView::Str(matching_id(call.id, call.call_id)),
            );
            assert(calls_made(parts) =~= calls_made(parts.drop_last()).push(call));
        } else {
            assert(calls_made(parts) =~= calls_made(parts.drop_last()));
        }
    } else {
        assert(calls_made(parts) =~= Seq::empty());
    }
}

/// For the Responses API, an assistant message is one object of its role and its texts as
/// output parts, where it has text or reasoning, with its readable reasoning, joined by
/// newlines, beside them where it has any reasoning at all; its tool calls follow.
pub proof fn law_responses_assistant_messages(id: Option<Seq<char>>, parts: Seq<AssistantPart>)
    ensures
        ({
            let sent = convert::responses_input(seq![MessageView::Assistant { id, content: parts }]);
            let reasons = exists|i: int| 0 <= i < parts.len() && (#[trigger] parts[i]) is Reasoning;
            let calls = convert::responses_calls(parts);
            let spoken = JsonView::Array(
                texts_said(parts).map_values(
                    |t: Seq<char>|
                        JsonView::Object(
                            seq![
                                ("type"@, JsonView::Str("output_text"@)),
                                ("text"@, JsonView::Str(t)),
                            ],
                        ),
                ),
            );
            &&& reasons ==> sent == seq![
                JsonView::Object(
                    seq![
                        ("role"@, JsonView::Str("assistant"@)),
                        ("content"@, spoken),
                        (
                            "reasoning_content"@,
                            JsonView::Str(text::joined(convert::thought_texts(parts), "\n"@)),
                        ),
                    ],
                ),
            ] + calls
            &&& !reasons && texts_said(parts).len() > 0 ==> sent == seq![
                JsonView::Object(
                    seq![("role"@, JsonView::Str("assistant"@)), ("content"@, spoken)],
                ),
            ] + calls
            &&& !reasons && texts_said(parts).len() == 0 ==> sent == calls
        }),
{
    lemma_one_message(MessageView::Assistant { id, content: parts });
    lemma_spoken_texts(parts);
    lemma_has_reasoning(parts);
    let texts = texts_said(parts);
    let spoken = texts.map_values(
        |t: Seq<char>|
            JsonView::Object(
                seq![("type"@, JsonView::Str("output_text"@)), ("text"@, JsonView::Str(t))],
            ),
    );
    assert forall|i: int| 0 <= i < texts.len() implies convert::responses_texts(texts)[i]
        == spoken[i] by {
        lemma_typed_text("output_text"@, texts[i]);
    }
    assert(convert::responses_texts(texts) =~= spoken);
    let plain = JsonView::Array(spoken);
    lemma_role_content("assistant"@, plain);
    reveal_strlit("role");
    reveal_strlit("content");
    reveal_strlit("reasoning_content");
    assert("role"@.len() == 4);
    assert("content"@.len() == 7);
    assert("reasoning_content"@.len() == 17);
    json::lemma_object_of_three(
        "role"@,
        JsonView::Str("assistant"@),
        "content"@,
        plain,
        "reasoning_content"@,
        JsonView::Str(text::joined(convert::thought_texts(parts), "\n"@)),
    );
    assert(Seq::<JsonView>::empty() + convert::responses_calls(parts) =~= convert::responses_calls(
        parts,
    ));
}

} // verus!
