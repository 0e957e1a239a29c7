//! The Responses API: what its replies and its event streams say.
use crate::json;
use crate::json::{Json, JsonView};
use crate::llm::arguments;
use crate::llm::content;
use crate::llm::message;
use crate::llm::message::{
    AssistantContent, AssistantPart, CompletionError, CompletionResponse, ErrorView, RawResponse,
    ResponseView,
};
use crate::llm::response;
use crate::llm::sse;
use crate::text;
use vstd::prelude::*;

verus! {

/// The type of an item names a tool call or its result.
pub open spec fn is_call_item(value: JsonView) -> bool {
    value.text_at("type"@) == Some("function_call"@) || value.text_at("type"@) == Some(
        "function_call_output"@,
    )
}

/// The text segments in an output item, in order: those of its `text`, its
/// `summary`, its `refusal` and, in depth, its `content`. Tool calls and their
/// results carry none.
pub open spec fn item_text(value: JsonView) -> Seq<Seq<char>>
    decreases value, 0nat,
{
    match value {
        JsonView::Array(items) => item_text_of_first(items, items.len()),
        JsonView::Object(entries) => if is_call_item(value) {
            Seq::empty()
        } else {
            content::some_text_at(value, "text"@) + content::text_content_at(value, "summary"@)
                + content::text_content_at(value, "refusal"@) + (match json::key_position(
                entries,
                "content"@,
            ) {
                Some(i) => if 0 <= i < entries.len() {
                    item_text(entries[i].1)
                } else {
                    Seq::empty()
                },
                None => Seq::empty(),
            })
        },
        _ => Seq::empty(),
    }
}

/// The text segments of the first `n` items.
pub open spec fn item_text_of_first(items: Seq<JsonView>, n: nat) -> Seq<Seq<char>>
    decreases items, n,
{
    if n == 0 || n > items.len() {
        Seq::empty()
    } else {
        item_text_of_first(items, (n - 1) as nat) + item_text(items[n - 1])
    }
}

/// The texts of the content items of type `output_text`, in order.
pub open spec fn output_texts(items: Seq<JsonView>) -> Seq<Seq<char>>
    decreases items.len(),
{
    if items.len() == 0 {
        Seq::empty()
    } else {
        output_texts(items.drop_last()) + output_text(items.last())
    }
}

/// The text of a content item of type `output_text`, unless it is empty.
pub open spec fn output_text(item: JsonView) -> Seq<Seq<char>> {
    if item.at("type"@).text() == Some("output_text"@) {
        content::some_text_at(item, "text"@)
    } else {
        Seq::empty()
    }
}

/// The parts of an answer and the texts to fall back on, as far as they have been
/// read.
pub struct Reading {
    pub parts: Seq<AssistantPart>,
    pub fallback: Seq<Seq<char>>,
}

/// The text of a key where there is one that is not empty.
pub open spec fn filled(value: JsonView, key: Seq<char>) -> Option<Seq<char>> {
    match value.at(key).text() {
        Some(t) => if t.len() > 0 {
            Some(t)
        } else {
            None
        },
        None => None,
    }
}

/// The tool call that an output item describes: its id is the item's own, else the
/// call's, else made from the position.
pub open spec fn function_call(item: JsonView, index: int) -> AssistantPart {
    let call_id = filled(item, "call_id"@);
    AssistantPart::ToolCall(
        content::tool_call_view(
            match filled(item, "id"@) {
                Some(id) => id,
                None => match call_id {
                    Some(id) => id,
                    None => "function_call_"@ + text::decimal(index as nat),
                },
            },
            call_id,
            response::text_or_empty(item.at("name"@)),
            arguments::arguments_in(item.at("arguments"@)),
        ),
    )
}

/// One output item read: the output texts of a message, or, without any, its other
/// text to fall back on; a tool call; the text of any other item to fall back on.
pub open spec fn after_item(r: Reading, item: JsonView, index: int) -> Reading {
    let kind = item.at("type"@).text();
    if kind == Some("message"@) {
        match item.at("content"@).items() {
            Some(items) => {
                let texts = output_texts(items);
                if texts.len() == 0 {
                    Reading {
                        parts: r.parts,
                        fallback: r.fallback + item_text_of_first(items, items.len()),
                    }
                } else {
                    Reading {
                        parts: r.parts + response::text_parts(texts),
                        fallback: r.fallback,
                    }
                }
            },
            None => r,
        }
    } else if kind == Some("function_call"@) {
        Reading { parts: r.parts.push(function_call(item, index)), fallback: r.fallback }
    } else {
        Reading { parts: r.parts, fallback: r.fallback + item_text(item) }
    }
}

/// Output items read, one after the other.
pub open spec fn after_items(items: Seq<JsonView>) -> Reading
    decreases items.len(),
{
    if items.len() == 0 {
        Reading { parts: Seq::empty(), fallback: Seq::empty() }
    } else {
        after_item(after_items(items.drop_last()), items.last(), items.len() - 1)
    }
}

/// One of the parts is text.
pub open spec fn has_text(parts: Seq<AssistantPart>) -> bool {
    exists|i: int| 0 <= i < parts.len() && (#[trigger] parts[i]) is Text
}

/// The parts of the answer: the texts to fall back on come in where no other text
/// came.
pub open spec fn answer_parts(items: Seq<JsonView>) -> Seq<AssistantPart> {
    let read = after_items(items);
    if has_text(read.parts) {
        read.parts
    } else {
        read.parts + response::text_parts(read.fallback)
    }
}

/// The type of an item as error messages name it.
pub open spec fn shown_type(item: JsonView) -> Seq<char> {
    response::text_or_other(item.at("type"@), "<missing-type>"@)
}

/// What a reply of the Responses API says.
pub open spec fn responses_reply(body: JsonView, label: Seq<char>) -> Result<
    ResponseView,
    ErrorView,
> {
    match body.at("output"@).items() {
        None => Err(ErrorView::Response("missing output array"@)),
        Some(items) => {
            let parts = answer_parts(items);
            let usage = body.at("usage"@);
            if parts.len() == 0 {
                Err(
                    ErrorView::Response(
                        "empty or unsupported response from "@ + label
                            + " Responses API; expected text-bearing message content (output_text/text/summary/refusal/content) or function_call output items; received output types: "@
                            + text::joined(items.map_values(|i: JsonView| shown_type(i)), ", "@),
                    ),
                )
            } else {
                Ok(
                    ResponseView {
                        choice: parts,
                        usage: response::usage_of(
                            response::count(usage.at("input_tokens"@)),
                            response::count(usage.at("output_tokens"@)),
                            response::count(usage.at("input_tokens_details"@).at("cached_tokens"@)),
                        ),
                        body,
                        message_id: None,
                    },
                )
            }
        },
    }
}

/// Appends the text segments in an output item.
pub fn extract_text_content_from_responses_output_item(value: &Json, text_parts: &mut Vec<String>)
    ensures
        text::views(final(text_parts)@) == text::views(old(text_parts)@) + item_text(value@),
    decreases value,
{
    let ghost before = text::views(text_parts@);
    match value {
        Json::Array(items) => {
            let ghost all = json::json_views(items@);
            proof {
                assert(value@->Array_0 =~= all);
                assert(before + Seq::<Seq<char>>::empty() =~= before);
            }
            let mut i: usize = 0;
            while i < items.len()
                invariant
                    i <= items@.len(),
                    *value == Json::Array(*items),
                    all == json::json_views(items@),
                    text::views(text_parts@) == before + item_text_of_first(all, i as nat),
                decreases items@.len() - i,
            {
                proof {
                    assert(decreases_to!(*value => value->Array_0));
                    assert(decreases_to!(*items => items@));
                    assert(decreases_to!(items@ => items@[i as int]));
                    assert(all[i as int] == items@[i as int]@);
                    assert(before + item_text_of_first(all, i as nat) + item_text(all[i as int])
                        =~= before + (item_text_of_first(all, i as nat) + item_text(
                        all[i as int],
                    )));
                }
                extract_text_content_from_responses_output_item(&items[i], text_parts);
                i += 1;
            }
        },
        Json::Object(entries) => {
            proof {
                assert(value@->Object_0 =~= json::entry_views(entries@));
                json::lemma_key_position(value@->Object_0, "content"@);
            }
            let is_call = match value.str_at("type") {
                Some(kind) => text::same(kind, "function_call") || text::same(
                    kind,
                    "function_call_output",
                ),
                None => false,
            };
            if is_call {
                proof {
                    assert(before + Seq::<Seq<char>>::empty() =~= before);
                }
                return;
            }
            content::push_some_text_at(value, "text", text_parts);
            content::collect_text_content_at(value, "summary", text_parts);
            content::collect_text_content_at(value, "refusal", text_parts);
            let ghost three = content::some_text_at(value@, "text"@) + content::text_content_at(
                value@,
                "summary"@,
            ) + content::text_content_at(value@, "refusal"@);
            proof {
                assert(text::views(text_parts@) =~= before + three);
            }
            if let Some(inner) = value.get("content") {
                extract_text_content_from_responses_output_item(inner, text_parts);
                proof {
                    assert(text::views(text_parts@) =~= before + (three + item_text(inner@)));
                }
            } else {
                proof {
                    assert(text::views(text_parts@) =~= before + (three
                        + Seq::<Seq<char>>::empty()));
                }
            }
        },
        _ => {
            proof {
                assert(before + Seq::<Seq<char>>::empty() =~= before);
            }
        },
    }
}

/// Appends the text of a content item of type `output_text`, unless it is empty.
fn push_output_text(item: &Json, texts: &mut Vec<String>)
    ensures
        text::views(final(texts)@) == text::views(old(texts)@) + output_text(item@),
{
    let ghost before = text::views(texts@);
    let is_output = match item.at("type").as_str() {
        Some(kind) => text::same(kind, "output_text"),
        None => false,
    };
    if is_output {
        content::push_some_text_at(item, "text", texts);
    } else {
        proof {
            assert(before + Seq::<Seq<char>>::empty() =~= before);
        }
    }
}

/// The text of a key where there is one that is not empty.
fn filled_text(value: &Json, key: &str) -> (t: Option<String>)
    ensures
        text::view_of(t) == filled(value@, key@),
{
    match value.at(key).as_str() {
        Some(t) => if t.is_empty() {
            None
        } else {
            Some(t.to_owned())
        },
        None => None,
    }
}

/// The tool call that an output item describes.
fn call_of_item(item: &Json, index: usize) -> (part: AssistantContent)
    ensures
        part@ == function_call(item@, index as int),
{
    let call_id = filled_text(item, "call_id");
    let id = match filled_text(item, "id") {
        Some(id) => id,
        None => match &call_id {
            Some(id) => id.clone(),
            None => {
                let digits = text::decimal_of(index as u64);
                text::concat("function_call_", digits.as_str())
            },
        },
    };
    let name = match item.at("name").as_str() {
        Some(name) => name.to_owned(),
        None => String::new(),
    };
    let arguments = arguments::parse_openai_tool_arguments(item.at("arguments"));
    AssistantContent::ToolCall(
        content::make_openai_responses_tool_call(id, call_id, name, arguments),
    )
}

/// Reads one output item.
fn read_item(
    item: &Json,
    index: usize,
    parts: &mut Vec<AssistantContent>,
    fallback: &mut Vec<String>,
)
    ensures
        after_item(
            Reading {
                parts: message::assistant_parts(old(parts)@),
                fallback: text::views(old(fallback)@),
            },
            item@,
            index as int,
        ) == (Reading {
            parts: message::assistant_parts(final(parts)@),
            fallback: text::views(final(fallback)@),
        }),
{
    let ghost parts0 = message::assistant_parts(parts@);
    let ghost fallback0 = text::views(fallback@);
    let kind = item.at("type").as_str();
    let is_message = match kind {
        Some(k) => text::same(k, "message"),
        None => false,
    };
    let is_call = match kind {
        Some(k) => text::same(k, "function_call"),
        None => false,
    };
    if is_message {
        if let Some(items) = item.at("content").as_array() {
            let ghost all = json::json_views(items@);
            let mut texts: Vec<String> = Vec::new();
            let mut other: Vec<String> = Vec::new();
            let mut i: usize = 0;
            proof {
                assert(all.subrange(0, 0) =~= Seq::<JsonView>::empty());
                assert(text::views(texts@) =~= Seq::<Seq<char>>::empty());
                assert(text::views(other@) =~= Seq::<Seq<char>>::empty());
            }
            while i < items.len()
                invariant
                    i <= items@.len(),
                    all == json::json_views(items@),
                    text::views(texts@) == output_texts(all.subrange(0, i as int)),
                    text::views(other@) == item_text_of_first(all, i as nat),
                decreases items@.len() - i,
            {
                proof {
                    let next = all.subrange(0, i as int + 1);
                    assert(next.drop_last() =~= all.subrange(0, i as int));
                    assert(next.last() == items@[i as int]@);
                    assert(all[i as int] == items@[i as int]@);
                }
                push_output_text(&items[i], &mut texts);
                extract_text_content_from_responses_output_item(&items[i], &mut other);
                i += 1;
            }
            proof {
                assert(all.subrange(0, all.len() as int) =~= all);
            }
            if texts.is_empty() {
                let ghost had = fallback@;
                let ghost added = other@;
                fallback.append(&mut other);
                proof {
                    assert(fallback@ =~= had + added);
                    assert(text::views(fallback@) =~= fallback0 + text::views(added));
                }
            } else {
                response::push_texts(texts, parts);
            }
        }
    } else if is_call {
        let part = call_of_item(item, index);
        proof {
            assert(message::assistant_parts(parts@.push(part)) =~= parts0.push(part@));
        }
        parts.push(part);
    } else {
        extract_text_content_from_responses_output_item(item, fallback);
    }
}

/// Whether one of the parts is text.
fn holds_text(parts: &Vec<AssistantContent>) -> (yes: bool)
    ensures
        yes == has_text(message::assistant_parts(parts@)),
{
    let ghost views = message::assistant_parts(parts@);
    let mut i: usize = 0;
    while i < parts.len()
        invariant
            i <= parts@.len(),
            views == message::assistant_parts(parts@),
            forall|j: int| 0 <= j < i ==> !((#[trigger] views[j]) is Text),
        decreases parts@.len() - i,
    {
        if let AssistantContent::Text(_) = &parts[i] {
            proof {
                assert(views[i as int] is Text);
            }
            return true;
        }
        i += 1;
    }
    false
}

/// The types of output items as error messages name them.
fn shown_types(items: &Vec<Json>) -> (types: Vec<String>)
    ensures
        text::views(types@) == json::json_views(items@).map_values(|i: JsonView| shown_type(i)),
{
    let mut types: Vec<String> = Vec::new();
    let mut i: usize = 0;
    while i < items.len()
        invariant
            i <= items@.len(),
            types@.len() == i,
            forall|j: int| 0 <= j < i ==> (#[trigger] types@[j])@ == shown_type(items@[j]@),
        decreases items@.len() - i,
    {
        let shown = match items[i].at("type").as_str() {
            Some(kind) => kind.to_owned(),
            None => "<missing-type>".to_owned(),
        };
        types.push(shown);
        i += 1;
    }
    proof {
        assert(text::views(types@) =~= json::json_views(items@).map_values(
            |i: JsonView| shown_type(i),
        ));
    }
    types
}

/// Reads a reply of the Responses API.
pub fn parse_openai_responses_response(body: Json, provider_label: &str) -> (reply: Result<
    CompletionResponse,
    CompletionError,
>)
    ensures
        message::response_result(reply) == responses_reply(body@, provider_label@),
        reply is Ok ==> reply->Ok_0.choice@.len() > 0,
{
    let mut parts: Vec<AssistantContent> = Vec::new();
    let mut fallback: Vec<String> = Vec::new();
    match body.at("output").as_array() {
        Some(items) => {
            let ghost all = json::json_views(items@);
            let mut i: usize = 0;
            proof {
                assert(all.subrange(0, 0) =~= Seq::<JsonView>::empty());
                assert(message::assistant_parts(parts@) =~= Seq::<AssistantPart>::empty());
                assert(text::views(fallback@) =~= Seq::<Seq<char>>::empty());
            }
            while i < items.len()
                invariant
                    i <= items@.len(),
                    all == json::json_views(items@),
                    after_items(all.subrange(0, i as int)) == (Reading {
                        parts: message::assistant_parts(parts@),
                        fallback: text::views(fallback@),
                    }),
                decreases items@.len() - i,
            {
                proof {
                    let next = all.subrange(0, i as int + 1);
                    assert(next.drop_last() =~= all.subrange(0, i as int));
                    assert(next.last() == items@[i as int]@);
                }
                read_item(&items[i], i, &mut parts, &mut fallback);
                i += 1;
            }
            proof {
                assert(all.subrange(0, all.len() as int) =~= all);
            }
            if !holds_text(&parts) {
                response::push_texts(fallback, &mut parts);
            }
            if parts.is_empty() {
                let types = shown_types(items);
                let listed = text::join(&types, ", ");
                return Err(
                    CompletionError::ResponseError(
                        "empty or unsupported response from ".to_owned().concat(
                            provider_label,
                        ).concat(
                            " Responses API; expected text-bearing message content (output_text/text/summary/refusal/content) or function_call output items; received output types: ",
                        ).concat(listed.as_str()),
                    ),
                );
            }
        },
        None => {
            return Err(CompletionError::ResponseError("missing output array".to_owned()));
        },
    }
    let counts = body.at("usage");
    let usage = response::make_usage(
        response::count_of(counts.at("input_tokens")),
        response::count_of(counts.at("output_tokens")),
        response::count_of(counts.at("input_tokens_details").at("cached_tokens")),
    );
    Ok(
        CompletionResponse {
            choice: parts,
            usage,
            raw_response: RawResponse { body },
            message_id: None,
        },
    )
}

/// The reply that an event carries, where it is the one that completes the stream.
pub open spec fn completed_response(event: JsonView) -> Option<JsonView> {
    if event.at("type"@).text() == Some("response.completed"@) {
        event.get("response"@)
    } else {
        None
    }
}

/// The reply that a line of a stream carries, from what the reader makes of its
/// data.
pub open spec fn completed_in(data: Seq<char>, reading: Result<JsonView, Seq<char>>) -> Option<
    JsonView,
> {
    if sse::is_no_event(text::trimmed(data)) {
        None
    } else {
        match reading {
            Ok(event) => completed_response(event),
            Err(_) => None,
        }
    }
}

/// The reply that the first completing line of a stream carries.
pub open spec fn first_completed(lines: Seq<Seq<char>>) -> Option<JsonView>
    decreases lines.len(),
{
    if lines.len() == 0 {
        None
    } else {
        match first_completed(lines.drop_last()) {
            Some(reply) => Some(reply),
            None => match text::after_prefix(lines.last(), "data: "@) {
                Some(data) => completed_in(data, json::parsed(data)),
                None => None,
            },
        }
    }
}

/// The reply that a stream of the Responses API carries.
pub open spec fn responses_stream(response_text: Seq<char>, label: Seq<char>) -> Result<
    JsonView,
    ErrorView,
> {
    match first_completed(text::lines(response_text)) {
        Some(reply) => Ok(reply),
        None => Err(
            ErrorView::Provider(
                label + " Responses SSE stream missing response.completed event.\nBody: "@
                    + sse::truncated(response_text),
            ),
        ),
    }
}

/// The reply that a line's data carries, from what the reader made of it.
pub fn completed_reply(data: &str, reading: Result<Json, String>) -> (reply: Option<Json>)
    ensures
        json::json_view_of(reply) == completed_in(data@, arguments::reading_view(reading)),
{
    let trimmed = text::trim(data);
    if trimmed.as_str().is_empty() || text::same(trimmed.as_str(), "[DONE]") {
        return None;
    }
    match reading {
        Ok(event) => {
            let completes = match event.at("type").as_str() {
                Some(kind) => text::same(kind, "response.completed"),
                None => false,
            };
            if completes {
                match event.get("response") {
                    Some(reply) => Some(reply.duplicate()),
                    None => None,
                }
            } else {
                None
            }
        },
        Err(_) => None,
    }
}

/// Finds the reply that a stream of the Responses API carries.
pub fn parse_openai_responses_sse_response(response_text: &str, provider_label: &str) -> (reply:
    Result<Json, CompletionError>)
    ensures
        message::json_result(reply) == responses_stream(response_text@, provider_label@),
{
    let list = text::lines_of(response_text);
    let ghost all = text::lines(response_text@);
    let mut i: usize = 0;
    proof {
        assert(all.subrange(0, 0) =~= Seq::<Seq<char>>::empty());
    }
    while i < list.len()
        invariant
            i <= list@.len(),
            all == text::lines(response_text@),
            text::views(list@) == all,
            first_completed(all.subrange(0, i as int)) is None,
        decreases list@.len() - i,
    {
        proof {
            let next = all.subrange(0, i as int + 1);
            assert(next.drop_last() =~= all.subrange(0, i as int));
            assert(next.last() == list@[i as int]@);
        }
        if let Some(data) = text::strip_prefix(list[i].as_str(), "data: ") {
            let reading = Json::parse(data.as_str());
            if let Some(reply) = completed_reply(data.as_str(), reading) {
                proof {
                    lemma_first_completed_stays(all, i as int + 1);
                }
                return Ok(reply);
            }
        }
        i += 1;
    }
    proof {
        assert(all.subrange(0, all.len() as int) =~= all);
    }
    let body = sse::truncate_body(response_text);
    Err(
        CompletionError::ProviderError(
            provider_label.to_owned().concat(
                " Responses SSE stream missing response.completed event.\nBody: ",
            ).concat(body.as_str()),
        ),
    )
}

/// The first completing line decides; later ones change nothing.
proof fn lemma_first_completed_stays(lines: Seq<Seq<char>>, n: int)
    requires
        0 <= n <= lines.len(),
        first_completed(lines.subrange(0, n)) is Some,
    ensures
        first_completed(lines) == first_completed(lines.subrange(0, n)),
    decreases lines.len(),
{
    if n == lines.len() {
        assert(lines.subrange(0, n) =~= lines);
    } else {
        assert(lines.drop_last().subrange(0, n) =~= lines.subrange(0, n));
        lemma_first_completed_stays(lines.drop_last(), n);
    }
}

} // verus!
