//! Text and tool calls inside a provider's JSON: the shapes that providers use
//! for message content, wherever a reply or a stream event carries them.
use crate::json;
use crate::json::{Json, JsonView};
use crate::llm::arguments;
use crate::llm::message;
use crate::llm::message::{ToolCall, ToolCallView, ToolFunction};
use crate::text;
use vstd::prelude::*;

verus! {

/// The text of a key as a sequence of at most one: none where it is missing, no
/// string, or empty.
pub open spec fn some_text_at(value: JsonView, key: Seq<char>) -> Seq<Seq<char>> {
    match value.text_at(key) {
        Some(t) => if t.len() > 0 {
            seq![t]
        } else {
            Seq::empty()
        },
        None => Seq::empty(),
    }
}

/// The text segments in a content value, in order: a string is a segment unless
/// it is empty, an array holds those of its items, and an object those of its
/// `text`, `summary`, `refusal` and, in depth, `content`. Segments of white space
/// are kept.
pub open spec fn text_content(value: JsonView) -> Seq<Seq<char>>
    decreases value, 0nat,
{
    match value {
        JsonView::Str(s) => if s.len() > 0 {
            seq![s]
        } else {
            Seq::empty()
        },
        JsonView::Array(items) => text_content_of_first(items, items.len()),
        JsonView::Object(entries) => some_text_at(value, "text"@) + some_text_at(
            value,
            "summary"@,
        ) + some_text_at(value, "refusal"@) + (match json::key_position(entries, "content"@) {
            Some(i) => if 0 <= i < entries.len() {
                text_content(entries[i].1)
            } else {
                Seq::empty()
            },
            None => Seq::empty(),
        }),
        _ => Seq::empty(),
    }
}

/// The text segments of the first `n` items.
pub open spec fn text_content_of_first(items: Seq<JsonView>, n: nat) -> Seq<Seq<char>>
    decreases items, n,
{
    if n == 0 || n > items.len() {
        Seq::empty()
    } else {
        text_content_of_first(items, (n - 1) as nat) + text_content(items[n - 1])
    }
}

/// The text segments in the value of a key.
pub open spec fn text_content_at(value: JsonView, key: Seq<char>) -> Seq<Seq<char>> {
    match value.get(key) {
        Some(content) => text_content(content),
        None => Seq::empty(),
    }
}

/// No text segment of a content value is empty.
pub proof fn lemma_text_content_is_filled(value: JsonView)
    ensures
        text::all_filled(text_content(value)),
    decreases value, 0nat,
{
    match value {
        JsonView::Array(items) => lemma_first_contents_are_filled(items, items.len()),
        JsonView::Object(entries) => {
            let text = some_text_at(value, "text"@);
            let summary = some_text_at(value, "summary"@);
            let refusal = some_text_at(value, "refusal"@);
            text::lemma_filled_lists(text, summary);
            text::lemma_filled_lists(text + summary, refusal);
            match json::key_position(entries, "content"@) {
                Some(i) => if 0 <= i < entries.len() {
                    lemma_text_content_is_filled(entries[i].1);
                    text::lemma_filled_lists(
                        text + summary + refusal,
                        text_content(entries[i].1),
                    );
                },
                None => {},
            }
            text::lemma_filled_lists(text + summary + refusal, Seq::empty());
        },
        _ => {},
    }
}

/// No text segment of the first `n` items is empty.
proof fn lemma_first_contents_are_filled(items: Seq<JsonView>, n: nat)
    ensures
        text::all_filled(text_content_of_first(items, n)),
    decreases items, n,
{
    if 0 < n <= items.len() {
        lemma_first_contents_are_filled(items, (n - 1) as nat);
        lemma_text_content_is_filled(items[n - 1]);
        text::lemma_filled_lists(
            text_content_of_first(items, (n - 1) as nat),
            text_content(items[n - 1]),
        );
    }
}

/// No text segment in the value of a key is empty.
pub proof fn lemma_text_content_at_is_filled(value: JsonView, key: Seq<char>)
    ensures
        text::all_filled(text_content_at(value, key)),
{
    match value.get(key) {
        Some(content) => lemma_text_content_is_filled(content),
        None => {},
    }
}

/// Appends the text of a key, unless it is missing, no string, or empty.
pub fn push_some_text_at(value: &Json, key: &str, text_parts: &mut Vec<String>)
    ensures
        text::views(final(text_parts)@) == text::views(old(text_parts)@) + some_text_at(
            value@,
            key@,
        ),
{
    let ghost before = text::views(text_parts@);
    if let Some(t) = value.str_at(key) {
        if !t.is_empty() {
            let owned = t.to_owned();
            text_parts.push(owned);
            proof {
                assert(text::views(text_parts@) =~= before + seq![t@]);
            }
            return;
        }
    }
    proof {
        assert(before + Seq::<Seq<char>>::empty() =~= before);
    }
}

/// Appends the text segments in a content value.
pub fn collect_openai_text_content(value: &Json, text_parts: &mut Vec<String>)
    ensures
        text::views(final(text_parts)@) == text::views(old(text_parts)@) + text_content(value@),
    decreases value,
{
    let ghost before = text::views(text_parts@);
    match value {
        Json::Str(s) => {
            if !s.as_str().is_empty() {
                text_parts.push(s.clone());
                proof {
                    assert(text::views(text_parts@) =~= before + seq![s@]);
                }
            } else {
                proof {
                    assert(before + Seq::<Seq<char>>::empty() =~= before);
                }
            }
        },
        Json::Array(items) => {
            let ghost all = json::json_views(items@);
            proof {
                assert(value@->Array_0 =~= all);
                assert(before + Seq::<Seq<char>>::empty() =~= before);
            }
            let mut i: usize = 0;
            while i < items.len()
                invariant
                    i <= items@.len(),
                    *value == Json::Array(*items),
                    all == json::json_views(items@),
                    text::views(text_parts@) == before + text_content_of_first(all, i as nat),
                decreases items@.len() - i,
            {
                proof {
                    assert(decreases_to!(*value => value->Array_0));
                    assert(decreases_to!(*items => items@));
                    assert(decreases_to!(items@ => items@[i as int]));
                    assert(all[i as int] == items@[i as int]@);
                    assert(before + text_content_of_first(all, i as nat) + text_content(
                        all[i as int],
                    ) =~= before + (text_content_of_first(all, i as nat) + text_content(
                        all[i as int],
                    )));
                }
                collect_openai_text_content(&items[i], text_parts);
                i += 1;
            }
        },
        Json::Object(entries) => {
            proof {
                assert(value@->Object_0 =~= json::entry_views(entries@));
                json::lemma_key_position(value@->Object_0, "content"@);
            }
            push_some_text_at(value, "text", text_parts);
            push_some_text_at(value, "summary", text_parts);
            push_some_text_at(value, "refusal", text_parts);
            let ghost three = some_text_at(value@, "text"@) + some_text_at(value@, "summary"@)
                + some_text_at(value@, "refusal"@);
            proof {
                assert(text::views(text_parts@) =~= before + three);
            }
            if let Some(content) = value.get("content") {
                collect_openai_text_content(content, text_parts);
                proof {
                    assert(text::views(text_parts@) =~= before + (three + text_content(content@)));
                }
            } else {
                proof {
                    assert(text::views(text_parts@) =~= before + (three
                        + Seq::<Seq<char>>::empty()));
                }
            }
        },
        _ => {
            proof {
                assert(before + Seq::<Seq<char>>::empty() =~= before);
            }
        },
    }
}

/// Appends the text segments in the value of a key.
pub fn collect_text_content_at(value: &Json, key: &str, text_parts: &mut Vec<String>)
    ensures
        text::views(final(text_parts)@) == text::views(old(text_parts)@) + text_content_at(
            value@,
            key@,
        ),
{
    let ghost before = text::views(text_parts@);
    match value.get(key) {
        Some(content) => collect_openai_text_content(content, text_parts),
        None => {
            proof {
                assert(before + Seq::<Seq<char>>::empty() =~= before);
            }
        },
    }
}

/// A tool call with the given id, name and arguments. The name stands without
/// white space around it.
pub open spec fn tool_call_view(
    id: Seq<char>,
    call_id: Option<Seq<char>>,
    name: Seq<char>,
    arguments: JsonView,
) -> ToolCallView {
    ToolCallView {
        id,
        call_id,
        name: text::trimmed(name),
        arguments,
        signature: None,
        additional_params: None,
    }
}

/// A tool call with the given id, name and arguments.
pub fn make_tool_call(id: String, name: String, arguments: Json) -> (call: ToolCall)
    ensures
        call@ == tool_call_view(id@, None, name@, arguments@),
{
    ToolCall {
        id,
        call_id: None,
        function: ToolFunction { name: text::trim(name.as_str()), arguments },
        signature: None,
        additional_params: None,
    }
}

/// A tool call of the Responses API, which may carry a call id of its own.
pub fn make_openai_responses_tool_call(
    id: String,
    call_id: Option<String>,
    name: String,
    arguments: Json,
) -> (call: ToolCall)
    ensures
        call@ == tool_call_view(id@, text::view_of(call_id), name@, arguments@),
{
    ToolCall {
        id,
        call_id,
        function: ToolFunction { name: text::trim(name.as_str()), arguments },
        signature: None,
        additional_params: None,
    }
}

/// The value of `outer`'s key `inner`, where `outer` is there.
pub open spec fn nested(value: JsonView, outer: Seq<char>, inner: Seq<char>) -> Option<JsonView> {
    match value.get(outer) {
        Some(v) => v.get(inner),
        None => None,
    }
}

/// The text of `outer`'s key `inner`.
pub open spec fn nested_text(value: JsonView, outer: Seq<char>, inner: Seq<char>) -> Option<
    Seq<char>,
> {
    match nested(value, outer, inner) {
        Some(v) => v.text(),
        None => None,
    }
}

/// The name in a tool call's JSON, without white space around it: that of its
/// `function`, else its own.
pub open spec fn tool_name(call: JsonView) -> Seq<char> {
    match nested_text(call, "function"@, "name"@) {
        Some(name) => text::trimmed(name),
        None => match call.text_at("name"@) {
            Some(name) => text::trimmed(name),
            None => Seq::empty(),
        },
    }
}

/// The id in a tool call's JSON: its `id`, else its `call_id`; the fallback where
/// that is missing or empty.
pub open spec fn tool_id(call: JsonView, fallback_id: Seq<char>) -> Seq<char> {
    let id = match call.text_at("id"@) {
        Some(id) => Some(id),
        None => call.text_at("call_id"@),
    };
    match id {
        Some(id) => if id.len() > 0 {
            id
        } else {
            fallback_id
        },
        None => fallback_id,
    }
}

/// The arguments in a tool call's JSON: those of its `function`, else its own.
pub open spec fn tool_arguments(call: JsonView) -> JsonView {
    arguments::arguments_in(
        match nested(call, "function"@, "arguments"@) {
            Some(field) => field,
            None => call.at("arguments"@),
        },
    )
}

/// The tool call that a reply's JSON describes. Without a name there is none.
pub open spec fn parsed_tool_call(call: JsonView, fallback_id: Seq<char>) -> Option<ToolCallView> {
    if tool_name(call).len() == 0 {
        None
    } else {
        Some(
            tool_call_view(
                tool_id(call, fallback_id),
                None,
                tool_name(call),
                tool_arguments(call),
            ),
        )
    }
}

/// The tool call that a reply's JSON describes.
pub fn parse_openai_tool_call(tool_call: &Json, fallback_id: String) -> (parsed: Option<ToolCall>)
    ensures
        match parsed {
            Some(call) => parsed_tool_call(tool_call@, fallback_id@) == Some(call@),
            None => parsed_tool_call(tool_call@, fallback_id@) is None,
        },
{
    let function = tool_call.get("function");
    let function_name = match function {
        Some(f) => f.str_at("name"),
        None => None,
    };
    let name = match function_name {
        Some(name) => text::trim(name),
        None => match tool_call.str_at("name") {
            Some(name) => text::trim(name),
            None => String::new(),
        },
    };
    if name.as_str().is_empty() {
        return None;
    }
    let found_id = match tool_call.str_at("id") {
        Some(id) => Some(id),
        None => tool_call.str_at("call_id"),
    };
    let id = match found_id {
        Some(id) => if id.is_empty() {
            fallback_id
        } else {
            id.to_owned()
        },
        None => fallback_id,
    };
    let function_arguments = match function {
        Some(f) => f.get("arguments"),
        None => None,
    };
    let field = match function_arguments {
        Some(field) => field,
        None => tool_call.at("arguments"),
    };
    let arguments = arguments::parse_openai_tool_arguments(field);
    Some(make_tool_call(id, name, arguments))
}

/// The name given to the tool call at a position that has no id of its own.
pub open spec fn numbered_call(index: int) -> Seq<char> {
    "tool_call_"@ + text::decimal(index as nat)
}

/// The name given to the tool call at a position that has no id of its own.
pub fn numbered_call_id(index: usize) -> (id: String)
    ensures
        id@ == numbered_call(index as int),
        id@.len() > 0,
{
    let digits = text::decimal_of(index as u64);
    proof {
        reveal_strlit("tool_call_");
    }
    text::concat("tool_call_", digits.as_str())
}

} // verus!
