//! What a provider's whole reply means: its status and its text.
use crate::json;
use crate::json::{Json, JsonView};
use crate::llm::api_error;
use crate::llm::arguments;
use crate::llm::message;
use crate::llm::message::{
    AssistantContent, CompletionError, CompletionResponse, ErrorView, ResponseView, ToolCall,
    ToolFunction,
};
use crate::llm::response;
use crate::llm::responses_api;
use crate::llm::sse;
use crate::text;
use vstd::prelude::*;

verus! {

/// A provider's error about a text that is no JSON.
pub open spec fn not_json(
    start: Seq<char>,
    status: Seq<char>,
    reason: Seq<char>,
    body: Seq<char>,
) -> ErrorView {
    ErrorView::Provider(
        start + " ("@ + status + ") is not valid JSON: "@ + reason + "\nBody: "@ + sse::truncated(
            body,
        ),
    )
}

/// A provider's error with its status and its message.
pub open spec fn api_failure(start: Seq<char>, status: Seq<char>, message: Seq<char>) -> ErrorView {
    ErrorView::Provider(start + " ("@ + status + "): "@ + message)
}

/// A provider's error about a text that is no JSON.
fn make_not_json(start: &str, status: &str, reason: &str, body: &str) -> (error: CompletionError)
    ensures
        error@ == not_json(start@, status@, reason@, body@),
{
    let a = text::concat(start, " (");
    let b = text::concat(a.as_str(), status);
    let c = text::concat(b.as_str(), ") is not valid JSON: ");
    let d = text::concat(c.as_str(), reason);
    let e = text::concat(d.as_str(), "\nBody: ");
    let short = sse::truncate_body(body);
    CompletionError::ProviderError(text::concat(e.as_str(), short.as_str()))
}

/// A provider's error with its status and its message.
fn make_api_failure(start: &str, status: &str, message: &str) -> (error: CompletionError)
    ensures
        error@ == api_failure(start@, status@, message@),
{
    let a = text::concat(start, " (");
    let b = text::concat(a.as_str(), status);
    let c = text::concat(b.as_str(), "): ");
    CompletionError::ProviderError(text::concat(c.as_str(), message))
}

// ---------------------------------------------------------------------------
// Anthropic
// ---------------------------------------------------------------------------

/// The body of an Anthropic reply, by what it reads as: anything but JSON is an error,
/// whatever the status, and so is a status that is no success.
pub open spec fn anthropic_body(
    status: Seq<char>,
    success: bool,
    response_text: Seq<char>,
    reading: Result<JsonView, Seq<char>>,
) -> Result<JsonView, ErrorView> {
    match reading {
        Err(reason) => Err(not_json("Anthropic response"@, status, reason, response_text)),
        Ok(body) => if success {
            Ok(body)
        } else {
            Err(
                api_failure(
                    "Anthropic API error"@,
                    status,
                    response::text_or_other(body.at("error"@).at("message"@), "unknown error"@),
                ),
            )
        },
    }
}

/// Chooses the body of an Anthropic reply by what it reads as.
pub fn choose_anthropic_body(
    status: &str,
    success: bool,
    response_text: &str,
    reading: Result<Json, String>,
) -> (result: Result<Json, CompletionError>)
    ensures
        message::json_result(result) == anthropic_body(
            status@,
            success,
            response_text@,
            arguments::reading_view(reading),
        ),
{
    match reading {
        Err(reason) => Err(
            make_not_json("Anthropic response", status, reason.as_str(), response_text),
        ),
        Ok(body) => if success {
            Ok(body)
        } else {
            let said = match body.at("error").at("message").as_str() {
                Some(t) => t.to_owned(),
                None => "unknown error".to_owned(),
            };
            Err(make_api_failure("Anthropic API error", status, said.as_str()))
        },
    }
}

/// What an Anthropic reply means.
pub open spec fn anthropic_outcome(status: u16, response_text: Seq<char>) -> Result<
    ResponseView,
    ErrorView,
> {
    match anthropic_body(
        api_error::status_line(status),
        api_error::is_success(status),
        response_text,
        json::parsed(response_text),
    ) {
        Ok(body) => response::anthropic_reply(body),
        Err(error) => Err(error),
    }
}

/// Reads an Anthropic reply.
pub fn read_anthropic_reply(status: u16, response_text: &str) -> (result: Result<
    CompletionResponse,
    CompletionError,
>)
    requires
        api_error::is_status(status),
    ensures
        message::response_result(result) == anthropic_outcome(status, response_text@),
{
    let line = api_error::show_status(status);
    let success = api_error::is_success_status(status);
    match choose_anthropic_body(line.as_str(), success, response_text, Json::parse(response_text)) {
        Ok(body) => response::parse_anthropic_response(body),
        Err(error) => Err(error),
    }
}

/// A part of a reply, with its tool call under the name that `original_name` gives.
pub open spec fn is_renamed<F: Fn(&String, &Vec<(String, String)>) -> String>(
    original_name: F,
    original_tools: Vec<(String, String)>,
    before: AssistantContent,
    after: AssistantContent,
) -> bool {
    match before {
        AssistantContent::ToolCall(call) => match after {
            AssistantContent::ToolCall(renamed) => {
                &&& call_ensures(
                    original_name,
                    (&call.function.name, &original_tools),
                    renamed.function.name,
                )
                &&& renamed == ToolCall {
                    function: ToolFunction { name: renamed.function.name, ..call.function },
                    ..call
                }
            },
            _ => false,
        },
        _ => after == before,
    }
}

/// A reply with its tool calls under the names that `original_name` gives. Everything
/// else is the same.
pub open spec fn are_renamed<F: Fn(&String, &Vec<(String, String)>) -> String>(
    original_name: F,
    original_tools: Vec<(String, String)>,
    before: CompletionResponse,
    after: CompletionResponse,
) -> bool {
    &&& after.usage == before.usage
    &&& after.raw_response == before.raw_response
    &&& after.message_id == before.message_id
    &&& after.choice@.len() == before.choice@.len()
    &&& forall|i: int|
        0 <= i < after.choice@.len() ==> is_renamed(
            original_name,
            original_tools,
            before.choice@[i],
            #[trigger] after.choice@[i],
        )
}

/// Gives the tool calls of a reply the names that the request's tools had, by
/// `original_name`. Everything else stays.
pub fn reverse_map_tool_names<F: Fn(&String, &Vec<(String, String)>) -> String>(
    completion: &mut CompletionResponse,
    original_tools: &Vec<(String, String)>,
    original_name: &F,
)
    requires
        forall|name: &String| #[trigger] call_requires(*original_name, (name, original_tools)),
    ensures
        are_renamed(*original_name, *original_tools, *old(completion), *final(completion)),
{
    let mut parts: Vec<AssistantContent> = Vec::new();
    core::mem::swap(&mut parts, &mut completion.choice);
    let ghost all = parts@;
    let mut renamed: Vec<AssistantContent> = Vec::new();
    for part in it: parts.into_iter()
        invariant
            it.seq() == all,
            renamed@.len() == it.index(),
            forall|name: &String| #[trigger] call_requires(*original_name, (name, original_tools)),
            forall|i: int|
                0 <= i < renamed@.len() ==> is_renamed(
                    *original_name,
                    *original_tools,
                    all[i],
                    #[trigger] renamed@[i],
                ),
    {
        let ghost before = part;
        let after = match part {
            AssistantContent::ToolCall(call) => {
                let name = original_name(&call.function.name, original_tools);
                AssistantContent::ToolCall(
                    ToolCall {
                        id: call.id,
                        call_id: call.call_id,
                        function: ToolFunction { name, arguments: call.function.arguments },
                        signature: call.signature,
                        additional_params: call.additional_params,
                    },
                )
            },
            other => other,
        };
        proof {
            assert(is_renamed(*original_name, *original_tools, before, after));
        }
        renamed.push(after);
    }
    completion.choice = renamed;
}

/// Gives the tool calls of a reply the names that the request's tools had, where the
/// request went out under an OAuth token, which renames tools, and offered any.
pub fn restore_tool_names<F: Fn(&String, &Vec<(String, String)>) -> String>(
    completion: &mut CompletionResponse,
    is_oauth: bool,
    original_tools: &Vec<(String, String)>,
    original_name: &F,
)
    requires
        forall|name: &String| #[trigger] call_requires(*original_name, (name, original_tools)),
    ensures
        if is_oauth && original_tools@.len() > 0 {
            are_renamed(*original_name, *original_tools, *old(completion), *final(completion))
        } else {
            *final(completion) == *old(completion)
        },
{
    if is_oauth && original_tools.len() > 0 {
        reverse_map_tool_names(completion, original_tools, original_name);
    }
}

// ---------------------------------------------------------------------------
// Responses API
// ---------------------------------------------------------------------------

/// The body of a reply of the Responses API, by what it reads as. An error's message
/// is taken out of the text; ChatGPT's reply is the end of a stream.
pub open spec fn responses_reply_body(
    label: Seq<char>,
    status: Seq<char>,
    success: bool,
    is_chatgpt: bool,
    response_text: Seq<char>,
    reading: Result<JsonView, Seq<char>>,
    streamed: Result<JsonView, ErrorView>,
) -> Result<JsonView, ErrorView> {
    if !success {
        Err(
            api_failure(
                label + " Responses API error"@,
                status,
                match api_error::error_text_in(reading) {
                    Some(said) => said,
                    None => "unknown error"@,
                },
            ),
        )
    } else if is_chatgpt {
        streamed
    } else {
        match reading {
            Ok(body) => Ok(body),
            Err(reason) => Err(
                not_json(label + " Responses API response"@, status, reason, response_text),
            ),
        }
    }
}

/// What a reply of the Responses API means.
pub open spec fn responses_outcome(
    label: Seq<char>,
    status: u16,
    is_chatgpt: bool,
    response_text: Seq<char>,
) -> Result<ResponseView, ErrorView> {
    match responses_reply_body(
        label,
        api_error::status_line(status),
        api_error::is_success(status),
        is_chatgpt,
        response_text,
        json::parsed(response_text),
        responses_api::responses_stream(response_text, label),
    ) {
        Ok(body) => responses_api::responses_reply(body, label),
        Err(error) => Err(error),
    }
}

/// Chooses the body of a reply of the Responses API by what it reads as.
pub fn choose_responses_body(
    label: &str,
    status: &str,
    success: bool,
    is_chatgpt: bool,
    response_text: &str,
    reading: Result<Json, String>,
    streamed: Result<Json, CompletionError>,
) -> (result: Result<Json, CompletionError>)
    ensures
        message::json_result(result) == responses_reply_body(
            label@,
            status@,
            success,
            is_chatgpt,
            response_text@,
            arguments::reading_view(reading),
            message::json_result(streamed),
        ),
{
    if !success {
        let said = match &reading {
            Ok(body) => api_error::openai_error_message(body),
            Err(_) => None,
        };
        let shown = match said {
            Some(t) => t,
            None => "unknown error".to_owned(),
        };
        let start = text::concat(label, " Responses API error");
        return Err(make_api_failure(start.as_str(), status, shown.as_str()));
    }
    if is_chatgpt {
        return streamed;
    }
    match reading {
        Ok(body) => Ok(body),
        Err(reason) => {
            let start = text::concat(label, " Responses API response");
            Err(make_not_json(start.as_str(), status, reason.as_str(), response_text))
        },
    }
}

/// Reads a reply of the Responses API.
pub fn read_responses_reply(
    label: &str,
    status: u16,
    is_chatgpt: bool,
    response_text: &str,
) -> (result: Result<CompletionResponse, CompletionError>)
    requires
        api_error::is_status(status),
    ensures
        message::response_result(result) == responses_outcome(
            label@,
            status,
            is_chatgpt,
            response_text@,
        ),
{
    let line = api_error::show_status(status);
    let success = api_error::is_success_status(status);
    let streamed = responses_api::parse_openai_responses_sse_response(response_text, label);
    match choose_responses_body(
        label,
        line.as_str(),
        success,
        is_chatgpt,
        response_text,
        Json::parse(response_text),
        streamed,
    ) {
        Ok(body) => responses_api::parse_openai_responses_response(body, label),
        Err(error) => Err(error),
    }
}

/// The error of a chat-completions request that was answered with a status that is no
/// success.
pub open spec fn chat_failure(
    label: Seq<char>,
    status: u16,
    response_text: Seq<char>,
) -> ErrorView {
    ErrorView::Provider(
        label + " API error ("@ + api_error::api_error_in(
            api_error::status_line(status),
            response_text,
            json::parsed(response_text),
        ) + ")"@,
    )
}

/// Reads the error of a chat-completions request.
pub fn read_chat_failure(label: &str, status: u16, response_text: &str) -> (error: CompletionError)
    requires
        api_error::is_status(status),
    ensures
        error@ == chat_failure(label@, status, response_text@),
{
    let line = api_error::format_api_error_from_response_text(status, response_text);
    let start = text::concat(label, " API error (");
    let middle = text::concat(start.as_str(), line.as_str());
    CompletionError::ProviderError(text::concat(middle.as_str(), ")"))
}

} // verus!
