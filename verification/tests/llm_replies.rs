//! What providers answer, what goes back to them, and how a stream is put together.
use spacebot::json::Json;
use spacebot::llm::api_error::format_api_error;
use spacebot::llm::chat_sse::parse_openai_chat_sse_response;
use spacebot::llm::convert::{
    convert_messages_to_anthropic, convert_messages_to_openai,
    convert_messages_to_openai_responses,
};
use spacebot::llm::message::{
    AssistantContent, CompletionError, CompletionResponse, Message, RawResponse,
    RawStreamingChoice, RawStreamingResponse, Reasoning, ReasoningContent, Text, ToolCall,
    ToolCallDeltaContent, ToolFunction, ToolResult, ToolResultContent, Usage, UserContent,
};
use spacebot::llm::pending::{flush_openai_streaming_tool_calls, OpenAiStreamingToolCall};
use spacebot::llm::reply::reverse_map_tool_names;
use spacebot::llm::request::remap_model_name_for_api;
use spacebot::llm::response::{parse_anthropic_response, parse_openai_response};
use spacebot::llm::responses_api::parse_openai_responses_response;
use spacebot::llm::sse::extract_sse_data_payload;
use spacebot::llm::stream_event::process_openai_chat_stream_event;
use std::collections::BTreeMap;

fn json(text: &str) -> Json {
    Json::parse(text).expect("valid JSON")
}

fn item(value: &Json, index: usize) -> &Json {
    &value.as_array().expect("an array")[index]
}

fn text_part(text: &str) -> AssistantContent {
    AssistantContent::Text(Text { text: text.to_string() })
}

fn tool_call_part(id: &str, name: &str, arguments: &str) -> AssistantContent {
    AssistantContent::ToolCall(ToolCall {
        id: id.to_string(),
        call_id: None,
        function: ToolFunction { name: name.to_string(), arguments: json(arguments) },
        signature: None,
        additional_params: None,
    })
}

fn assistant(content: Vec<AssistantContent>) -> Message {
    Message::Assistant { id: None, content }
}

fn reasoning_text(text: &str) -> ReasoningContent {
    ReasoningContent::Text { text: text.to_string(), signature: None }
}

fn texts_of(choice: &[AssistantContent]) -> Vec<String> {
    choice
        .iter()
        .filter_map(|content| match content {
            AssistantContent::Text(text) => Some(text.text.clone()),
            _ => None,
        })
        .collect()
}

fn tool_calls_of(
    events: Vec<RawStreamingChoice>,
) -> Vec<spacebot::llm::message::RawStreamingToolCall> {
    events
        .into_iter()
        .filter_map(|event| match event {
            RawStreamingChoice::ToolCall(tool_call) => Some(tool_call),
            _ => None,
        })
        .collect()
}

#[test]
fn reverse_map_restores_original_tool_names() {
    let original_tools = vec![
        ("my_read".to_string(), "reads files".to_string()),
        ("my_bash".to_string(), "runs commands".to_string()),
    ];

    let mut completion = CompletionResponse {
        choice: vec![tool_call_part("tc1", "My_Read", "{}")],
        usage: Usage {
            input_tokens: 0,
            output_tokens: 0,
            total_tokens: 0,
            cached_input_tokens: 0,
        },
        raw_response: RawResponse { body: json("{}") },
        message_id: None,
    };

    let original_name = |name: &String, tools: &Vec<(String, String)>| -> String {
        tools
            .iter()
            .find(|(original, _)| original.eq_ignore_ascii_case(name))
            .map(|(original, _)| original.clone())
            .unwrap_or_else(|| name.clone())
    };
    reverse_map_tool_names(&mut completion, &original_tools, &original_name);

    if let AssistantContent::ToolCall(tc) = &completion.choice[0] {
        assert_eq!(tc.function.name, "my_read");
    } else {
        panic!("expected ToolCall");
    }
}

#[test]
fn coding_plan_model_name_uses_plain_glm_id() {
    assert_eq!(remap_model_name_for_api("zai-coding-plan", "glm-5"), "glm-5");
    assert_eq!(remap_model_name_for_api("zai-coding-plan", "zai/glm-5"), "glm-5");
    assert_eq!(remap_model_name_for_api("openai", "gpt-4o-mini"), "gpt-4o-mini");
    assert_eq!(remap_model_name_for_api("openai", "zai/glm-5"), "zai/glm-5");
}

#[test]
fn parse_anthropic_response_drops_empty_text_blocks() {
    let body = json(
        r#"{
            "content": [
                {"type": "text", "text": ""},
                {"type": "text", "text": "   "},
                {
                    "type": "tool_use",
                    "id": "call_1",
                    "name": "reply",
                    "input": {"content": "hi"}
                }
            ],
            "usage": {"input_tokens": 1, "output_tokens": 2}
        }"#,
    );

    let response = parse_anthropic_response(body).expect("valid response");
    assert_eq!(response.choice.len(), 1);
    assert!(matches!(response.choice[0], AssistantContent::ToolCall(_)));
}

#[test]
fn convert_messages_to_anthropic_omits_empty_text_messages() {
    let messages = vec![
        Message::User { content: vec![UserContent::Text(Text { text: "   ".to_string() })] },
        assistant(vec![text_part("")]),
        assistant(vec![tool_call_part("call_1", "reply", r#"{"content": "ok"}"#)]),
    ];

    let converted = convert_messages_to_anthropic(&messages);
    assert_eq!(converted.len(), 1);
    assert_eq!(converted[0].str_at("role"), Some("assistant"));
    assert_eq!(item(converted[0].at("content"), 0).str_at("type"), Some("tool_use"));
}

#[test]
fn end_turn_placeholder_is_not_forwarded_back_to_anthropic() {
    let body = json(
        r#"{
            "content": [],
            "stop_reason": "end_turn",
            "usage": {"input_tokens": 1, "output_tokens": 0}
        }"#,
    );

    let response = parse_anthropic_response(body).expect("valid response");
    let history = vec![assistant(response.choice)];

    let converted = convert_messages_to_anthropic(&history);
    assert!(converted.is_empty());
}

#[test]
fn empty_non_end_turn_response_returns_error() {
    let body = json(
        r#"{
            "content": [],
            "stop_reason": "max_tokens",
            "usage": {"input_tokens": 1, "output_tokens": 0}
        }"#,
    );

    let error = parse_anthropic_response(body).expect_err("should fail");
    assert!(matches!(error, CompletionError::ResponseError(_)));
    assert!(error.message().contains("stop_reason: max_tokens"));
}

#[test]
fn parse_openai_response_handles_content_array_parts() {
    let body = json(
        r#"{
            "choices": [{
                "message": {
                    "content": [
                        {"type": "text", "text": "First"},
                        {"type": "output_text", "text": "Second"}
                    ]
                },
                "finish_reason": "stop"
            }],
            "usage": {
                "prompt_tokens": 5,
                "completion_tokens": 3,
                "prompt_tokens_details": {"cached_tokens": 0}
            }
        }"#,
    );

    let response = parse_openai_response(body, "OpenRouter").expect("valid response");
    assert_eq!(texts_of(&response.choice), vec!["First".to_string(), "Second".to_string()]);
}

#[test]
fn parse_openai_response_uses_reasoning_when_content_is_empty() {
    let body = json(
        r#"{
            "choices": [{
                "message": {
                    "content": "",
                    "reasoning": "Reasoning fallback output"
                },
                "finish_reason": "stop"
            }],
            "usage": {
                "prompt_tokens": 5,
                "completion_tokens": 1,
                "prompt_tokens_details": {"cached_tokens": 0}
            }
        }"#,
    );

    let response = parse_openai_response(body, "OpenRouter").expect("valid response");
    match &response.choice[0] {
        AssistantContent::Text(text) => assert_eq!(text.text, "Reasoning fallback output"),
        _ => panic!("expected text content"),
    }
}

#[test]
fn parse_openai_response_handles_legacy_function_call() {
    let body = json(
        r#"{
            "choices": [{
                "message": {
                    "content": null,
                    "function_call": {
                        "name": "reply",
                        "arguments": "{\"content\":\"ok\"}"
                    }
                },
                "finish_reason": "function_call"
            }],
            "usage": {
                "prompt_tokens": 5,
                "completion_tokens": 1,
                "prompt_tokens_details": {"cached_tokens": 0}
            }
        }"#,
    );

    let response = parse_openai_response(body, "OpenRouter").expect("valid response");
    match &response.choice[0] {
        AssistantContent::ToolCall(tool_call) => {
            assert_eq!(tool_call.function.name, "reply");
            assert_eq!(tool_call.function.arguments.str_at("content"), Some("ok"));
            assert!(!tool_call.id.is_empty());
        }
        _ => panic!("expected tool call"),
    }
}

#[test]
fn convert_messages_to_openai_preserves_reasoning_for_tool_calls() {
    let messages = vec![assistant(vec![
        AssistantContent::Reasoning(Reasoning {
            id: None,
            content: vec![reasoning_text("step one"), reasoning_text("step two")],
        }),
        tool_call_part("call_1", "file", r#"{"operation": "list", "path": "."}"#),
    ])];

    let converted = convert_messages_to_openai(&messages);
    assert_eq!(converted.len(), 1);
    assert_eq!(converted[0].str_at("role"), Some("assistant"));
    assert!(converted[0].at("content").is_null());
    assert_eq!(converted[0].str_at("reasoning_content"), Some("step one\nstep two"));
    let function = item(converted[0].at("tool_calls"), 0).at("function");
    assert_eq!(function.str_at("name"), Some("file"));
    assert_eq!(
        function.str_at("arguments"),
        Some("{\"operation\":\"list\",\"path\":\".\"}")
    );
}

#[test]
fn convert_messages_to_openai_responses_preserves_reasoning_for_tool_calls() {
    let messages = vec![assistant(vec![
        AssistantContent::Reasoning(Reasoning {
            id: None,
            content: vec![reasoning_text("inspect identity files")],
        }),
        tool_call_part("call_1", "file", r#"{"operation": "list", "path": "."}"#),
    ])];

    let converted = convert_messages_to_openai_responses(&messages);
    assert_eq!(converted.len(), 2);
    assert_eq!(converted[0].str_at("role"), Some("assistant"));
    assert_eq!(converted[0].at("content"), &json("[]"));
    assert_eq!(converted[0].str_at("reasoning_content"), Some("inspect identity files"));
    assert_eq!(converted[1].str_at("type"), Some("function_call"));
    assert_eq!(converted[1].str_at("name"), Some("file"));
}

#[test]
fn convert_messages_to_openai_preserves_empty_reasoning_content_for_redacted_reasoning() {
    let messages = vec![assistant(vec![AssistantContent::Reasoning(Reasoning {
        id: Some("rs_123".to_string()),
        content: vec![ReasoningContent::Redacted { data: "hidden".to_string() }],
    })])];

    let converted = convert_messages_to_openai(&messages);
    assert_eq!(converted.len(), 1);
    assert!(converted[0].at("content").is_null());
    assert_eq!(converted[0].str_at("reasoning_content"), Some(""));
}

#[test]
fn convert_messages_to_openai_responses_preserves_empty_reasoning_content_for_redacted_reasoning()
{
    let messages = vec![assistant(vec![AssistantContent::Reasoning(Reasoning {
        id: Some("rs_456".to_string()),
        content: vec![ReasoningContent::Encrypted("ciphertext".to_string())],
    })])];

    let converted = convert_messages_to_openai_responses(&messages);
    assert_eq!(converted.len(), 1);
    assert_eq!(converted[0].at("content"), &json("[]"));
    assert_eq!(converted[0].str_at("reasoning_content"), Some(""));
}

#[test]
fn parse_openai_response_empty_error_includes_provider_and_finish_reason() {
    let body = json(
        r#"{
            "choices": [{
                "message": {
                    "content": ""
                },
                "finish_reason": "stop"
            }],
            "usage": {
                "prompt_tokens": 5,
                "completion_tokens": 0,
                "prompt_tokens_details": {"cached_tokens": 0}
            }
        }"#,
    );

    let error = parse_openai_response(body, "OpenRouter").expect_err("should fail");
    assert!(error.message().contains("empty response from OpenRouter"));
    assert!(error.message().contains("finish_reason: stop"));
}

fn tool_result_message() -> Message {
    Message::User {
        content: vec![UserContent::ToolResult(ToolResult {
            id: "legacy-id".to_string(),
            call_id: Some("stable-call-id".to_string()),
            content: vec![ToolResultContent::Text(Text { text: "ok".to_string() })],
        })],
    }
}

#[test]
fn convert_messages_to_openai_tool_result_prefers_call_id_over_id() {
    let converted = convert_messages_to_openai(&vec![tool_result_message()]);
    assert_eq!(converted.len(), 1);
    assert_eq!(converted[0].str_at("role"), Some("tool"));
    assert_eq!(converted[0].str_at("tool_call_id"), Some("stable-call-id"));
}

#[test]
fn convert_messages_to_openai_responses_function_call_output_prefers_call_id_over_id() {
    let converted = convert_messages_to_openai_responses(&vec![tool_result_message()]);
    assert_eq!(converted.len(), 1);
    assert_eq!(converted[0].str_at("type"), Some("function_call_output"));
    assert_eq!(converted[0].str_at("call_id"), Some("stable-call-id"));
}

#[test]
fn convert_messages_to_openai_responses_function_call_prefers_call_id_over_id() {
    let messages = vec![assistant(vec![AssistantContent::ToolCall(ToolCall {
        id: "legacy-id".to_string(),
        call_id: Some("stable-call-id".to_string()),
        function: ToolFunction {
            name: "reply".to_string(),
            arguments: json(r#"{"content": "ok"}"#),
        },
        signature: None,
        additional_params: None,
    })])];

    let converted = convert_messages_to_openai_responses(&messages);
    assert_eq!(converted.len(), 1);
    assert_eq!(converted[0].str_at("type"), Some("function_call"));
    assert_eq!(converted[0].str_at("call_id"), Some("stable-call-id"));
}

#[test]
fn parse_openai_responses_response_parses_fallback_text_without_output_text() {
    let body = json(
        r#"{
            "output": [{
                "type": "message",
                "content": [{
                    "type": "reasoning",
                    "summary": [
                        {"text": "step 1"},
                        {"text": "step 2"}
                    ]
                }]
            }],
            "usage": {
                "input_tokens": 3,
                "output_tokens": 2,
                "input_tokens_details": {"cached_tokens": 0}
            }
        }"#,
    );

    let response =
        parse_openai_responses_response(body, "OpenAI").expect("fallback text should parse");
    assert_eq!(texts_of(&response.choice), vec!["step 1".to_string(), "step 2".to_string()]);
}

#[test]
fn parse_openai_responses_response_preserves_function_call_call_id_from_completed_response() {
    let body = json(
        r#"{
            "output": [{
                "type": "function_call",
                "id": "legacy-id",
                "call_id": "stable-call-id",
                "name": "reply",
                "arguments": "{\"content\":\"ok\"}"
            }],
            "usage": {
                "input_tokens": 3,
                "output_tokens": 2,
                "input_tokens_details": {"cached_tokens": 0}
            }
        }"#,
    );

    let response =
        parse_openai_responses_response(body, "OpenAI").expect("function call should parse");
    match &response.choice[0] {
        AssistantContent::ToolCall(tool_call) => {
            assert_eq!(tool_call.id, "legacy-id");
            assert_eq!(tool_call.call_id.as_deref(), Some("stable-call-id"));
            assert_eq!(tool_call.function.name, "reply");
        }
        _ => panic!("expected tool call"),
    }
}

#[test]
fn parse_openai_responses_response_unsupported_empty_error_is_actionable_and_provider_specific() {
    let body = json(
        r#"{
            "output": [{
                "type": "unknown_shape",
                "foo": "bar"
            }],
            "usage": {
                "input_tokens": 1,
                "output_tokens": 0,
                "input_tokens_details": {"cached_tokens": 0}
            }
        }"#,
    );

    let error = parse_openai_responses_response(body, "OpenAI").expect_err("should be unsupported");
    let error_text = error.message();
    assert!(error_text.contains("OpenAI Responses API"));
    assert!(error_text.contains("output_text/text/summary/refusal/content"));
    assert!(error_text.contains("unknown_shape"));
}

#[test]
fn parse_openai_chat_sse_response_reconstructs_tool_calls() {
    let sse = [
        "data: {\"choices\":[{\"delta\":{\"content\":\"Found \"},\"finish_reason\":null}]}\n\n",
        "data: {\"choices\":[{\"delta\":{\"content\":\"files\",\"tool_calls\":[{\"index\":0,\"id\":\"call_1\",\"function\":{\"name\":\"file\",\"arguments\":\"{\\\"operation\\\":\\\"list\\\"\"}}]},\"finish_reason\":null}]}\n\n",
        "data: {\"choices\":[{\"delta\":{\"tool_calls\":[{\"index\":0,\"function\":{\"arguments\":\",\\\"path\\\":\\\".\\\"}\"}}]},\"finish_reason\":\"tool_calls\"}]}\n\n",
        "data: {\"choices\":[],\"usage\":{\"prompt_tokens\":12,\"completion_tokens\":8}}\n\n",
        "data: [DONE]\n\n",
    ]
    .concat();

    let parsed = parse_openai_chat_sse_response(&sse, "OpenRouter").expect("valid SSE");

    let choice = item(parsed.at("choices"), 0);
    assert_eq!(choice.str_at("finish_reason"), Some("tool_calls"));
    assert_eq!(choice.at("message").str_at("content"), Some("Found files"));
    let function = item(choice.at("message").at("tool_calls"), 0).at("function");
    assert_eq!(function.str_at("name"), Some("file"));
    assert_eq!(function.at("arguments").str_at("operation"), Some("list"));
    assert_eq!(function.at("arguments").str_at("path"), Some("."));
    assert_eq!(parsed.at("usage").at("prompt_tokens").as_u64(), Some(12));
}

#[test]
fn parse_openai_chat_sse_response_requires_data_lines() {
    let error = parse_openai_chat_sse_response("{\"choices\":[]}", "OpenRouter")
        .expect_err("should fail");
    assert!(error.message().contains("missing SSE data events"));
}

#[test]
fn process_openai_chat_stream_event_flushes_tool_calls() {
    let first_event = json(
        r#"{
            "choices": [{
                "delta": {
                    "tool_calls": [{
                        "index": 0,
                        "id": "call_1",
                        "function": {
                            "name": "file",
                            "arguments": "{\"operation\":\"list\""
                        }
                    }]
                },
                "finish_reason": null
            }]
        }"#,
    );

    let second_event = json(
        r#"{
            "choices": [{
                "delta": {
                    "tool_calls": [{
                        "index": 0,
                        "function": {
                            "arguments": ",\"path\":\".\"}"
                        }
                    }]
                },
                "finish_reason": "tool_calls"
            }]
        }"#,
    );

    let mut pending = BTreeMap::new();

    let first_events = process_openai_chat_stream_event(&first_event, &mut pending)
        .expect("first event should parse");
    assert!(
        first_events.iter().any(|event| {
            matches!(
                event,
                RawStreamingChoice::ToolCallDelta {
                    content: ToolCallDeltaContent::Name(name),
                    ..
                } if name == "file"
            )
        }),
        "missing tool-call name delta"
    );
    assert_eq!(pending.len(), 1);

    let second_events = process_openai_chat_stream_event(&second_event, &mut pending)
        .expect("second event should parse");
    assert!(pending.is_empty(), "pending tool calls should be flushed");

    let tool_calls = tool_calls_of(second_events);
    assert_eq!(tool_calls.len(), 1);
    assert_eq!(tool_calls[0].name, "file");
    assert_eq!(tool_calls[0].arguments.str_at("operation"), Some("list"));
    assert_eq!(tool_calls[0].arguments.str_at("path"), Some("."));
}

#[test]
fn process_openai_chat_stream_event_does_not_duplicate_message_tool_calls() {
    let delta_event = json(
        r#"{
            "choices": [{
                "delta": {
                    "tool_calls": [{
                        "index": 0,
                        "id": "call_1",
                        "function": {
                            "name": "file",
                            "arguments": "{\"operation\":\"list\",\"path\":\".\"}"
                        }
                    }]
                },
                "finish_reason": null
            }]
        }"#,
    );

    let message_event = json(
        r#"{
            "choices": [{
                "message": {
                    "tool_calls": [{
                        "id": "call_1",
                        "function": {
                            "name": "file",
                            "arguments": "{\"operation\":\"list\",\"path\":\".\"}"
                        }
                    }]
                },
                "finish_reason": "tool_calls"
            }]
        }"#,
    );

    let mut pending = BTreeMap::new();
    let delta_events = process_openai_chat_stream_event(&delta_event, &mut pending)
        .expect("delta event should parse");
    let delta_internal_call_id = delta_events
        .iter()
        .find_map(|event| match event {
            RawStreamingChoice::ToolCallDelta { internal_call_id, .. } => {
                Some(internal_call_id.clone())
            }
            _ => None,
        })
        .expect("missing tool-call delta internal id");
    assert_eq!(pending.len(), 1);

    let events = process_openai_chat_stream_event(&message_event, &mut pending)
        .expect("message event should parse");
    let tool_calls = tool_calls_of(events);

    assert_eq!(tool_calls.len(), 1, "tool call should not be duplicated");
    assert_eq!(tool_calls[0].id, "call_1");
    assert_eq!(tool_calls[0].name, "file");
    assert_eq!(tool_calls[0].internal_call_id, delta_internal_call_id);
}

fn pending_file_call(arguments: &str) -> BTreeMap<usize, OpenAiStreamingToolCall> {
    let mut pending = BTreeMap::new();
    pending.insert(
        0,
        OpenAiStreamingToolCall {
            id: "call_1".to_string(),
            internal_call_id: "internal_1".to_string(),
            name: "file".to_string(),
            arguments: arguments.to_string(),
        },
    );
    pending
}

#[test]
fn flush_openai_streaming_tool_calls_errors_on_invalid_arguments() {
    let mut pending = pending_file_call("{\"operation\":\"list\"");

    let error = flush_openai_streaming_tool_calls(&mut pending)
        .expect_err("invalid JSON arguments should error");
    assert!(
        error.message().contains("invalid streamed tool arguments for 'file'"),
        "unexpected error: {}",
        error.message()
    );
}

#[test]
fn flush_openai_streaming_tool_calls_sanitizes_control_chars_in_string_arguments() {
    let mut pending =
        pending_file_call("{\"operation\":\"write\",\"content\":\"line1\nline2\"}");

    let events = flush_openai_streaming_tool_calls(&mut pending)
        .expect("control-char recovery should parse");
    let tool_calls = tool_calls_of(events);

    assert_eq!(tool_calls.len(), 1);
    assert_eq!(tool_calls[0].name, "file");
    assert_eq!(tool_calls[0].arguments.str_at("operation"), Some("write"));
    assert_eq!(tool_calls[0].arguments.str_at("content"), Some("line1\nline2"));
}

#[test]
fn parse_openai_chat_sse_response_merges_multiline_data_blocks() {
    let sse = [
        "data: {\"choices\":[{\"delta\":{\"content\":\"Hello\"},\n",
        "data: \"finish_reason\":null}]}\n\n",
        "data: {\"choices\":[],\"usage\":{\"prompt_tokens\":2,\"completion_tokens\":1}}\n\n",
        "data: [DONE]\n\n",
    ]
    .concat();

    let parsed = parse_openai_chat_sse_response(&sse, "OpenRouter").expect("valid SSE");
    let choice = item(parsed.at("choices"), 0);
    assert_eq!(choice.at("message").str_at("content"), Some("Hello"));
    assert_eq!(parsed.at("usage").at("prompt_tokens").as_u64(), Some(2));
}

#[test]
fn extract_sse_data_payload_merges_data_lines() {
    let block = "event: message\nid: abc123\ndata: {\"a\":1}\ndata:{\"b\":2}";
    let payload = extract_sse_data_payload(block).expect("should parse data lines");
    assert_eq!(payload, "{\"a\":1}\n{\"b\":2}");
}

#[test]
fn raw_streaming_response_reports_usage() {
    let usage = Usage {
        input_tokens: 7,
        output_tokens: 3,
        total_tokens: 10,
        cached_input_tokens: 2,
    };

    let response = RawStreamingResponse { body: json(r#"{"ok": true}"#), usage: Some(usage) };

    assert_eq!(response.token_usage(), Some(usage));
}

#[test]
fn format_api_error_includes_openrouter_metadata() {
    let status = 400;

    // OpenRouter-style error with provider_name and raw upstream error
    let body = json(
        r#"{
            "error": {
                "message": "Provider returned error",
                "metadata": {
                    "provider_name": "Moonshot",
                    "raw": "Invalid request: tool_use not supported"
                }
            }
        }"#,
    );
    let msg = format_api_error(status, &body);
    assert!(msg.contains("Provider returned error"));
    assert!(msg.contains("Moonshot"));
    assert!(msg.contains("tool_use not supported"));

    // Standard OpenAI error without metadata
    let body = json(r#"{"error": {"message": "Invalid model ID"}}"#);
    let msg = format_api_error(status, &body);
    assert_eq!(msg, "400 Bad Request: Invalid model ID");

    // Metadata with provider_name but no raw
    let body = json(
        r#"{
            "error": {
                "message": "Provider returned error",
                "metadata": {
                    "provider_name": "Azure"
                }
            }
        }"#,
    );
    let msg = format_api_error(status, &body);
    assert!(msg.contains("Azure"));
    assert!(!msg.contains("raw"));

    // Structured JSON raw error (not a string)
    let body = json(
        r#"{
            "error": {
                "message": "Provider returned error",
                "metadata": {
                    "provider_name": "Google",
                    "raw": {"code": 400, "detail": "invalid schema"}
                }
            }
        }"#,
    );
    let msg = format_api_error(status, &body);
    assert!(msg.contains("Google"));
    assert!(msg.contains("invalid schema"));
}
