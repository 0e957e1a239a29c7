//! Streams as they arrive, replies as streams, and the texts in them.
use spacebot::json::{Json, JsonNumber};
use spacebot::llm::arguments::{
    escape_control_characters_in_json_strings, parse_openai_tool_arguments,
    parse_streamed_tool_arguments,
};
use spacebot::llm::chat_sse::parse_openai_chat_sse_response;
use spacebot::llm::chat_stream::{ChatStream, StreamStep};
use spacebot::llm::content::parse_openai_tool_call;
use spacebot::llm::message::{
    AssistantContent, CompletionError, CompletionResponse, RawResponse, RawStreamingChoice,
    RawStreamingResponse, Reasoning, ReasoningContent, Text, ToolCall, ToolFunction, Usage,
};
use spacebot::llm::replay::{
    collect_streaming_completion_response, completion_choice_to_streaming_choices,
    stream_from_completion_response,
};
use spacebot::llm::response::{parse_anthropic_response, parse_openai_response};
use spacebot::llm::responses_api::parse_openai_responses_sse_response;
use spacebot::llm::sse::{extract_sse_block, extract_sse_data_payload, sse_payloads, truncate_body};
use spacebot::llm::stream_event::process_openai_chat_stream_event;
use std::collections::BTreeMap;

fn json(text: &str) -> Json {
    Json::parse(text).expect("valid JSON")
}

fn usage(input: u64, output: u64) -> Usage {
    Usage {
        input_tokens: input,
        output_tokens: output,
        total_tokens: input + output,
        cached_input_tokens: 0,
    }
}

fn said(step: &StreamStep) -> Vec<String> {
    step.events
        .iter()
        .filter_map(|event| match event {
            RawStreamingChoice::Message(text) => Some(text.clone()),
            _ => None,
        })
        .collect()
}

fn final_body(step: &StreamStep) -> Option<&RawStreamingResponse> {
    match step.events.last() {
        Some(RawStreamingChoice::FinalResponse(response)) => Some(response),
        _ => None,
    }
}

#[test]
fn json_is_read_and_written() {
    let value = json(r#" {"b": [1, -2, 2.5, true, null], "a": "x\ny"} "#);
    assert_eq!(value.str_at("a"), Some("x\ny"));
    let items = value.array_at("b").expect("an array");
    assert_eq!(items[0], Json::Number(JsonNumber::Unsigned(1)));
    assert_eq!(items[1], Json::Number(JsonNumber::Negative(-2)));
    assert_eq!(items[2], Json::Number(JsonNumber::Other("2.5".to_string())));
    assert_eq!(items[3], Json::Bool(true));
    assert!(items[4].is_null());
    assert_eq!(value.to_text(), r#"{"a":"x\ny","b":[1,-2,2.5,true,null]}"#);
    assert_eq!(
        Json::parse("{").expect_err("no JSON"),
        "EOF while parsing an object at line 1 column 1"
    );
}

#[test]
fn blocks_are_taken_off_the_buffer() {
    let mut buffer = "a\nb\n\nc\n\nrest".to_string();
    assert_eq!(extract_sse_block(&mut buffer), Some("a\nb".to_string()));
    assert_eq!(buffer, "c\n\nrest");
    assert_eq!(extract_sse_block(&mut buffer), Some("c".to_string()));
    assert_eq!(extract_sse_block(&mut buffer), None);
    assert_eq!(buffer, "rest");
    let mut buffer = "a\r\n\r\nb".to_string();
    assert_eq!(extract_sse_block(&mut buffer), Some("a".to_string()));
    assert_eq!(buffer, "b");
    let mut mixed = "a\r\n\r\nb\n\nc".to_string();
    assert_eq!(extract_sse_block(&mut mixed), Some("a\r\n\r\nb".to_string()));
    assert_eq!(mixed, "c");
}

#[test]
fn only_data_lines_carry_data() {
    assert_eq!(extract_sse_data_payload("event: x\n: comment"), None);
    assert_eq!(extract_sse_data_payload("data:   padded"), Some("  padded".to_string()));
    assert_eq!(extract_sse_data_payload("data:\tpadded"), Some("padded".to_string()));
    assert_eq!(
        sse_payloads("data: one\n\nevent: x\n\ndata: two"),
        vec!["one".to_string(), "two".to_string()]
    );
}

#[test]
fn long_bodies_are_cut_between_characters() {
    let short = "x".repeat(500);
    assert_eq!(truncate_body(&short), short);
    let long = "x".repeat(501);
    assert_eq!(truncate_body(&long), short);
    let wide = format!("{}\u{e9}", "x".repeat(499));
    assert_eq!(truncate_body(&wide), "x".repeat(499));
}

#[test]
fn control_characters_in_strings_are_escaped() {
    assert_eq!(
        escape_control_characters_in_json_strings("{\"a\":\"x\ny\tz\"}\n"),
        "{\"a\":\"x\\ny\\tz\"}\n"
    );
    assert_eq!(
        escape_control_characters_in_json_strings("{\"a\":\"q\\\"\u{1}\"}"),
        "{\"a\":\"q\\\"\\u0001\"}"
    );
    let printed = "{\n\t\"a\": \"x\\ny\",\r\n\t\"b\": [\n\t\t1\n\t]\n}\n";
    assert_eq!(escape_control_characters_in_json_strings(printed), printed);
    assert!(Json::parse(printed).is_ok());
    assert!(Json::parse("\"a\nb\"").is_err());
    let once = escape_control_characters_in_json_strings("\"a\nb\"");
    assert_eq!(escape_control_characters_in_json_strings(&once), once);
}

#[test]
fn streamed_arguments_are_read() {
    assert_eq!(parse_streamed_tool_arguments("t", "  ").expect("empty"), json("{}"));
    assert_eq!(
        parse_streamed_tool_arguments("t", "{\"a\":1}").expect("JSON"),
        json("{\"a\":1}")
    );
    let error = parse_streamed_tool_arguments("t", "nope").expect_err("no JSON");
    assert!(matches!(&error, CompletionError::ProviderError(_)
        | CompletionError::ResponseError(_)));
    assert!(error.message().contains("invalid streamed tool arguments for 't'"));
}

#[test]
fn argument_fields_are_read() {
    assert_eq!(parse_openai_tool_arguments(&json(r#""{\"a\":1}""#)), json("{\"a\":1}"));
    assert_eq!(parse_openai_tool_arguments(&json(r#"{"a":1}"#)), json("{\"a\":1}"));
}

#[test]
fn a_tool_call_without_a_name_is_none() {
    assert_eq!(parse_openai_tool_call(&json(r#"{"id":"x"}"#), "f".to_string()), None);
    let call = parse_openai_tool_call(
        &json(r#"{"function":{"name":"n","arguments":"{}"}}"#),
        "fallback".to_string(),
    )
    .expect("a call");
    assert_eq!(call.id, "fallback");
    assert_eq!(call.function.name, "n");
}

const CHAT: &str = "data: {\"choices\":[{\"delta\":{\"content\":\"Hel\"}}]}\n\ndata: {\"choices\":[{\"delta\":{\"content\":\"lo\"}}]}\n\ndata: {\"choices\":[],\"usage\":{\"prompt_tokens\":3,\"completion_tokens\":2}}\n\ndata: [DONE]\n\n";

#[test]
fn a_stream_says_what_its_reply_says() {
    let mut stream = ChatStream::new("P".to_string());
    let first = stream.push_text(CHAT);
    assert_eq!(said(&first), vec!["Hel".to_string(), "lo".to_string()]);
    assert!(first.error.is_none());
    let end = stream.finish();
    assert!(end.error.is_none());
    let response = final_body(&end).expect("a final response");
    assert_eq!(response.token_usage(), Some(usage(3, 2)));
    let whole = parse_openai_chat_sse_response(CHAT, "P").expect("a reply");
    assert_eq!(response.body, whole);
    assert_eq!(
        whole.array_at("choices").expect("choices")[0].at("message").str_at("content"),
        Some("Hello")
    );
}

#[test]
fn pieces_of_a_stream_do_not_matter() {
    let at_once = {
        let mut stream = ChatStream::new("P".to_string());
        let step = stream.push_text(CHAT);
        (said(&step), stream.block_buffer.clone(), stream.sse_text.clone())
    };
    let mut cut = 1;
    while cut < CHAT.len() {
        let mut stream = ChatStream::new("P".to_string());
        let mut texts = said(&stream.push_text(&CHAT[..cut]));
        texts.extend(said(&stream.push_text(&CHAT[cut..])));
        assert_eq!(
            (texts, stream.block_buffer.clone(), stream.sse_text.clone()),
            at_once
        );
        cut += 7;
    }
}

#[test]
fn a_chunk_of_bytes_is_read_as_text() {
    let mut stream = ChatStream::new("P".to_string());
    let step = stream.push_chunk(&vec![b'd', b'a', 0xff, b'!']);
    assert!(step.events.is_empty() && step.error.is_none());
    assert_eq!(stream.raw_text, "da\u{fffd}!");
}

#[test]
fn a_whole_reply_is_replayed() {
    let mut stream = ChatStream::new("P".to_string());
    let step = stream.push_text(
        r#"{"choices":[{"message":{"content":"Hi"},"finish_reason":"stop"}],"usage":{"prompt_tokens":1,"completion_tokens":1}}"#,
    );
    assert!(step.events.is_empty());
    let end = stream.finish();
    assert_eq!(said(&end), vec!["Hi".to_string()]);
    assert_eq!(final_body(&end).expect("a final response").token_usage(), Some(usage(1, 1)));
}

#[test]
fn neither_events_nor_json_is_an_error() {
    let mut stream = ChatStream::new("P".to_string());
    stream.push_text("<html>");
    let end = stream.finish();
    assert!(end.events.is_empty());
    assert_eq!(
        end.error.expect("an error").message(),
        "ProviderError: P response is neither SSE nor JSON: expected value at line 1 column 1. Body: <html>"
    );
}

#[test]
fn an_error_event_ends_the_stream() {
    let mut stream = ChatStream::new("P".to_string());
    let step = stream.push_text("data: {\"error\":{\"message\":\"overloaded\"}}\n\n");
    assert_eq!(
        step.error.expect("an error").message(),
        "ProviderError: OpenAI-compatible streaming error: overloaded"
    );
    let error = parse_openai_chat_sse_response(
        "data: {\"error\":{\"message\":\"overloaded\"}}\n\n",
        "P",
    )
    .expect_err("an error");
    assert_eq!(error.message(), "ProviderError: P streaming error: overloaded");
}

#[test]
fn a_stream_without_content_is_an_error() {
    let error =
        parse_openai_chat_sse_response("data: {\"choices\":[]}\n\n", "P").expect_err("empty");
    assert!(error
        .message()
        .contains("P streaming response did not contain message content or tool calls"));
}

#[test]
fn an_accepted_stream_is_no_empty_reply() {
    let streams = [
        r#"{"choices":[{"delta":{"content":" "}}],"usage":{"prompt_tokens":2,"completion_tokens":3}}"#,
        r#"{"choices":[{"delta":{"reasoning":"hm"}}]}"#,
        r#"{"choices":[{"delta":{"tool_calls":[{"index":0,"function":{"name":"t"}}]}}]}"#,
    ];
    for event in streams {
        let body = parse_openai_chat_sse_response(&format!("data: {event}\n\n"), "P")
            .expect("a reply");
        let reply = parse_openai_response(body.duplicate(), "Q").expect("no empty reply");
        assert!(!reply.choice.is_empty());
        assert_eq!(reply.raw_response.body, body);
        assert_eq!(
            reply.usage.total_tokens,
            reply.usage.input_tokens + reply.usage.output_tokens
        );
    }
}

#[test]
fn a_call_in_a_message_is_not_repeated() {
    let delta = json(
        r#"{"choices":[{"delta":{"tool_calls":[{"index":0,"id":"c","function":{"name":"f","arguments":"{}"}}]}}]}"#,
    );
    let message = json(
        r#"{"choices":[{"message":{"tool_calls":[{"id":"c","function":{"name":"f","arguments":"{}"}}]}}]}"#,
    );
    let mut pending = BTreeMap::new();
    process_openai_chat_stream_event(&delta, &mut pending).expect("a delta");
    assert_eq!(pending[&0].internal_call_id.len(), 36);
    assert!(pending[&0].internal_call_id.chars().enumerate().all(|(i, c)| if matches!(
        i,
        8 | 13 | 18 | 23
    ) {
        c == '-'
    } else {
        c.is_ascii_digit() || ('a'..='f').contains(&c)
    }));
    process_openai_chat_stream_event(&message, &mut pending).expect("a message");
    assert!(pending.is_empty());
}

#[test]
fn two_calls_have_ids_of_their_own() {
    let deltas = json(
        r#"{"choices":[{"delta":{"tool_calls":[{"index":0,"function":{"name":"f"}},{"index":1,"function":{"name":"g"}}]}}]}"#,
    );
    let mut pending = BTreeMap::new();
    process_openai_chat_stream_event(&deltas, &mut pending).expect("deltas");
    assert_ne!(pending[&0].internal_call_id, pending[&1].internal_call_id);
}

fn reply() -> CompletionResponse {
    CompletionResponse {
        choice: vec![
            AssistantContent::Text(Text { text: "Hi".to_string() }),
            AssistantContent::Text(Text { text: String::new() }),
            AssistantContent::Reasoning(Reasoning {
                id: Some("r".to_string()),
                content: vec![ReasoningContent::Summary("s".to_string())],
            }),
            AssistantContent::ToolCall(ToolCall {
                id: String::new(),
                call_id: None,
                function: ToolFunction { name: "f".to_string(), arguments: json("{}") },
                signature: None,
                additional_params: None,
            }),
        ],
        usage: usage(4, 5),
        raw_response: RawResponse { body: json("{\"k\":1}") },
        message_id: Some("m".to_string()),
    }
}

#[test]
fn a_reply_becomes_a_stream() {
    let events = stream_from_completion_response(reply());
    assert_eq!(events.len(), 5);
    assert_eq!(events[0], RawStreamingChoice::MessageId("m".to_string()));
    assert_eq!(events[1], RawStreamingChoice::Message("Hi".to_string()));
    assert_eq!(
        events[2],
        RawStreamingChoice::Reasoning {
            id: Some("r".to_string()),
            content: ReasoningContent::Summary("s".to_string()),
        }
    );
    match &events[3] {
        RawStreamingChoice::ToolCall(call) => {
            assert_eq!(call.id, "");
            assert_eq!(call.internal_call_id.len(), 36);
            assert_eq!(call.name, "f");
        }
        _ => panic!("expected a tool call"),
    }
    assert_eq!(
        events[4],
        RawStreamingChoice::FinalResponse(RawStreamingResponse {
            body: json("{\"k\":1}"),
            usage: Some(usage(4, 5)),
        })
    );
    assert_eq!(completion_choice_to_streaming_choices(&reply().choice).len(), 3);
}

#[test]
fn a_stream_is_collected() {
    let collected = collect_streaming_completion_response(
        reply().choice,
        Some(RawStreamingResponse { body: json("{\"k\":1}"), usage: Some(usage(4, 5)) }),
        None,
    );
    assert_eq!(collected.usage, usage(4, 5));
    assert_eq!(collected.raw_response.body, json("{\"k\":1}"));
    let nothing = collect_streaming_completion_response(Vec::new(), None, None);
    assert_eq!(nothing.usage, usage(0, 0));
    assert_eq!(nothing.raw_response.body, json("{}"));
}

#[test]
fn tokens_are_counted() {
    let response = parse_openai_response(
        json(
            r#"{"choices":[{"message":{"content":"x"}}],"usage":{"prompt_tokens":10,"completion_tokens":4,"prompt_tokens_details":{"cached_tokens":6}}}"#,
        ),
        "P",
    )
    .expect("a reply");
    assert_eq!(
        response.usage,
        Usage { input_tokens: 10, output_tokens: 4, total_tokens: 14, cached_input_tokens: 6 }
    );
    let response = parse_anthropic_response(json(
        r#"{"content":[{"type":"text","text":"x"}],"usage":{"input_tokens":2,"output_tokens":3,"cache_read_input_tokens":1}}"#,
    ))
    .expect("a reply");
    assert_eq!(
        response.usage,
        Usage { input_tokens: 2, output_tokens: 3, total_tokens: 5, cached_input_tokens: 1 }
    );
}

#[test]
fn replies_without_their_arrays_are_errors() {
    assert_eq!(
        parse_anthropic_response(json("{}")).expect_err("no content").message(),
        "ResponseError: missing content array"
    );
    assert_eq!(
        parse_openai_response(json("{}"), "P").expect_err("no choices").message(),
        "ResponseError: missing choices array"
    );
}

#[test]
fn the_completed_reply_of_a_responses_stream_is_found() {
    let body = parse_openai_responses_sse_response(
        "data: {\"type\":\"response.created\"}\n\ndata: {\"type\":\"response.completed\",\"response\":{\"id\":\"r\"}}\n\n",
        "ChatGPT",
    )
    .expect("a reply");
    assert_eq!(body.str_at("id"), Some("r"));
    let error = parse_openai_responses_sse_response("data: {}\n\n", "ChatGPT")
        .expect_err("no completed reply");
    assert!(error.message().contains("ChatGPT"));
}
