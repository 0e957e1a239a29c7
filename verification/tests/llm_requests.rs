//! Requests, replies by status, credentials, retries and fallbacks.
use spacebot::config::llm_load::llm_from_env;
use spacebot::config::provider::{ApiType, LlmConfig, ProviderConfig};
use spacebot::config::resolve::ResolveContext;
use spacebot::json::{Json, JsonNumber};
use spacebot::llm::api_error::{
    format_api_error_from_response_text, is_success_status, parse_openai_error_message,
};
use spacebot::llm::convert::{convert_image_anthropic, convert_image_openai};
use spacebot::llm::manager::{CopilotToken, LlmError, LlmManager, OAuthCredentials, TokenStep};
use spacebot::llm::message::{
    AssistantContent, CompletionError, CompletionRequest, DocumentSourceKind, Image, ImageMediaType, Message, Text,
    ToolDefinition, Usage, UserContent,
};
use spacebot::llm::model::{
    classify_error, token_counts, ChainAction, ChainEvent, ErrorKind, FallbackChain, Grant,
    Retries, RetryPolicy, RetryStep, SpacebotModel, TokenKind, Trial,
};
use spacebot::llm::reply::{
    read_anthropic_reply, read_chat_failure, read_responses_reply, restore_tool_names,
};
use spacebot::llm::request::{
    plan_call, provider_display_name, provider_label, with_streaming_enabled, Call, Stamp,
};
use spacebot::llm::routing::RoutingConfig;
use spacebot::string_map::StringMap;

fn json(text: &str) -> Json {
    Json::parse(text).expect("valid JSON")
}

fn request() -> CompletionRequest {
    CompletionRequest {
        preamble: Some("Be kind.".to_string()),
        chat_history: vec![Message::User {
            content: vec![UserContent::Text(Text { text: "Hi".to_string() })],
        }],
        tools: vec![ToolDefinition {
            name: "reply".to_string(),
            description: "Replies.".to_string(),
            parameters: json(r#"{"type":"object"}"#),
        }],
        temperature: Some(Json::Number(JsonNumber::Other("0.5".to_string()))),
        max_tokens: Some(100),
    }
}

fn provider(api_type: ApiType, base_url: &str) -> ProviderConfig {
    ProviderConfig {
        api_type,
        base_url: base_url.to_string(),
        api_key: "key".to_string(),
        name: None,
        use_proxy_api_key: false,
        extra_headers: vec![("x-extra".to_string(), "1".to_string())],
    }
}

fn stamp() -> Stamp {
    Stamp { version: "1.2.3".to_string(), unix_seconds: 42 }
}

fn header(name: &str, value: &str) -> (String, String) {
    (name.to_string(), value.to_string())
}

fn empty_llm() -> LlmConfig {
    llm_from_env(&ResolveContext { env: StringMap::new(), secrets: None })
}

fn manager_with(id: &str, config: ProviderConfig) -> LlmManager {
    let mut llm = empty_llm();
    llm.providers.insert(id.to_string(), config);
    LlmManager::new(llm)
}

#[test]
fn an_openai_call_is_planned() {
    let config = provider(ApiType::OpenAiCompletions, "https://api.openai.com//");
    let call = plan_call("openai", "gpt-4o", &request(), &config, &Some("acc".to_string()), &stamp())
        .expect("a call");
    match call {
        Call::Chat { http, label } => {
            assert_eq!(label, "OpenAI");
            assert_eq!(http.url, "https://api.openai.com/v1/chat/completions");
            assert_eq!(
                http.headers,
                vec![
                    header("authorization", "Bearer key"),
                    header("content-type", "application/json"),
                    header("x-extra", "1"),
                    header("accept-encoding", "identity"),
                ]
            );
            assert_eq!(http.body.str_at("model"), Some("gpt-4o"));
            assert_eq!(http.body.at("stream").as_bool(), Some(true));
            assert_eq!(http.body.at("max_tokens").as_u64(), Some(100));
            assert_eq!(http.body.at("temperature").to_text(), "0.5");
            let messages = http.body.array_at("messages").expect("messages");
            assert_eq!(messages[0].to_text(), r#"{"content":"Be kind.","role":"system"}"#);
            assert_eq!(messages[1].str_at("role"), Some("user"));
            let tools = http.body.array_at("tools").expect("tools");
            assert_eq!(tools[0].at("function").str_at("name"), Some("reply"));
        }
        _ => panic!("expected a chat call"),
    }
}

#[test]
fn kimi_is_told_of_its_client() {
    let config = provider(ApiType::OpenAiCompletions, "https://api.moonshot.ai");
    let call = plan_call("moonshot", "kimi", &request(), &config, &None, &stamp());
    match call.expect("a call") {
        Call::Chat { http, .. } => {
            assert!(http.headers.contains(&header("user-agent", "KimiCLI/1.3")));
        }
        _ => panic!("expected a chat call"),
    }
}

#[test]
fn a_compatible_call_is_planned() {
    let config = provider(ApiType::OpenAiChatCompletions, "https://x.test/v2/");
    match plan_call("other", "m", &request(), &config, &None, &stamp()).expect("a call") {
        Call::Chat { http, label } => {
            assert_eq!(label, "OpenAI-compatible provider");
            assert_eq!(http.url, "https://x.test/v2/chat/completions");
            assert_eq!(
                http.headers,
                vec![
                    header("x-extra", "1"),
                    header("authorization", "Bearer key"),
                    header("content-type", "application/json"),
                    header("accept-encoding", "identity"),
                ]
            );
        }
        _ => panic!("expected a chat call"),
    }
    let config = provider(ApiType::KiloGateway, "https://kilo.test");
    match plan_call("kilo", "m", &request(), &config, &None, &stamp()).expect("a call") {
        Call::Chat { http, label } => {
            assert_eq!(label, "Kilo Gateway");
            assert!(http.headers.contains(&header("X-Title", "spacebot")));
        }
        _ => panic!("expected a chat call"),
    }
    let config = provider(ApiType::Gemini, "https://gemini.test");
    match plan_call("gemini", "m", &request(), &config, &None, &stamp()).expect("a call") {
        Call::Chat { http, label } => {
            assert_eq!(label, "Google Gemini");
            assert_eq!(http.url, "https://gemini.test/chat/completions");
        }
        _ => panic!("expected a chat call"),
    }
    let config = provider(ApiType::Anthropic, "https://a.test");
    assert!(matches!(
        plan_call("anthropic", "m", &request(), &config, &None, &stamp()),
        Ok(Call::Anthropic)
    ));
}

#[test]
fn a_chatgpt_call_is_planned() {
    let config = provider(ApiType::OpenAiResponses, "https://chatgpt.com/backend-api/codex");
    let mut asked = request();
    asked.preamble = None;
    match plan_call("openai-chatgpt", "gpt-5", &asked, &config, &Some("acc".to_string()), &stamp())
        .expect("a call")
    {
        Call::Responses { http, label } => {
            assert_eq!(label, provider_display_name("openai-chatgpt"));
            assert_eq!(http.url, "https://chatgpt.com/backend-api/codex/responses");
            assert_eq!(
                http.headers,
                vec![
                    header("authorization", "Bearer key"),
                    header("content-type", "application/json"),
                    header("ChatGPT-Account-Id", "acc"),
                    header("originator", "opencode"),
                    header("session_id", "spacebot-42"),
                    header("user-agent", "spacebot/1.2.3"),
                ]
            );
            assert_eq!(
                http.body.str_at("instructions"),
                Some("You are Spacebot. Follow instructions exactly and respond concisely.")
            );
            assert_eq!(http.body.at("store").as_bool(), Some(false));
            assert_eq!(http.body.at("stream").as_bool(), Some(true));
            assert!(http.body.get("max_output_tokens").is_none());
            assert!(http.body.get("temperature").is_none());
        }
        _ => panic!("expected a call by the Responses API"),
    }
}

#[test]
fn a_responses_call_is_planned() {
    let config = provider(ApiType::OpenAiResponses, "https://api.openai.com");
    match plan_call("openai", "gpt-5", &request(), &config, &Some("acc".to_string()), &stamp())
        .expect("a call")
    {
        Call::Responses { http, .. } => {
            assert_eq!(http.url, "https://api.openai.com/v1/responses");
            assert_eq!(http.headers.len(), 2);
            assert_eq!(http.body.str_at("instructions"), Some("Be kind."));
            assert_eq!(http.body.at("max_output_tokens").as_u64(), Some(100));
            assert!(http.body.get("store").is_none());
        }
        _ => panic!("expected a call by the Responses API"),
    }
}

#[test]
fn labels_name_the_provider() {
    let mut config = provider(ApiType::OpenAiCompletions, "https://x.test");
    assert_eq!(provider_label("openrouter", &config), "OpenRouter");
    config.name = Some("  ".to_string());
    assert_eq!(provider_label("openrouter", &config), "OpenRouter");
    config.name = Some("Mine".to_string());
    assert_eq!(provider_label("openrouter", &config), "Mine");
}

#[test]
fn streaming_is_switched_on() {
    let body = with_streaming_enabled(&json(r#"{"model":"m","stream":false}"#));
    assert_eq!(body.at("stream").as_bool(), Some(true));
    assert_eq!(body.str_at("model"), Some("m"));
}

#[test]
fn images_go_out_by_address_or_data() {
    let by_url = Image {
        data: DocumentSourceKind::Url("https://x.test/a.png".to_string()),
        media_type: None,
    };
    let by_data = Image {
        data: DocumentSourceKind::Base64("QUJD".to_string()),
        media_type: Some(ImageMediaType::Png),
    };
    let neither = Image { data: DocumentSourceKind::Other, media_type: None };
    assert_eq!(
        convert_image_anthropic(&by_data).expect("an image").to_text(),
        r#"{"source":{"data":"QUJD","media_type":"image/png","type":"base64"},"type":"image"}"#
    );
    assert_eq!(
        convert_image_openai(&by_data).expect("an image").to_text(),
        r#"{"image_url":{"url":"data:image/png;base64,QUJD"},"type":"image_url"}"#
    );
    assert!(convert_image_openai(&by_url).expect("an image").to_text().contains("a.png"));
    assert_eq!(convert_image_anthropic(&neither), None);
}

#[test]
fn error_replies_are_told_in_a_line() {
    assert!(is_success_status(204) && !is_success_status(301) && !is_success_status(199));
    assert_eq!(
        format_api_error_from_response_text(503, "down"),
        "503 Service Unavailable: down"
    );
    assert_eq!(
        format_api_error_from_response_text(429, r#"{"error":{"message":"slow"}}"#),
        "429 Too Many Requests: slow"
    );
    assert_eq!(parse_openai_error_message(r#"{"detail":"d"}"#), Some("d".to_string()));
    assert_eq!(parse_openai_error_message("no"), None);
    assert_eq!(
        read_chat_failure("Groq", 500, "boom").message(),
        "ProviderError: Groq API error (500 Internal Server Error: boom)"
    );
}

#[test]
fn whole_replies_are_read_by_status() {
    let text = r#"{"content":[{"type":"text","text":"Hi"}]}"#;
    assert!(read_anthropic_reply(200, text).is_ok());
    assert_eq!(
        read_anthropic_reply(401, r#"{"error":{"message":"bad key"}}"#)
            .expect_err("refused")
            .message(),
        "ProviderError: Anthropic API error (401 Unauthorized): bad key"
    );
    assert_eq!(
        read_anthropic_reply(502, "gateway").expect_err("no JSON").message(),
        "ProviderError: Anthropic response (502 Bad Gateway) is not valid JSON: expected value at line 1 column 1\nBody: gateway"
    );
    let text = r#"{"output":[{"type":"message","content":[{"type":"output_text","text":"Hi"}]}]}"#;
    assert!(read_responses_reply("OpenAI", 200, false, text).is_ok());
    assert_eq!(
        read_responses_reply("OpenAI", 400, false, "x").expect_err("refused").message(),
        "ProviderError: OpenAI Responses API error (400 Bad Request): unknown error"
    );
    let streamed =
        format!("data: {{\"type\":\"response.completed\",\"response\":{text}}}\n\n");
    assert!(read_responses_reply("OpenAI", 200, true, &streamed).is_ok());
    assert!(read_responses_reply("OpenAI", 200, false, &streamed)
        .expect_err("no JSON")
        .message()
        .contains("OpenAI Responses API response (200 OK) is not valid JSON"));
}

#[test]
fn providers_are_found_whatever_the_case() {
    let manager = manager_with("anthropic", provider(ApiType::Anthropic, "https://a.test"));
    assert!(manager.get_provider("Anthropic").is_ok());
    assert!(matches!(
        manager.get_provider("Groq"),
        Err(LlmError::UnknownProvider(id)) if id == "Groq"
    ));
    assert!(matches!(manager.get_api_key("ANTHROPIC"), Ok(key) if key == "key"));
    let mut without_key = provider(ApiType::Anthropic, "https://a.test");
    without_key.api_key = String::new();
    let manager = manager_with("anthropic", without_key);
    assert!(matches!(
        manager.get_api_key("anthropic"),
        Err(LlmError::MissingProviderKey(id)) if id == "anthropic"
    ));
}

fn credentials(token: &str) -> OAuthCredentials {
    OAuthCredentials { access_token: token.to_string(), account_id: Some("acc".to_string()) }
}

#[test]
fn tokens_are_refreshed_when_they_expire() {
    let mut manager = LlmManager::new(empty_llm());
    assert!(matches!(manager.get_anthropic_token(true), TokenStep::Ready(None)));
    manager.set_instance_dir("/inst".to_string(), Some(credentials("old")), None, None);
    assert!(matches!(
        manager.get_anthropic_token(false),
        TokenStep::Ready(Some(token)) if token == "old"
    ));
    assert!(matches!(manager.get_anthropic_token(true), TokenStep::Refresh));
    let kept = manager.anthropic_refreshed(None);
    assert_eq!(kept.token, Some("old".to_string()));
    assert_eq!(kept.save_in, None);
    let refreshed = manager.anthropic_refreshed(Some(credentials("new")));
    assert_eq!(refreshed.token, Some("new".to_string()));
    assert_eq!(refreshed.save_in, Some("/inst".to_string()));
    assert!(matches!(
        manager.get_anthropic_token(false),
        TokenStep::Ready(Some(token)) if token == "new"
    ));
    assert_eq!(manager.get_openai_account_id(), None);
    manager.set_openai_oauth_credentials(credentials("o"));
    assert_eq!(manager.get_openai_account_id(), Some("acc".to_string()));
    let refreshed = manager.openai_refreshed(Some(credentials("p")));
    assert_eq!(refreshed.token, Some("p".to_string()));
    assert_eq!(refreshed.save_in, Some("/inst".to_string()));
    manager.clear_openai_oauth_credentials();
    assert!(matches!(manager.get_openai_token(false), TokenStep::Ready(None)));
}

#[test]
fn stored_credentials_replace_those_in_memory() {
    let mut manager = LlmManager::new(empty_llm());
    assert_eq!(manager.instance_dir, None);
    manager.set_openai_oauth_credentials(credentials("o"));
    let nowhere = manager.openai_refreshed(Some(credentials("p")));
    assert_eq!(nowhere.token, Some("p".to_string()));
    assert_eq!(nowhere.save_in, None);
    let token = CopilotToken { token: "t".to_string(), pat_hash: "h".to_string() };
    manager.set_instance_dir("/a".to_string(), Some(credentials("x")), None, Some(token));
    assert_eq!(manager.instance_dir, Some("/a".to_string()));
    assert!(matches!(
        manager.get_anthropic_token(false),
        TokenStep::Ready(Some(token)) if token == "x"
    ));
    assert!(matches!(manager.get_openai_token(false), TokenStep::Ready(Some(token)) if token == "p"));
    assert_eq!(manager.get_copilot_token("h", false), Some("t".to_string()));
    let made = LlmManager::with_instance_dir(
        empty_llm(),
        "/b".to_string(),
        None,
        Some(credentials("q")),
        None,
    );
    assert_eq!(made.instance_dir, Some("/b".to_string()));
    assert!(matches!(made.get_openai_token(false), TokenStep::Ready(Some(token)) if token == "q"));
    assert!(matches!(made.get_anthropic_token(false), TokenStep::Ready(None)));
}

#[test]
fn an_anthropic_token_falls_back_to_the_key() {
    let manager = manager_with("anthropic", provider(ApiType::Anthropic, "https://proxy.test"));
    for expired in [false, true] {
        assert!(matches!(
            manager.get_anthropic_token(expired),
            TokenStep::Ready(Some(token)) if token == "key"
        ));
    }
    let asked = manager.get_anthropic_provider(Some("key".to_string())).ok().expect("one");
    assert_eq!(asked.base_url, "https://proxy.test");
    assert_eq!(asked.api_key, "key");
}

#[test]
fn an_anthropic_token_is_preferred_to_a_key() {
    let manager = manager_with("anthropic", provider(ApiType::Anthropic, "https://proxy.test"));
    let with_token = manager.get_anthropic_provider(Some("t".to_string())).ok().expect("one");
    assert_eq!(with_token.api_key, "t");
    assert_eq!(with_token.base_url, "https://proxy.test");
    let without = manager.get_anthropic_provider(None).ok().expect("one");
    assert_eq!(without.api_key, "key");
    let bare = LlmManager::new(empty_llm());
    let made = bare.get_anthropic_provider(Some("t".to_string())).ok().expect("one");
    assert_eq!(made.base_url, "https://api.anthropic.com");
    assert!(matches!(
        bare.get_anthropic_provider(None),
        Err(LlmError::UnknownProvider(id)) if id == "anthropic"
    ));
    assert!(matches!(
        bare.get_openai_chatgpt_provider(None),
        Err(LlmError::UnknownProvider(id)) if id == "openai-chatgpt"
    ));
}

#[test]
fn a_copilot_token_belongs_to_its_personal_token() {
    let mut manager =
        manager_with("github-copilot", provider(ApiType::OpenAiChatCompletions, "https://x"));
    assert_eq!(manager.github_pat(), Some("key".to_string()));
    let kept = CopilotToken { token: "t1".to_string(), pat_hash: "h1".to_string() };
    manager.set_instance_dir("/inst".to_string(), None, None, None);
    let exchanged = manager.copilot_exchanged("h1", Ok(kept)).ok().expect("a token");
    assert_eq!(exchanged.token, Some("t1".to_string()));
    assert_eq!(exchanged.save_in, Some("/inst".to_string()));
    assert_eq!(manager.get_copilot_token("h1", false), Some("t1".to_string()));
    assert_eq!(manager.get_copilot_token("h1", true), None);
    assert_eq!(manager.get_copilot_token("h2", false), None);
    let kept = manager.copilot_exchanged("h1", Err("offline".to_string())).ok().expect("a token");
    assert_eq!(kept.token, Some("t1".to_string()));
    assert_eq!(kept.save_in, None);
    assert!(matches!(
        manager.copilot_exchanged("h2", Err("offline".to_string())),
        Err(LlmError::TokenExchange(reason)) if reason == "offline"
    ));
    let provider = manager
        .get_github_copilot_provider(Some("t1".to_string()), None, "https://default", "9.9")
        .ok()
        .expect("a provider");
    assert_eq!(provider.base_url, "https://default");
    assert_eq!(provider.extra_headers[0], header("user-agent", "spacebot/9.9"));
    assert!(provider.use_proxy_api_key);
    manager.clear_copilot_token();
    assert_eq!(manager.get_copilot_token("h1", false), None);
}

#[test]
fn tool_names_are_restored_under_a_token() {
    let text = r#"{"content":[{"type":"tool_use","id":"c","name":"Read","input":{}}]}"#;
    let original_name = |name: &String, tools: &Vec<(String, String)>| -> String {
        tools.first().map_or_else(|| name.clone(), |(original, _)| original.clone())
    };
    let restored = |is_oauth: bool, tools: &Vec<(String, String)>| -> String {
        let mut reply = read_anthropic_reply(200, text).expect("a reply");
        restore_tool_names(&mut reply, is_oauth, tools, &original_name);
        match &reply.choice[0] {
            AssistantContent::ToolCall(call) => call.function.name.clone(),
            _ => panic!("expected a tool call"),
        }
    };
    let tools = vec![header("my_read", "reads files")];
    assert_eq!(restored(true, &tools), "my_read");
    assert_eq!(restored(false, &tools), "Read");
    assert_eq!(restored(true, &Vec::new()), "Read");
}

const SECOND: u64 = 1_000_000_000;

#[test]
fn a_rate_limit_cools_down() {
    let mut manager = LlmManager::new(empty_llm());
    manager.set_instance_dir("/inst".to_string(), None, None, None);
    assert!(!manager.is_rate_limited("a/m", 60, 0));
    manager.record_rate_limit("a/m", 10 * SECOND);
    assert!(manager.is_rate_limited("a/m", 60, 70 * SECOND - 1));
    assert!(!manager.is_rate_limited("a/m", 60, 70 * SECOND));
    assert!(!manager.is_rate_limited("a/other", 60, 11 * SECOND));
    assert!(!manager.is_rate_limited("a/m", 0, 10 * SECOND));
    manager.record_rate_limit("a/late", 50 * SECOND);
    manager.cleanup_rate_limits(60, 80 * SECOND);
    assert!(!manager.rate_limited.contains_key("a/m"));
    assert!(manager.is_rate_limited("a/late", 60, 80 * SECOND));
    assert_eq!(manager.instance_dir, Some("/inst".to_string()));
}

#[test]
fn a_new_configuration_takes_the_place_of_the_old() {
    let mut manager = LlmManager::new(empty_llm());
    manager.record_rate_limit("a/m", 10 * SECOND);
    assert!(manager.get_openai_provider().is_err());
    let mut llm = empty_llm();
    llm.providers
        .insert("openai".to_string(), provider(ApiType::OpenAiCompletions, "https://o"));
    manager.reload_config(llm);
    assert_eq!(manager.get_openai_provider().ok().map(|p| p.base_url), Some("https://o".to_string()));
    assert!(manager.is_rate_limited("a/m", 60, 11 * SECOND));
}

#[test]
fn model_names_are_parted() {
    let manager = LlmManager::new(empty_llm());
    assert_eq!(
        manager.resolve_model("openrouter/a/b").ok(),
        Some(("openrouter".to_string(), "a/b".to_string()))
    );
    assert_eq!(
        manager.resolve_model("sonnet").ok(),
        Some(("anthropic".to_string(), "sonnet".to_string()))
    );
    let model = SpacebotModel::make("openrouter/a/b");
    assert_eq!(model.provider(), "openrouter");
    assert_eq!(model.model_name(), "a/b");
    assert_eq!(model.full_model_name(), "openrouter/a/b");
    let again = SpacebotModel::make(SpacebotModel::make("sonnet").full_model_name());
    assert_eq!(again.full_model_name(), "anthropic/sonnet");
    assert_eq!(again.model_name(), "sonnet");
}

fn grant(token: Result<Option<String>, LlmError>) -> Grant {
    Grant {
        token,
        derived_base_url: Some("https://derived".to_string()),
        default_base_url: "https://default".to_string(),
        version: "1".to_string(),
    }
}

#[test]
fn a_chatgpt_token_does_not_shadow_an_openai_key() {
    let manager = manager_with("openai", provider(ApiType::OpenAiCompletions, "https://o"));
    let openai = SpacebotModel::make("openai/gpt-4o");
    assert_eq!(openai.needed_token(), TokenKind::Nothing);
    let config = openai
        .provider_config_for_current_model(&manager, grant(Ok(Some("oauth".to_string()))))
        .ok()
        .expect("a provider");
    assert_eq!(config.api_key, "key");
    let chatgpt = SpacebotModel::make("openai-chatgpt/gpt-5");
    assert_eq!(chatgpt.needed_token(), TokenKind::OpenAi);
    let config = chatgpt
        .provider_config_for_current_model(&manager, grant(Ok(Some("oauth".to_string()))))
        .ok()
        .expect("a provider");
    assert_eq!(config.api_key, "oauth");
    assert_eq!(config.base_url, "https://chatgpt.com/backend-api/codex");
    let copilot = SpacebotModel::make("github-copilot/x");
    let trouble = Err(LlmError::TokenExchange("offline".to_string()));
    assert!(matches!(
        copilot.provider_config_for_current_model(&manager, grant(trouble)),
        Err(LlmError::TokenExchange(_))
    ));
    let config = copilot
        .provider_config_for_current_model(&manager, grant(Ok(Some("c".to_string()))))
        .ok()
        .expect("a provider");
    assert_eq!(config.base_url, "https://derived");
}

fn failed(text: &str, retriable: bool, is_rate_limit: bool) -> Trial {
    Trial::Failed {
        error: CompletionError::ProviderError(text.to_string()),
        retriable,
        is_rate_limit,
    }
}

#[test]
fn a_model_is_tried_with_growing_waits() {
    let policy = RetryPolicy { max_attempts: 3, base_delay_ms: 500 };
    let mut retries = Retries::new(policy, "a/m");
    assert_eq!(retries.next_step(false), RetryStep::Try { delay_ms: 0 });
    assert_eq!(retries.advance(failed("503", true, false)), RetryStep::Try { delay_ms: 500 });
    assert_eq!(retries.advance(failed("503", true, true)), RetryStep::Try { delay_ms: 1000 });
    assert_eq!(
        retries.advance(failed("429", true, true)),
        RetryStep::GiveUp {
            error: CompletionError::ProviderError(
                "a/m failed after 3 attempts: ProviderError: 429".to_string()
            ),
            was_rate_limit: true,
        }
    );
}

#[test]
fn attempts_end_with_an_answer_or_an_error_that_will_not_pass() {
    let policy = RetryPolicy { max_attempts: 3, base_delay_ms: 500 };
    let mut retries = Retries::new(policy, "a/m");
    assert_eq!(retries.advance(failed("503", true, false)), RetryStep::Try { delay_ms: 500 });
    assert_eq!(retries.advance(Trial::Answered), RetryStep::Done);
    let mut retries = Retries::new(policy, "a/m");
    assert_eq!(
        retries.advance(failed("401 rate", false, true)),
        RetryStep::GiveUp {
            error: CompletionError::ProviderError("401 rate".to_string()),
            was_rate_limit: false,
        }
    );
    let mut once = Retries::new(RetryPolicy { max_attempts: 1, base_delay_ms: 500 }, "a/m");
    assert_eq!(
        once.advance(failed("timeout", true, false)),
        RetryStep::GiveUp {
            error: CompletionError::ProviderError(
                "a/m failed after 1 attempts: ProviderError: timeout".to_string()
            ),
            was_rate_limit: false,
        }
    );
    let never = Retries::new(RetryPolicy { max_attempts: 0, base_delay_ms: 500 }, "a/m");
    assert!(matches!(
        never.next_step(false),
        RetryStep::GiveUp { error, was_rate_limit: false }
            if error.message() == "ProviderError: a/m failed after 0 attempts: "
    ));
}

fn check(model: &str) -> ChainAction {
    ChainAction::Check { model: model.to_string() }
}

fn ask(model: &str) -> ChainAction {
    ChainAction::Ask { model: model.to_string() }
}

fn checked(rate_limited: bool) -> ChainEvent {
    ChainEvent::Checked { rate_limited }
}

fn failure(text: &str, was_rate_limit: bool) -> ChainEvent {
    ChainEvent::Failed { error: CompletionError::ProviderError(text.to_string()), was_rate_limit }
}

fn gives_up(action: ChainAction, message: &str) -> bool {
    matches!(action, ChainAction::GiveUp { error } if error.message() == message)
}

#[test]
fn fallbacks_are_tried_in_turn() {
    let fallbacks = vec!["b/1".to_string(), "b/2".to_string(), "b/3".to_string()];
    let mut chain = FallbackChain::new("a/m", &fallbacks, 2);
    assert_eq!(chain.next_action(), check("a/m"));
    let step = chain.advance(checked(true));
    assert_eq!((step.record, step.action), (None, check("b/1")));
    assert_eq!(chain.advance(checked(false)).action, ask("b/1"));
    let step = chain.advance(failure("first", true));
    assert_eq!((step.record, step.action), (Some("b/1".to_string()), check("b/2")));
    let step = chain.advance(checked(true));
    assert_eq!(step.record, None);
    assert!(gives_up(step.action, "ProviderError: first"));
}

#[test]
fn an_answer_ends_the_chain() {
    let fallbacks = vec!["b/1".to_string(), "b/2".to_string()];
    let mut chain = FallbackChain::new("a/m", &fallbacks, 2);
    assert_eq!(chain.advance(checked(false)).action, ask("a/m"));
    let step = chain.advance(failure("down", false));
    assert_eq!((step.record, step.action), (None, check("b/1")));
    assert_eq!(chain.advance(checked(false)).action, ask("b/1"));
    let step = chain.advance(ChainEvent::Answered);
    assert_eq!((step.record, step.action), (None, ChainAction::Done));
    assert_eq!(chain.next_action(), ChainAction::Done);
}

#[test]
fn a_model_without_fallbacks_is_asked_even_in_cooldown() {
    let mut alone = FallbackChain::new("a/m", &Vec::new(), 2);
    assert_eq!(alone.advance(checked(true)).action, ask("a/m"));
    let step = alone.advance(ChainEvent::Failed {
        error: CompletionError::ResponseError("empty".to_string()),
        was_rate_limit: true,
    });
    assert_eq!(step.record, Some("a/m".to_string()));
    assert!(gives_up(step.action, "ResponseError: empty"));

    let mut cooling = FallbackChain::new("a/m", &vec!["b/1".to_string()], 2);
    assert_eq!(cooling.advance(checked(true)).action, check("b/1"));
    let step = cooling.advance(checked(true));
    assert!(gives_up(step.action, "ProviderError: all models in fallback chain failed"));
}

fn routing() -> RoutingConfig {
    RoutingConfig {
        channel: "a/m".to_string(),
        branch: "a/m".to_string(),
        worker: "a/m".to_string(),
        compactor: "a/m".to_string(),
        cortex: "a/m".to_string(),
        voice: String::new(),
        task_overrides: StringMap::new(),
        fallbacks: StringMap::new(),
        rate_limit_cooldown_secs: 60,
        channel_thinking_effort: "auto".to_string(),
        branch_thinking_effort: "auto".to_string(),
        worker_thinking_effort: "auto".to_string(),
        compactor_thinking_effort: "auto".to_string(),
        cortex_thinking_effort: "auto".to_string(),
    }
}

#[test]
fn uses_are_counted_under_labels() {
    let plain = SpacebotModel::make("sonnet").metric_labels();
    assert_eq!(
        (plain.agent.as_str(), plain.tier.as_str(), plain.worker.as_str()),
        ("unknown", "unknown", "")
    );
    let worker = SpacebotModel::make("sonnet")
        .with_context("main".to_string(), "worker".to_string())
        .with_routing(routing());
    assert_eq!(worker.metric_labels().worker, "unknown");
    assert!(worker.routing().is_some());
    let same = worker.for_attempt("anthropic/sonnet");
    assert_eq!(same.metric_labels().agent, "main");
    assert_eq!(worker.for_attempt("x/y").metric_labels().agent, "unknown");
    let named = worker.with_worker_type("builtin".to_string());
    assert_eq!(named.metric_labels().worker, "builtin");
    assert_eq!(named.metric_labels().model, "anthropic/sonnet");
}

#[test]
fn errors_are_counted_by_kind() {
    let kind = |text: &str| classify_error(&CompletionError::ProviderError(text.to_string()));
    assert_eq!(kind("HTTP 429"), ErrorKind::RateLimit);
    assert_eq!(kind("rate limited"), ErrorKind::RateLimit);
    assert_eq!(kind("timeout"), ErrorKind::Timeout);
    assert_eq!(kind("prompt too long"), ErrorKind::ContextOverflow);
    assert_eq!(kind("boom").as_str(), "provider_error");
    let other = CompletionError::ResponseError("timeout".to_string());
    assert_eq!(classify_error(&other).as_str(), "other");
}

#[test]
fn tokens_are_counted_by_kind() {
    let mut usage =
        Usage { input_tokens: 5, output_tokens: 0, total_tokens: 5, cached_input_tokens: 0 };
    assert_eq!(token_counts(&usage), vec![("input", 5), ("output", 0)]);
    usage.cached_input_tokens = 2;
    assert_eq!(
        token_counts(&usage),
        vec![("input", 5), ("output", 0), ("cached_input", 2)]
    );
    usage.input_tokens = 0;
    assert_eq!(token_counts(&usage), Vec::new());
}
