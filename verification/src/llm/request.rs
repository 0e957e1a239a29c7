//! What is sent to a provider: where to, under which headers, and with which body.
use crate::config::provider;
use crate::config::provider::{ApiType, ProviderConfig, ProviderView};
use crate::json;
use crate::json::{Json, JsonNumber, JsonNumberView, JsonView};
use crate::llm::convert;
use crate::llm::message::{
    CompletionError, CompletionRequest, ErrorView, RequestView, ToolDefinition,
    ToolDefinitionView,
};
use crate::text;
use vstd::prelude::*;

verus! {

/// A POST request with a JSON body.
#[derive(Debug, PartialEq, Eq)]
pub struct HttpRequest {
    pub url: String,
    /// The headers, in the order in which they are set.
    pub headers: Vec<(String, String)>,
    pub body: Json,
}

/// The view of an [`HttpRequest`].
#[verifier::ext_equal]
pub struct HttpView {
    pub url: Seq<char>,
    pub headers: Seq<(Seq<char>, Seq<char>)>,
    pub body: JsonView,
}

impl View for HttpRequest {
    type V = HttpView;

    open spec fn view(&self) -> HttpView {
        HttpView {
            url: self.url@,
            headers: provider::header_views(self.headers@),
            body: self.body@,
        }
    }
}

// ---------------------------------------------------------------------------
// Names
// ---------------------------------------------------------------------------

/// The name that a provider is shown under.
pub open spec fn display_name(id: Seq<char>) -> Seq<char> {
    if id == "openai"@ {
        "OpenAI"@
    } else if id == "openai-chatgpt"@ {
        "OpenAI ChatGPT"@
    } else if id == "openrouter"@ {
        "OpenRouter"@
    } else if id == "kilo"@ {
        "Kilo Gateway"@
    } else if id == "zhipu"@ {
        "Z.AI (GLM)"@
    } else if id == "groq"@ {
        "Groq"@
    } else if id == "together"@ {
        "Together"@
    } else if id == "fireworks"@ {
        "Fireworks"@
    } else if id == "deepseek"@ {
        "DeepSeek"@
    } else if id == "xai"@ {
        "xAI"@
    } else if id == "mistral"@ {
        "Mistral"@
    } else if id == "gemini"@ {
        "Google Gemini"@
    } else if id == "moonshot"@ {
        "Moonshot"@
    } else if id == "nvidia"@ {
        "NVIDIA"@
    } else if id == "opencode-zen"@ {
        "OpenCode Zen"@
    } else if id == "opencode-go"@ {
        "OpenCode Go"@
    } else if id == "zai-coding-plan"@ {
        "Z.AI Coding Plan"@
    } else {
        id
    }
}

/// The name that a provider is shown under.
pub fn provider_display_name(provider_id: &str) -> (name: String)
    ensures
        name@ == display_name(provider_id@),
{
    if text::same(provider_id, "openai") {
        "OpenAI".to_owned()
    } else if text::same(provider_id, "openai-chatgpt") {
        "OpenAI ChatGPT".to_owned()
    } else if text::same(provider_id, "openrouter") {
        "OpenRouter".to_owned()
    } else if text::same(provider_id, "kilo") {
        "Kilo Gateway".to_owned()
    } else if text::same(provider_id, "zhipu") {
        "Z.AI (GLM)".to_owned()
    } else if text::same(provider_id, "groq") {
        "Groq".to_owned()
    } else if text::same(provider_id, "together") {
        "Together".to_owned()
    } else if text::same(provider_id, "fireworks") {
        "Fireworks".to_owned()
    } else if text::same(provider_id, "deepseek") {
        "DeepSeek".to_owned()
    } else if text::same(provider_id, "xai") {
        "xAI".to_owned()
    } else if text::same(provider_id, "mistral") {
        "Mistral".to_owned()
    } else if text::same(provider_id, "gemini") {
        "Google Gemini".to_owned()
    } else if text::same(provider_id, "moonshot") {
        "Moonshot".to_owned()
    } else if text::same(provider_id, "nvidia") {
        "NVIDIA".to_owned()
    } else if text::same(provider_id, "opencode-zen") {
        "OpenCode Zen".to_owned()
    } else if text::same(provider_id, "opencode-go") {
        "OpenCode Go".to_owned()
    } else if text::same(provider_id, "zai-coding-plan") {
        "Z.AI Coding Plan".to_owned()
    } else {
        provider_id.to_owned()
    }
}

/// The model's name as the provider's API has it. The Coding Plan endpoint expects
/// plain model ids.
pub open spec fn api_model_name(provider: Seq<char>, model_name: Seq<char>) -> Seq<char> {
    if provider == "zai-coding-plan"@ {
        match text::after_prefix(model_name, "zai/"@) {
            Some(plain) => plain,
            None => model_name,
        }
    } else {
        model_name
    }
}

/// Remap model name for providers that require a different format in API calls.
pub fn remap_model_name_for_api(provider: &str, model_name: &str) -> (name: String)
    ensures
        name@ == api_model_name(provider@, model_name@),
{
    if text::same(provider, "zai-coding-plan") {
        match text::strip_prefix(model_name, "zai/") {
            Some(plain) => plain,
            None => model_name.to_owned(),
        }
    } else {
        model_name.to_owned()
    }
}

/// What a provider is called in messages: its configured name where it is not blank,
/// else the name it is shown under.
pub open spec fn label(provider_id: Seq<char>, config: ProviderView) -> Seq<char> {
    match config.name {
        Some(name) => if text::is_blank(name) {
            display_name(provider_id)
        } else {
            name
        },
        None => display_name(provider_id),
    }
}

/// What a provider is called in messages.
pub fn provider_label(provider_id: &str, config: &ProviderConfig) -> (name: String)
    ensures
        name@ == label(provider_id@, config@),
{
    match &config.name {
        Some(name) => if text::is_blank_text(name.as_str()) {
            provider_display_name(provider_id)
        } else {
            name.clone()
        },
        None => provider_display_name(provider_id),
    }
}

// ---------------------------------------------------------------------------
// Bodies
// ---------------------------------------------------------------------------

/// An unsigned number as a JSON value.
pub open spec fn number(n: u64) -> JsonView {
    JsonView::Number(JsonNumberView::Unsigned(n))
}

/// A tool's name, description and parameters, added to an object.
pub open spec fn described(base: JsonView, tool: ToolDefinitionView) -> JsonView {
    base.with("name"@, convert::str_value(tool.name)).with(
        "description"@,
        convert::str_value(tool.description),
    ).with("parameters"@, tool.parameters)
}

/// A tool for chat completions.
pub open spec fn chat_tool(tool: ToolDefinitionView) -> JsonView {
    json::empty_object().with("type"@, convert::str_value("function"@)).with(
        "function"@,
        described(json::empty_object(), tool),
    )
}

/// A tool for the Responses API.
pub open spec fn responses_tool(tool: ToolDefinitionView) -> JsonView {
    described(json::empty_object().with("type"@, convert::str_value("function"@)), tool)
}

/// The tools, added to a body where there are any.
pub open spec fn with_tools(body: JsonView, tools: Seq<JsonView>) -> JsonView {
    if tools.len() > 0 {
        body.with("tools"@, JsonView::Array(tools))
    } else {
        body
    }
}

/// An optional value, added to a body where it is there.
pub open spec fn with_optional(
    body: JsonView,
    key: Seq<char>,
    value: Option<JsonView>,
) -> JsonView {
    match value {
        Some(v) => body.with(key, v),
        None => body,
    }
}

/// An optional number as an optional JSON value.
pub open spec fn optional_number(n: Option<u64>) -> Option<JsonView> {
    match n {
        Some(v) => Some(number(v)),
        None => None,
    }
}

/// The messages of a chat-completions request: the preamble as a system message, and
/// the conversation.
pub open spec fn chat_messages(request: RequestView) -> Seq<JsonView> {
    (match request.preamble {
        Some(preamble) => seq![
            convert::role_content("system"@, convert::str_value(preamble)),
        ],
        None => Seq::empty(),
    }) + convert::openai_messages(request.chat_history)
}

/// The body of a chat-completions request.
pub open spec fn chat_body(model: Seq<char>, request: RequestView) -> JsonView {
    let body = json::empty_object().with("model"@, convert::str_value(model)).with(
        "messages"@,
        JsonView::Array(chat_messages(request)),
    );
    let with_limit = with_optional(body, "max_tokens"@, optional_number(request.max_tokens));
    let with_temperature = with_optional(with_limit, "temperature"@, request.temperature);
    with_tools(
        with_temperature,
        request.tools.map_values(|tool: ToolDefinitionView| chat_tool(tool)),
    )
}

/// A tool's name, description and parameters, added to an object.
fn describe(base: Json, tool: &ToolDefinition) -> (value: Json)
    requires
        base@.takes_keys(),
    ensures
        value@ == described(base@, tool@),
{
    base.with("name", Json::string(tool.name.as_str())).with(
        "description",
        Json::string(tool.description.as_str()),
    ).with("parameters", tool.parameters.duplicate())
}

/// The tools for chat completions.
fn chat_tools(tools: &Vec<ToolDefinition>) -> (values: Vec<Json>)
    ensures
        json::json_views(values@) == tools@.map_values(|t: ToolDefinition| t@).map_values(
            |tool: ToolDefinitionView| chat_tool(tool),
        ),
{
    let mut values: Vec<Json> = Vec::new();
    let mut i: usize = 0;
    while i < tools.len()
        invariant
            i <= tools@.len(),
            values@.len() == i,
            forall|j: int| 0 <= j < i ==> (#[trigger] values@[j])@ == chat_tool(tools@[j]@),
        decreases tools@.len() - i,
    {
        let function = describe(Json::object(), &tools[i]);
        values.push(
            Json::object().with("type", Json::string("function")).with("function", function),
        );
        i += 1;
    }
    proof {
        assert(json::json_views(values@) =~= tools@.map_values(
            |t: ToolDefinition| t@,
        ).map_values(|tool: ToolDefinitionView| chat_tool(tool)));
    }
    values
}

/// The tools for the Responses API.
fn responses_tools(tools: &Vec<ToolDefinition>) -> (values: Vec<Json>)
    ensures
        json::json_views(values@) == tools@.map_values(|t: ToolDefinition| t@).map_values(
            |tool: ToolDefinitionView| responses_tool(tool),
        ),
{
    let mut values: Vec<Json> = Vec::new();
    let mut i: usize = 0;
    while i < tools.len()
        invariant
            i <= tools@.len(),
            values@.len() == i,
            forall|j: int| 0 <= j < i ==> (#[trigger] values@[j])@ == responses_tool(tools@[j]@),
        decreases tools@.len() - i,
    {
        values.push(
            describe(Json::object().with("type", Json::string("function")), &tools[i]),
        );
        i += 1;
    }
    proof {
        assert(json::json_views(values@) =~= tools@.map_values(
            |t: ToolDefinition| t@,
        ).map_values(|tool: ToolDefinitionView| responses_tool(tool)));
    }
    values
}

/// An optional value, added to a body where it is there.
fn add_optional(body: Json, key: &str, value: Option<Json>) -> (changed: Json)
    requires
        body@ is Object,
    ensures
        changed@ == with_optional(body@, key@, json::json_view_of(value)),
        changed@ is Object,
{
    match value {
        Some(v) => body.with(key, v),
        None => body,
    }
}

/// The tools, added to a body where there are any.
fn add_tools(body: Json, tools: Vec<Json>) -> (changed: Json)
    requires
        body@ is Object,
    ensures
        changed@ == with_tools(body@, json::json_views(tools@)),
        changed@ is Object,
{
    if tools.len() > 0 {
        body.with("tools", Json::array(tools))
    } else {
        body
    }
}

/// An optional number as an optional JSON value.
fn number_value(n: Option<u64>) -> (value: Option<Json>)
    ensures
        json::json_view_of(value) == optional_number(n),
{
    match n {
        Some(v) => Some(Json::Number(JsonNumber::Unsigned(v))),
        None => None,
    }
}

/// Builds the body of a chat-completions request.
pub fn build_chat_body(model: &str, request: &CompletionRequest) -> (body: Json)
    ensures
        body@ == chat_body(model@, request@),
        body@ is Object,
{
    let mut messages: Vec<Json> = Vec::new();
    if let Some(preamble) = &request.preamble {
        messages.push(convert::make_role_content("system", Json::string(preamble.as_str())));
    }
    let ghost first = json::json_views(messages@);
    let mut rest = convert::convert_messages_to_openai(&request.chat_history);
    let ghost second = json::json_views(rest@);
    messages.append(&mut rest);
    proof {
        assert(json::json_views(messages@) =~= first + second);
        assert(json::json_views(messages@) =~= chat_messages(request@));
    }
    let body = Json::object().with("model", Json::string(model)).with(
        "messages",
        Json::array(messages),
    );
    let body = add_optional(body, "max_tokens", number_value(request.max_tokens));
    let body = add_optional(body, "temperature", json::duplicate_option(&request.temperature));
    add_tools(body, chat_tools(&request.tools))
}

/// A body that asks for a stream.
pub open spec fn streaming(body: JsonView) -> JsonView {
    body.with("stream"@, JsonView::Bool(true))
}

/// The body with a stream asked for.
pub fn with_streaming_enabled(request_body: &Json) -> (body: Json)
    requires
        request_body@.takes_keys(),
    ensures
        body@ == streaming(request_body@),
{
    request_body.duplicate().with("stream", Json::Bool(true))
}

// ---------------------------------------------------------------------------
// Chat completions
// ---------------------------------------------------------------------------

/// The address of an endpoint under a base URL.
pub open spec fn endpoint(base_url: Seq<char>, part: Seq<char>) -> Seq<char> {
    text::without_trailing(base_url, '/') + part
}

/// The address of an endpoint under a base URL.
fn make_endpoint(base_url: &str, part: &str) -> (url: String)
    ensures
        url@ == endpoint(base_url@, part@),
{
    let base = text::trim_end_char(base_url, '/');
    text::concat(base.as_str(), part)
}

/// A header with a bearer token.
pub open spec fn bearer(key: Seq<char>) -> (Seq<char>, Seq<char>) {
    ("authorization"@, "Bearer "@ + key)
}

/// The header of a JSON body.
pub open spec fn json_header() -> (Seq<char>, Seq<char>) {
    ("content-type"@, "application/json"@)
}

/// The header that asks for an uncompressed stream.
pub open spec fn identity_header() -> (Seq<char>, Seq<char>) {
    ("accept-encoding"@, "identity"@)
}

/// An optional header.
pub open spec fn optional_header(name: Seq<char>, value: Option<Seq<char>>) -> Seq<
    (Seq<char>, Seq<char>),
> {
    match value {
        Some(v) => seq![(name, v)],
        None => Seq::empty(),
    }
}

/// Kimi's endpoints expect its own client's name.
pub open spec fn kimi_header(url: Seq<char>) -> Seq<(Seq<char>, Seq<char>)> {
    if text::has(url, "kimi.com"@) || text::has(url, "moonshot.ai"@) {
        seq![("user-agent"@, "KimiCLI/1.3"@)]
    } else {
        Seq::empty()
    }
}

/// The account id goes out to ChatGPT alone.
pub open spec fn account_for(provider_id: Seq<char>, account_id: Option<Seq<char>>) -> Option<
    Seq<char>,
> {
    if provider_id == "openai-chatgpt"@ {
        account_id
    } else {
        None
    }
}

/// The request to an OpenAI chat-completions API.
pub open spec fn openai_request(
    provider_id: Seq<char>,
    model_name: Seq<char>,
    request: RequestView,
    config: ProviderView,
    account_id: Option<Seq<char>>,
) -> HttpView {
    let url = endpoint(config.base_url, "/v1/chat/completions"@);
    HttpView {
        url,
        headers: seq![bearer(config.api_key), json_header()] + optional_header(
            "chatgpt-account-id"@,
            account_for(provider_id, account_id),
        ) + kimi_header(url) + config.extra_headers + seq![identity_header()],
        body: streaming(chat_body(api_model_name(provider_id, model_name), request)),
    }
}

/// Adds a header.
fn add_header(headers: &mut Vec<(String, String)>, name: &str, value: String)
    ensures
        provider::header_views(final(headers)@) == provider::header_views(old(headers)@).push(
            (name@, value@),
        ),
{
    let ghost before = headers@;
    headers.push((name.to_owned(), value));
    proof {
        assert(provider::header_views(headers@) =~= provider::header_views(before).push(
            (name@, value@),
        ));
    }
}

/// Adds a header with a bearer token.
fn add_bearer(headers: &mut Vec<(String, String)>, key: &str)
    ensures
        provider::header_views(final(headers)@) == provider::header_views(old(headers)@).push(
            bearer(key@),
        ),
{
    add_header(headers, "authorization", text::concat("Bearer ", key));
}

/// Adds copies of a provider's own headers.
fn add_extra(headers: &mut Vec<(String, String)>, extra: &Vec<(String, String)>)
    ensures
        provider::header_views(final(headers)@) == provider::header_views(old(headers)@)
            + provider::header_views(extra@),
{
    let ghost before = headers@;
    let mut copy = provider::duplicate_headers(extra);
    headers.append(&mut copy);
    proof {
        assert(provider::header_views(headers@) =~= provider::header_views(before)
            + provider::header_views(extra@));
    }
}

/// Builds the request to an OpenAI chat-completions API.
pub fn build_openai_request(
    provider_id: &str,
    model_name: &str,
    request: &CompletionRequest,
    config: &ProviderConfig,
    account_id: &Option<String>,
) -> (http: HttpRequest)
    ensures
        http@ == openai_request(
            provider_id@,
            model_name@,
            request@,
            config@,
            text::view_of(*account_id),
        ),
{
    let name = remap_model_name_for_api(provider_id, model_name);
    let body = build_chat_body(name.as_str(), request);
    let url = make_endpoint(config.base_url.as_str(), "/v1/chat/completions");
    let mut headers: Vec<(String, String)> = Vec::new();
    add_bearer(&mut headers, config.api_key.as_str());
    add_header(&mut headers, "content-type", "application/json".to_owned());
    let ghost g1 = provider::header_views(headers@);
    if text::same(provider_id, "openai-chatgpt") {
        if let Some(id) = account_id {
            add_header(&mut headers, "chatgpt-account-id", id.clone());
        }
    }
    let ghost account = optional_header(
        "chatgpt-account-id"@,
        account_for(provider_id@, text::view_of(*account_id)),
    );
    let ghost g2 = provider::header_views(headers@);
    if text::contains(url.as_str(), "kimi.com") || text::contains(url.as_str(), "moonshot.ai") {
        add_header(&mut headers, "user-agent", "KimiCLI/1.3".to_owned());
    }
    let ghost g3 = provider::header_views(headers@);
    add_extra(&mut headers, &config.extra_headers);
    add_header(&mut headers, "accept-encoding", "identity".to_owned());
    proof {
        assert(g1 =~= seq![bearer(config.api_key@), json_header()]);
        assert(g2 =~= g1 + account);
        assert(g3 =~= g2 + kimi_header(url@));
        assert(provider::header_views(headers@) =~= g1 + account + kimi_header(url@)
            + config@.extra_headers + seq![identity_header()]);
    }
    HttpRequest { url, headers, body: with_streaming_enabled(&body) }
}

/// The request to a chat-completions endpoint, with the provider's own headers first
/// and a key where there is one.
pub open spec fn compatible_request(
    provider_id: Seq<char>,
    model_name: Seq<char>,
    request: RequestView,
    url: Seq<char>,
    api_key: Option<Seq<char>>,
    extra_headers: Seq<(Seq<char>, Seq<char>)>,
) -> HttpView {
    HttpView {
        url,
        headers: extra_headers + (match api_key {
            Some(key) => seq![bearer(key)],
            None => Seq::empty(),
        }) + seq![json_header(), identity_header()],
        body: streaming(chat_body(api_model_name(provider_id, model_name), request)),
    }
}

/// Builds the request to a chat-completions endpoint, with an optional key.
pub fn build_compatible_request_with_optional_auth(
    provider_id: &str,
    model_name: &str,
    request: &CompletionRequest,
    url: String,
    api_key: &Option<String>,
    extra_headers: &Vec<(String, String)>,
) -> (http: HttpRequest)
    ensures
        http@ == compatible_request(
            provider_id@,
            model_name@,
            request@,
            url@,
            text::view_of(*api_key),
            provider::header_views(extra_headers@),
        ),
{
    let name = remap_model_name_for_api(provider_id, model_name);
    let body = build_chat_body(name.as_str(), request);
    let mut headers: Vec<(String, String)> = Vec::new();
    add_extra(&mut headers, extra_headers);
    let ghost g1 = provider::header_views(headers@);
    if let Some(key) = api_key {
        add_bearer(&mut headers, key.as_str());
    }
    let ghost g2 = provider::header_views(headers@);
    add_header(&mut headers, "content-type", "application/json".to_owned());
    add_header(&mut headers, "accept-encoding", "identity".to_owned());
    proof {
        let extra = provider::header_views(extra_headers@);
        let auth = match text::view_of(*api_key) {
            Some(key) => seq![bearer(key)],
            None => Seq::empty(),
        };
        assert(g1 =~= extra);
        assert(g2 =~= extra + auth);
        assert(provider::header_views(headers@) =~= extra + auth + seq![
            json_header(),
            identity_header(),
        ]);
    }
    HttpRequest { url, headers, body: with_streaming_enabled(&body) }
}

/// How a kind of API is named in messages.
pub open spec fn api_type_name(api_type: ApiType) -> Seq<char> {
    match api_type {
        ApiType::OpenAiCompletions => "OpenAiCompletions"@,
        ApiType::OpenAiChatCompletions => "OpenAiChatCompletions"@,
        ApiType::KiloGateway => "KiloGateway"@,
        ApiType::OpenAiResponses => "OpenAiResponses"@,
        ApiType::Anthropic => "Anthropic"@,
        ApiType::Gemini => "Gemini"@,
    }
}

/// How a kind of API is named in messages.
fn name_of_api_type(api_type: ApiType) -> (name: &'static str)
    ensures
        name@ == api_type_name(api_type),
{
    match api_type {
        ApiType::OpenAiCompletions => "OpenAiCompletions",
        ApiType::OpenAiChatCompletions => "OpenAiChatCompletions",
        ApiType::KiloGateway => "KiloGateway",
        ApiType::OpenAiResponses => "OpenAiResponses",
        ApiType::Anthropic => "Anthropic",
        ApiType::Gemini => "Gemini",
    }
}

/// The endpoint of a provider with a chat-completions API, or why it has none.
pub open spec fn compatible_path(api_type: ApiType, display_name: Seq<char>) -> Result<
    Seq<char>,
    ErrorView,
> {
    match api_type {
        ApiType::OpenAiCompletions | ApiType::OpenAiResponses => Ok("/v1/chat/completions"@),
        ApiType::OpenAiChatCompletions | ApiType::Gemini => Ok("/chat/completions"@),
        ApiType::Anthropic => Err(
            ErrorView::Provider(
                display_name
                    + " is configured with anthropic API type, but this call expects an OpenAI-compatible API"@,
            ),
        ),
        ApiType::KiloGateway => Err(
            ErrorView::Provider(
                display_name + " uses API type "@ + api_type_name(api_type)
                    + " which does not support OpenAI-compatible calls"@,
            ),
        ),
    }
}

/// The request to a provider with a chat-completions API, or why it is refused. The
/// model's name goes out as it is.
pub open spec fn plain_compatible_request(
    model_name: Seq<char>,
    request: RequestView,
    display_name: Seq<char>,
    config: ProviderView,
) -> Result<HttpView, ErrorView> {
    match compatible_path(config.api_type, display_name) {
        Err(refusal) => Err(refusal),
        Ok(part) => Ok(
            HttpView {
                url: endpoint(config.base_url, part),
                headers: seq![bearer(config.api_key), json_header(), identity_header()],
                body: streaming(chat_body(model_name, request)),
            },
        ),
    }
}

/// The view of a built request.
pub open spec fn http_result(result: Result<HttpRequest, CompletionError>) -> Result<
    HttpView,
    ErrorView,
> {
    match result {
        Ok(http) => Ok(http@),
        Err(refusal) => Err(refusal@),
    }
}

/// Builds the request to a provider with a chat-completions API.
pub fn build_compatible_request(
    model_name: &str,
    request: &CompletionRequest,
    display_name: &str,
    config: &ProviderConfig,
) -> (result: Result<HttpRequest, CompletionError>)
    ensures
        http_result(result) == plain_compatible_request(
            model_name@,
            request@,
            display_name@,
            config@,
        ),
{
    let part = match config.api_type {
        ApiType::OpenAiCompletions | ApiType::OpenAiResponses => "/v1/chat/completions",
        ApiType::OpenAiChatCompletions | ApiType::Gemini => "/chat/completions",
        ApiType::Anthropic => {
            return Err(
                CompletionError::ProviderError(
                    text::concat(
                        display_name,
                        " is configured with anthropic API type, but this call expects an OpenAI-compatible API",
                    ),
                ),
            );
        },
        ApiType::KiloGateway => {
            let start = text::concat(display_name, " uses API type ");
            let middle = text::concat(start.as_str(), name_of_api_type(config.api_type));
            return Err(
                CompletionError::ProviderError(
                    text::concat(
                        middle.as_str(),
                        " which does not support OpenAI-compatible calls",
                    ),
                ),
            );
        },
    };
    let url = make_endpoint(config.base_url.as_str(), part);
    let body = build_chat_body(model_name, request);
    let mut headers: Vec<(String, String)> = Vec::new();
    add_bearer(&mut headers, config.api_key.as_str());
    add_header(&mut headers, "content-type", "application/json".to_owned());
    add_header(&mut headers, "accept-encoding", "identity".to_owned());
    proof {
        assert(provider::header_views(headers@) =~= seq![
            bearer(config.api_key@),
            json_header(),
            identity_header(),
        ]);
    }
    Ok(HttpRequest { url, headers, body: with_streaming_enabled(&body) })
}

// ---------------------------------------------------------------------------
// Responses API
// ---------------------------------------------------------------------------

/// What a request says of the program and the moment.
#[derive(Debug, PartialEq, Eq)]
pub struct Stamp {
    pub version: String,
    pub unix_seconds: i64,
}

/// The body of a request to the Responses API. ChatGPT wants instructions in any case,
/// takes neither limit nor temperature, and streams without storing.
pub open spec fn responses_body(
    model: Seq<char>,
    request: RequestView,
    is_chatgpt: bool,
) -> JsonView {
    let body = json::empty_object().with("model"@, convert::str_value(model)).with(
        "input"@,
        JsonView::Array(convert::responses_input(request.chat_history)),
    );
    let with_instructions = match request.preamble {
        Some(preamble) => body.with("instructions"@, convert::str_value(preamble)),
        None => if is_chatgpt {
            body.with(
                "instructions"@,
                convert::str_value(
                    "You are Spacebot. Follow instructions exactly and respond concisely."@,
                ),
            )
        } else {
            body
        },
    };
    let finished = if is_chatgpt {
        with_instructions.with("store"@, JsonView::Bool(false)).with(
            "stream"@,
            JsonView::Bool(true),
        )
    } else {
        with_optional(
            with_optional(
                with_instructions,
                "max_output_tokens"@,
                optional_number(request.max_tokens),
            ),
            "temperature"@,
            request.temperature,
        )
    };
    with_tools(
        finished,
        request.tools.map_values(|tool: ToolDefinitionView| responses_tool(tool)),
    )
}

/// The headers that ChatGPT expects.
pub open spec fn chatgpt_headers(version: Seq<char>, unix_seconds: int) -> Seq<
    (Seq<char>, Seq<char>),
> {
    seq![
        ("originator"@, "opencode"@),
        ("session_id"@, "spacebot-"@ + text::signed_decimal(unix_seconds)),
        ("user-agent"@, "spacebot/"@ + version),
    ]
}

/// The request to the Responses API.
pub open spec fn responses_request(
    provider_id: Seq<char>,
    model_name: Seq<char>,
    request: RequestView,
    config: ProviderView,
    account_id: Option<Seq<char>>,
    version: Seq<char>,
    unix_seconds: int,
) -> HttpView {
    let is_chatgpt = provider_id == "openai-chatgpt"@;
    HttpView {
        url: endpoint(
            config.base_url,
            if is_chatgpt {
                "/responses"@
            } else {
                "/v1/responses"@
            },
        ),
        headers: seq![bearer(config.api_key), json_header()] + optional_header(
            "ChatGPT-Account-Id"@,
            account_for(provider_id, account_id),
        ) + (if is_chatgpt {
            chatgpt_headers(version, unix_seconds)
        } else {
            Seq::empty()
        }),
        body: responses_body(api_model_name(provider_id, model_name), request, is_chatgpt),
    }
}

/// Builds the body of a request to the Responses API.
pub fn build_responses_body(model: &str, request: &CompletionRequest, is_chatgpt: bool) -> (body:
    Json)
    ensures
        body@ == responses_body(model@, request@, is_chatgpt),
{
    let input = convert::convert_messages_to_openai_responses(&request.chat_history);
    let body = Json::object().with("model", Json::string(model)).with("input", Json::array(input));
    let body = match &request.preamble {
        Some(preamble) => body.with("instructions", Json::string(preamble.as_str())),
        None => if is_chatgpt {
            body.with(
                "instructions",
                Json::string(
                    "You are Spacebot. Follow instructions exactly and respond concisely.",
                ),
            )
        } else {
            body
        },
    };
    let body = if is_chatgpt {
        body.with("store", Json::Bool(false)).with("stream", Json::Bool(true))
    } else {
        let limited = add_optional(body, "max_output_tokens", number_value(request.max_tokens));
        add_optional(limited, "temperature", json::duplicate_option(&request.temperature))
    };
    add_tools(body, responses_tools(&request.tools))
}

/// Builds the request to the Responses API.
pub fn build_responses_request(
    provider_id: &str,
    model_name: &str,
    request: &CompletionRequest,
    config: &ProviderConfig,
    account_id: &Option<String>,
    stamp: &Stamp,
) -> (http: HttpRequest)
    ensures
        http@ == responses_request(
            provider_id@,
            model_name@,
            request@,
            config@,
            text::view_of(*account_id),
            stamp.version@,
            stamp.unix_seconds as int,
        ),
{
    let is_chatgpt = text::same(provider_id, "openai-chatgpt");
    let part = if is_chatgpt {
        "/responses"
    } else {
        "/v1/responses"
    };
    let url = make_endpoint(config.base_url.as_str(), part);
    let name = remap_model_name_for_api(provider_id, model_name);
    let body = build_responses_body(name.as_str(), request, is_chatgpt);
    let mut headers: Vec<(String, String)> = Vec::new();
    add_bearer(&mut headers, config.api_key.as_str());
    add_header(&mut headers, "content-type", "application/json".to_owned());
    let ghost g1 = provider::header_views(headers@);
    if is_chatgpt {
        if let Some(id) = account_id {
            add_header(&mut headers, "ChatGPT-Account-Id", id.clone());
        }
    }
    let ghost account = optional_header(
        "ChatGPT-Account-Id"@,
        account_for(provider_id@, text::view_of(*account_id)),
    );
    let ghost g2 = provider::header_views(headers@);
    if is_chatgpt {
        let seconds = text::signed_decimal_of(stamp.unix_seconds);
        add_header(&mut headers, "originator", "opencode".to_owned());
        add_header(
            &mut headers,
            "session_id",
            text::concat("spacebot-", seconds.as_str()),
        );
        add_header(
            &mut headers,
            "user-agent",
            text::concat("spacebot/", stamp.version.as_str()),
        );
    }
    proof {
        assert(g1 =~= seq![bearer(config.api_key@), json_header()]);
        assert(g2 =~= g1 + account);
        if is_chatgpt {
            assert(provider::header_views(headers@) =~= g1 + account + chatgpt_headers(
                stamp.version@,
                stamp.unix_seconds as int,
            ));
        } else {
            assert(provider::header_views(headers@) =~= g1 + account + Seq::<
                (Seq<char>, Seq<char>),
            >::empty());
        }
    }
    HttpRequest { url, headers, body }
}

// ---------------------------------------------------------------------------
// Which request
// ---------------------------------------------------------------------------

/// How a completion is asked for.
#[derive(Debug, PartialEq, Eq)]
pub enum Call {
    /// By the Anthropic Messages API.
    Anthropic,
    /// By the Responses API; the reply comes as a whole.
    Responses { http: HttpRequest, label: String },
    /// By a chat-completions API; the reply comes as a stream.
    Chat { http: HttpRequest, label: String },
}

/// The view of a [`Call`].
pub enum CallView {
    Anthropic,
    Responses { http: HttpView, label: Seq<char> },
    Chat { http: HttpView, label: Seq<char> },
}

impl View for Call {
    type V = CallView;

    open spec fn view(&self) -> CallView {
        match self {
            Call::Anthropic => CallView::Anthropic,
            Call::Responses { http, label } => CallView::Responses { http: http@, label: label@ },
            Call::Chat { http, label } => CallView::Chat { http: http@, label: label@ },
        }
    }
}

/// The headers with which the Kilo Gateway knows the application.
pub open spec fn kilo_headers() -> Seq<(Seq<char>, Seq<char>)> {
    seq![
        ("HTTP-Referer"@, "https://github.com/spacedriveapp/spacebot"@),
        ("X-Title"@, "spacebot"@),
    ]
}

/// How a completion is asked for, by the kind of API that the provider has; or why it
/// cannot be.
pub open spec fn call_for(
    provider_id: Seq<char>,
    model_name: Seq<char>,
    request: RequestView,
    config: ProviderView,
    account_id: Option<Seq<char>>,
    version: Seq<char>,
    unix_seconds: int,
) -> Result<CallView, ErrorView> {
    match config.api_type {
        ApiType::Anthropic => Ok(CallView::Anthropic),
        ApiType::OpenAiCompletions => Ok(
            CallView::Chat {
                http: openai_request(provider_id, model_name, request, config, account_id),
                label: label(provider_id, config),
            },
        ),
        ApiType::OpenAiChatCompletions => Ok(
            CallView::Chat {
                http: compatible_request(
                    provider_id,
                    model_name,
                    request,
                    endpoint(config.base_url, "/chat/completions"@),
                    Some(config.api_key),
                    config.extra_headers,
                ),
                label: match config.name {
                    Some(name) => name,
                    None => "OpenAI-compatible provider"@,
                },
            },
        ),
        ApiType::KiloGateway => Ok(
            CallView::Chat {
                http: compatible_request(
                    provider_id,
                    model_name,
                    request,
                    endpoint(config.base_url, "/chat/completions"@),
                    Some(config.api_key),
                    kilo_headers(),
                ),
                label: "Kilo Gateway"@,
            },
        ),
        ApiType::OpenAiResponses => Ok(
            CallView::Responses {
                http: responses_request(
                    provider_id,
                    model_name,
                    request,
                    config,
                    account_id,
                    version,
                    unix_seconds,
                ),
                label: label(provider_id, config),
            },
        ),
        ApiType::Gemini => match plain_compatible_request(
            model_name,
            request,
            "Google Gemini"@,
            config,
        ) {
            Ok(http) => Ok(CallView::Chat { http, label: "Google Gemini"@ }),
            Err(refusal) => Err(refusal),
        },
    }
}

/// The view of a planned call.
pub open spec fn call_result(result: Result<Call, CompletionError>) -> Result<CallView, ErrorView> {
    match result {
        Ok(call) => Ok(call@),
        Err(refusal) => Err(refusal@),
    }
}

/// The headers with which the Kilo Gateway knows the application.
fn make_kilo_headers() -> (headers: Vec<(String, String)>)
    ensures
        provider::header_views(headers@) == kilo_headers(),
{
    let mut headers: Vec<(String, String)> = Vec::new();
    add_header(
        &mut headers,
        "HTTP-Referer",
        "https://github.com/spacedriveapp/spacebot".to_owned(),
    );
    add_header(&mut headers, "X-Title", "spacebot".to_owned());
    proof {
        assert(provider::header_views(headers@) =~= kilo_headers());
    }
    headers
}

/// Plans how a completion is asked for.
pub fn plan_call(
    provider_id: &str,
    model_name: &str,
    request: &CompletionRequest,
    config: &ProviderConfig,
    account_id: &Option<String>,
    stamp: &Stamp,
) -> (result: Result<Call, CompletionError>)
    ensures
        call_result(result) == call_for(
            provider_id@,
            model_name@,
            request@,
            config@,
            text::view_of(*account_id),
            stamp.version@,
            stamp.unix_seconds as int,
        ),
{
    match config.api_type {
        ApiType::Anthropic => Ok(Call::Anthropic),
        ApiType::OpenAiCompletions => {
            let http = build_openai_request(provider_id, model_name, request, config, account_id);
            Ok(Call::Chat { http, label: provider_label(provider_id, config) })
        },
        ApiType::OpenAiChatCompletions => {
            let url = make_endpoint(config.base_url.as_str(), "/chat/completions");
            let http = build_compatible_request_with_optional_auth(
                provider_id,
                model_name,
                request,
                url,
                &Some(config.api_key.clone()),
                &config.extra_headers,
            );
            let label = match &config.name {
                Some(name) => name.clone(),
                None => "OpenAI-compatible provider".to_owned(),
            };
            Ok(Call::Chat { http, label })
        },
        ApiType::KiloGateway => {
            let url = make_endpoint(config.base_url.as_str(), "/chat/completions");
            let http = build_compatible_request_with_optional_auth(
                provider_id,
                model_name,
                request,
                url,
                &Some(config.api_key.clone()),
                &make_kilo_headers(),
            );
            Ok(Call::Chat { http, label: "Kilo Gateway".to_owned() })
        },
        ApiType::OpenAiResponses => {
            let http = build_responses_request(
                provider_id,
                model_name,
                request,
                config,
                account_id,
                stamp,
            );
            Ok(Call::Responses { http, label: provider_label(provider_id, config) })
        },
        ApiType::Gemini => match build_compatible_request(
            model_name,
            request,
            "Google Gemini",
            config,
        ) {
            Ok(http) => Ok(Call::Chat { http, label: "Google Gemini".to_owned() }),
            Err(refusal) => Err(refusal),
        },
    }
}

/// An account id goes to ChatGPT alone: for every other provider the request is the
/// same whatever the account.
pub proof fn law_account_goes_to_chatgpt_alone(
    provider_id: Seq<char>,
    model_name: Seq<char>,
    request: RequestView,
    config: ProviderView,
    account_id: Option<Seq<char>>,
    other: Option<Seq<char>>,
    version: Seq<char>,
    unix_seconds: int,
)
    requires
        provider_id != "openai-chatgpt"@,
    ensures
        call_for(provider_id, model_name, request, config, account_id, version, unix_seconds)
            == call_for(provider_id, model_name, request, config, other, version, unix_seconds),
{
}

/// Every call by a chat-completions API asks for a stream.
pub proof fn law_chat_calls_stream(
    provider_id: Seq<char>,
    model_name: Seq<char>,
    request: RequestView,
    config: ProviderView,
    account_id: Option<Seq<char>>,
    version: Seq<char>,
    unix_seconds: int,
)
    ensures
        call_for(provider_id, model_name, request, config, account_id, version, unix_seconds)
            matches Ok(CallView::Chat { http, .. }) ==> http.body.get("stream"@) == Some(
            JsonView::Bool(true),
        ),
{
    let remapped = api_model_name(provider_id, model_name);
    json::lemma_with_then_get(
        chat_body(remapped, request),
        "stream"@,
        JsonView::Bool(true),
        "stream"@,
    );
    json::lemma_with_then_get(
        chat_body(model_name, request),
        "stream"@,
        JsonView::Bool(true),
        "stream"@,
    );
}

} // verus!
