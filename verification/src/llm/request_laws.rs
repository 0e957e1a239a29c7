//! What is sent to a provider: where it goes, which headers it has, and what its body holds.
use crate::config::provider::{ApiType, LlmView, ProviderView};
use crate::config::resolve;
use crate::json;
use crate::json::{JsonNumberView, JsonView};
use crate::llm::convert;
use crate::llm::manager;
use crate::llm::manager::{CopilotToken, LlmErrorView, OAuthCredentials, TokenStepView};
use crate::llm::message::{ErrorView, RequestView, ToolDefinitionView, Usage};
use crate::llm::model;
use crate::llm::model::{ErrorKind, Grant, ModelView};
use crate::llm::request;
use crate::llm::request::{CallView, HttpView};
use crate::text;
use crate::text_laws;
use vstd::prelude::*;

verus! {

// ---------------------------------------------------------------------------
// Bodies
// ---------------------------------------------------------------------------

proof fn lemma_optional(body: JsonView, key: Seq<char>, value: Option<JsonView>, other: Seq<char>)
    requires
        body.takes_keys(),
        body.get(key) is None,
        other != key,
    ensures
        request::with_optional(body, key, value).takes_keys(),
        request::with_optional(body, key, value).get(key) == value,
        request::with_optional(body, key, value).get(other) == body.get(other),
{
    if let Some(v) = value {
        json::lemma_with_then_get(body, key, v, other);
    }
}

/// The tools of a request, for chat completions: each a function with its name, its
/// description and its parameters.
pub open spec fn chat_tools(tools: Seq<ToolDefinitionView>) -> Seq<JsonView> {
    tools.map_values(
        |tool: ToolDefinitionView|
            JsonView::Object(
                seq![
                    ("type"@, JsonView::Str("function"@)),
                    (
                        "function"@,
                        JsonView::Object(
                            seq![
                                ("name"@, JsonView::Str(tool.name)),
                                ("description"@, JsonView::Str(tool.description)),
                                ("parameters"@, tool.parameters),
                            ],
                        ),
                    ),
                ],
            ),
    )
}

/// The tools of a request, for the Responses API.
pub open spec fn responses_tools(tools: Seq<ToolDefinitionView>) -> Seq<JsonView> {
    tools.map_values(
        |tool: ToolDefinitionView|
            JsonView::Object(
                seq![
                    ("type"@, JsonView::Str("function"@)),
                    ("name"@, JsonView::Str(tool.name)),
                    ("description"@, JsonView::Str(tool.description)),
                    ("parameters"@, tool.parameters),
                ],
            ),
    )
}

proof fn lemma_tools(tools: Seq<ToolDefinitionView>)
    ensures
        tools.map_values(|tool: ToolDefinitionView| request::chat_tool(tool)) == chat_tools(tools),
        tools.map_values(|tool: ToolDefinitionView| request::responses_tool(tool))
            == responses_tools(tools),
{
    reveal_strlit("type");
    reveal_strlit("function");
    reveal_strlit("name");
    reveal_strlit("description");
    reveal_strlit("parameters");
    assert("type"@.len() == 4 && "type"@[0] == 't');
    assert("function"@.len() == 8);
    assert("name"@.len() == 4 && "name"@[0] == 'n');
    assert("description"@.len() == 11);
    assert("parameters"@.len() == 10);
    let chat = tools.map_values(|tool: ToolDefinitionView| request::chat_tool(tool));
    let own = tools.map_values(|tool: ToolDefinitionView| request::responses_tool(tool));
    assert forall|i: int| 0 <= i < tools.len() implies chat[i] == chat_tools(tools)[i] && own[i]
        == responses_tools(tools)[i] by {
        let tool = tools[i];
        json::lemma_object_of_three(
            "name"@,
            JsonView::Str(tool.name),
            "description"@,
            JsonView::Str(tool.description),
            "parameters"@,
            tool.parameters,
        );
        json::lemma_object_of_two(
            "type"@,
            JsonView::Str("function"@),
            "function"@,
            request::described(json::empty_object(), tool),
        );
        json::lemma_object_of_four(
            "type"@,
            JsonView::Str("function"@),
            "name"@,
            JsonView::Str(tool.name),
            "description"@,
            JsonView::Str(tool.description),
            "parameters"@,
            tool.parameters,
        );
    }
    assert(chat =~= chat_tools(tools));
    assert(own =~= responses_tools(tools));
}

/// The preamble of a chat-completions request goes first, as a system message, and the
/// conversation follows.
pub proof fn law_the_preamble_goes_first(request: RequestView)
    ensures
        request.preamble is None ==> request::chat_messages(request) == convert::openai_messages(
            request.chat_history,
        ),
        request.preamble matches Some(preamble) ==> request::chat_messages(request) == seq![
            JsonView::Object(
                seq![("role"@, JsonView::Str("system"@)), ("content"@, JsonView::Str(preamble))],
            ),
        ] + convert::openai_messages(request.chat_history),
{
    reveal_strlit("role");
    reveal_strlit("content");
    assert("role"@.len() != "content"@.len());
    if let Some(preamble) = request.preamble {
        json::lemma_object_of_two(
            "role"@,
            JsonView::Str("system"@),
            "content"@,
            JsonView::Str(preamble),
        );
    }
    assert(Seq::<JsonView>::empty() + convert::openai_messages(request.chat_history)
        =~= convert::openai_messages(request.chat_history));
}

/// The body of a chat-completions request holds the model, the messages and a demand for a
/// stream; the limit on tokens and the temperature exactly where the request has them; and
/// all tools of the request, in order, where it has any.
pub proof fn law_chat_bodies_hold_the_request(model: Seq<char>, request: RequestView)
    ensures
        ({
            let body = request::streaming(request::chat_body(model, request));
            &&& body.get("model"@) == Some(JsonView::Str(model))
            &&& body.get("messages"@) == Some(JsonView::Array(request::chat_messages(request)))
            &&& body.get("stream"@) == Some(JsonView::Bool(true))
            &&& body.get("max_tokens"@) == (match request.max_tokens {
                Some(n) => Some(JsonView::Number(JsonNumberView::Unsigned(n))),
                None => None,
            })
            &&& body.get("temperature"@) == request.temperature
            &&& body.get("tools"@) == (if request.tools.len() > 0 {
                Some(JsonView::Array(chat_tools(request.tools)))
            } else {
                None
            })
        }),
{
    lemma_tools(request.tools);
    reveal_strlit("model");
    reveal_strlit("messages");
    reveal_strlit("stream");
    reveal_strlit("max_tokens");
    reveal_strlit("temperature");
    reveal_strlit("tools");
    assert("model"@.len() == 5 && "model"@[0] == 'm');
    assert("messages"@.len() == 8);
    assert("stream"@.len() == 6);
    assert("max_tokens"@.len() == 10);
    assert("temperature"@.len() == 11);
    assert("tools"@.len() == 5 && "tools"@[0] == 't');
    let empty = json::empty_object();
    let name = JsonView::Str(model);
    let messages = JsonView::Array(request::chat_messages(request));
    let o1 = empty.with("model"@, name);
    let o2 = o1.with("messages"@, messages);
    json::lemma_with_then_get(empty, "model"@, name, "messages"@);
    json::lemma_with_then_get(empty, "model"@, name, "max_tokens"@);
    json::lemma_with_then_get(empty, "model"@, name, "temperature"@);
    json::lemma_with_then_get(empty, "model"@, name, "tools"@);
    json::lemma_with_then_get(o1, "messages"@, messages, "model"@);
    json::lemma_with_then_get(o1, "messages"@, messages, "max_tokens"@);
    json::lemma_with_then_get(o1, "messages"@, messages, "temperature"@);
    json::lemma_with_then_get(o1, "messages"@, messages, "tools"@);
    let limit = request::optional_number(request.max_tokens);
    let o3 = request::with_optional(o2, "max_tokens"@, limit);
    lemma_optional(o2, "max_tokens"@, limit, "model"@);
    lemma_optional(o2, "max_tokens"@, limit, "messages"@);
    lemma_optional(o2, "max_tokens"@, limit, "temperature"@);
    lemma_optional(o2, "max_tokens"@, limit, "tools"@);
    let o4 = request::with_optional(o3, "temperature"@, request.temperature);
    lemma_optional(o3, "temperature"@, request.temperature, "model"@);
    lemma_optional(o3, "temperature"@, request.temperature, "messages"@);
    lemma_optional(o3, "temperature"@, request.temperature, "max_tokens"@);
    lemma_optional(o3, "temperature"@, request.temperature, "tools"@);
    let tools = JsonView::Array(chat_tools(request.tools));
    json::lemma_with_then_get(o4, "tools"@, tools, "model"@);
    json::lemma_with_then_get(o4, "tools"@, tools, "messages"@);
    json::lemma_with_then_get(o4, "tools"@, tools, "max_tokens"@);
    json::lemma_with_then_get(o4, "tools"@, tools, "temperature"@);
    let o5 = request::chat_body(model, request);
    let yes = JsonView::Bool(true);
    json::lemma_with_then_get(o5, "stream"@, yes, "model"@);
    json::lemma_with_then_get(o5, "stream"@, yes, "messages"@);
    json::lemma_with_then_get(o5, "stream"@, yes, "max_tokens"@);
    json::lemma_with_then_get(o5, "stream"@, yes, "temperature"@);
    json::lemma_with_then_get(o5, "stream"@, yes, "tools"@);
}

/// The body of a request to the Responses API holds the model, the conversation and the
/// preamble as instructions; the limit on tokens and the temperature exactly where the
/// request has them; and all tools, in order, where there are any.
pub proof fn law_responses_bodies_hold_the_request(model: Seq<char>, request: RequestView)
    ensures
        ({
            let body = request::responses_body(model, request, false);
            &&& body.get("model"@) == Some(JsonView::Str(model))
            &&& body.get("input"@) == Some(
                JsonView::Array(convert::responses_input(request.chat_history)),
            )
            &&& body.get("instructions"@) == (match request.preamble {
                Some(preamble) => Some(JsonView::Str(preamble)),
                None => None,
            })
            &&& body.get("max_output_tokens"@) == (match request.max_tokens {
                Some(n) => Some(JsonView::Number(JsonNumberView::Unsigned(n))),
                None => None,
            })
            &&& body.get("temperature"@) == request.temperature
            &&& body.get("tools"@) == (if request.tools.len() > 0 {
                Some(JsonView::Array(responses_tools(request.tools)))
            } else {
                None
            })
        }),
{
    lemma_tools(request.tools);
    reveal_strlit("model");
    reveal_strlit("input");
    reveal_strlit("instructions");
    reveal_strlit("max_output_tokens");
    reveal_strlit("temperature");
    reveal_strlit("tools");
    assert("model"@.len() == 5 && "model"@[0] == 'm');
    assert("input"@.len() == 5 && "input"@[0] == 'i');
    assert("instructions"@.len() == 12);
    assert("max_output_tokens"@.len() == 17);
    assert("temperature"@.len() == 11);
    assert("tools"@.len() == 5 && "tools"@[0] == 't');
    let empty = json::empty_object();
    let name = JsonView::Str(model);
    let input = JsonView::Array(convert::responses_input(request.chat_history));
    let o1 = empty.with("model"@, name);
    let o2 = o1.with("input"@, input);
    json::lemma_with_then_get(empty, "model"@, name, "input"@);
    json::lemma_with_then_get(empty, "model"@, name, "instructions"@);
    json::lemma_with_then_get(empty, "model"@, name, "max_output_tokens"@);
    json::lemma_with_then_get(empty, "model"@, name, "temperature"@);
    json::lemma_with_then_get(empty, "model"@, name, "tools"@);
    json::lemma_with_then_get(o1, "input"@, input, "model"@);
    json::lemma_with_then_get(o1, "input"@, input, "instructions"@);
    json::lemma_with_then_get(o1, "input"@, input, "max_output_tokens"@);
    json::lemma_with_then_get(o1, "input"@, input, "temperature"@);
    json::lemma_with_then_get(o1, "input"@, input, "tools"@);
    let said = match request.preamble {
        Some(preamble) => Some(JsonView::Str(preamble)),
        None => None,
    };
    let o3 = request::with_optional(o2, "instructions"@, said);
    lemma_optional(o2, "instructions"@, said, "model"@);
    lemma_optional(o2, "instructions"@, said, "input"@);
    lemma_optional(o2, "instructions"@, said, "max_output_tokens"@);
    lemma_optional(o2, "instructions"@, said, "temperature"@);
    lemma_optional(o2, "instructions"@, said, "tools"@);
    let limit = request::optional_number(request.max_tokens);
    let o4 = request::with_optional(o3, "max_output_tokens"@, limit);
    lemma_optional(o3, "max_output_tokens"@, limit, "model"@);
    lemma_optional(o3, "max_output_tokens"@, limit, "input"@);
    lemma_optional(o3, "max_output_tokens"@, limit, "instructions"@);
    lemma_optional(o3, "max_output_tokens"@, limit, "temperature"@);
    lemma_optional(o3, "max_output_tokens"@, limit, "tools"@);
    let warmth = request.temperature;
    let o5 = request::with_optional(o4, "temperature"@, warmth);
    lemma_optional(o4, "temperature"@, warmth, "model"@);
    lemma_optional(o4, "temperature"@, warmth, "input"@);
    lemma_optional(o4, "temperature"@, warmth, "instructions"@);
    lemma_optional(o4, "temperature"@, warmth, "max_output_tokens"@);
    lemma_optional(o4, "temperature"@, warmth, "tools"@);
    let tools = JsonView::Array(responses_tools(request.tools));
    json::lemma_with_then_get(o5, "tools"@, tools, "model"@);
    json::lemma_with_then_get(o5, "tools"@, tools, "input"@);
    json::lemma_with_then_get(o5, "tools"@, tools, "instructions"@);
    json::lemma_with_then_get(o5, "tools"@, tools, "max_output_tokens"@);
    json::lemma_with_then_get(o5, "tools"@, tools, "temperature"@);
}

/// The body of a request to ChatGPT holds the model, the conversation, the preamble or a
/// standing instruction, and the tools; it is streamed and not stored, and has neither a
/// limit on tokens nor a temperature.
pub proof fn law_chatgpt_bodies_hold_the_request(model: Seq<char>, request: RequestView)
    ensures
        ({
            let body = request::responses_body(model, request, true);
            &&& body.get("model"@) == Some(JsonView::Str(model))
            &&& body.get("input"@) == Some(
                JsonView::Array(convert::responses_input(request.chat_history)),
            )
            &&& body.get("instructions"@) matches Some(JsonView::Str(instructions)) && (
            request.preamble is Some ==> instructions == request.preamble->0)
            &&& body.get("store"@) == Some(JsonView::Bool(false))
            &&& body.get("stream"@) == Some(JsonView::Bool(true))
            &&& body.get("max_output_tokens"@) is None
            &&& body.get("temperature"@) is None
            &&& body.get("tools"@) == (if request.tools.len() > 0 {
                Some(JsonView::Array(responses_tools(request.tools)))
            } else {
                None
            })
        }),
{
    lemma_tools(request.tools);
    reveal_strlit("model");
    reveal_strlit("input");
    reveal_strlit("instructions");
    reveal_strlit("store");
    reveal_strlit("stream");
    reveal_strlit("max_output_tokens");
    reveal_strlit("temperature");
    reveal_strlit("tools");
    assert("model"@.len() == 5 && "model"@[0] == 'm');
    assert("input"@.len() == 5 && "input"@[0] == 'i');
    assert("instructions"@.len() == 12);
    assert("store"@.len() == 5 && "store"@[0] == 's');
    assert("stream"@.len() == 6);
    assert("max_output_tokens"@.len() == 17);
    assert("temperature"@.len() == 11);
    assert("tools"@.len() == 5 && "tools"@[0] == 't');
    let empty = json::empty_object();
    let name = JsonView::Str(model);
    let input = JsonView::Array(convert::responses_input(request.chat_history));
    let said = JsonView::Str(
        match request.preamble {
            Some(preamble) => preamble,
            None => "You are Spacebot. Follow instructions exactly and respond concisely."@,
        },
    );
    let no = JsonView::Bool(false);
    let yes = JsonView::Bool(true);
    let tools = JsonView::Array(responses_tools(request.tools));
    let o1 = empty.with("model"@, name);
    let o2 = o1.with("input"@, input);
    let o3 = o2.with("instructions"@, said);
    let o4 = o3.with("store"@, no);
    let o5 = o4.with("stream"@, yes);
    lemma_five_keys(
        "model"@,
        name,
        "input"@,
        input,
        "instructions"@,
        said,
        "store"@,
        no,
        "stream"@,
        yes,
        "max_output_tokens"@,
    );
    lemma_five_keys(
        "model"@,
        name,
        "input"@,
        input,
        "instructions"@,
        said,
        "store"@,
        no,
        "stream"@,
        yes,
        "temperature"@,
    );
    lemma_five_keys(
        "model"@,
        name,
        "input"@,
        input,
        "instructions"@,
        said,
        "store"@,
        no,
        "stream"@,
        yes,
        "tools"@,
    );
    json::lemma_with_then_get(o5, "tools"@, tools, "model"@);
    json::lemma_with_then_get(o5, "tools"@, tools, "input"@);
    json::lemma_with_then_get(o5, "tools"@, tools, "instructions"@);
    json::lemma_with_then_get(o5, "tools"@, tools, "store"@);
    json::lemma_with_then_get(o5, "tools"@, tools, "stream"@);
    json::lemma_with_then_get(o5, "tools"@, tools, "max_output_tokens"@);
    json::lemma_with_then_get(o5, "tools"@, tools, "temperature"@);
}

proof fn lemma_five_keys(
    k1: Seq<char>,
    v1: JsonView,
    k2: Seq<char>,
    v2: JsonView,
    k3: Seq<char>,
    v3: JsonView,
    k4: Seq<char>,
    v4: JsonView,
    k5: Seq<char>,
    v5: JsonView,
    other: Seq<char>,
)
    requires
        k1 != k2,
        k1 != k3,
        k1 != k4,
        k1 != k5,
        k2 != k3,
        k2 != k4,
        k2 != k5,
        k3 != k4,
        k3 != k5,
        k4 != k5,
        other != k1,
        other != k2,
        other != k3,
        other != k4,
        other != k5,
    ensures
        ({
            let o = json::empty_object().with(k1, v1).with(k2, v2).with(k3, v3).with(k4, v4).with(
                k5,
                v5,
            );
            &&& o.get(k1) == Some(v1)
            &&& o.get(k2) == Some(v2)
            &&& o.get(k3) == Some(v3)
            &&& o.get(k4) == Some(v4)
            &&& o.get(k5) == Some(v5)
            &&& o.get(other) is None
        }),
{
    let o0 = json::empty_object();
    let o1 = o0.with(k1, v1);
    let o2 = o1.with(k2, v2);
    let o3 = o2.with(k3, v3);
    let o4 = o3.with(k4, v4);
    json::lemma_with_then_get(o0, k1, v1, other);
    json::lemma_with_then_get(o1, k2, v2, k1);
    json::lemma_with_then_get(o1, k2, v2, other);
    json::lemma_with_then_get(o2, k3, v3, k1);
    json::lemma_with_then_get(o2, k3, v3, k2);
    json::lemma_with_then_get(o2, k3, v3, other);
    json::lemma_with_then_get(o3, k4, v4, k1);
    json::lemma_with_then_get(o3, k4, v4, k2);
    json::lemma_with_then_get(o3, k4, v4, k3);
    json::lemma_with_then_get(o3, k4, v4, other);
    json::lemma_with_then_get(o4, k5, v5, k1);
    json::lemma_with_then_get(o4, k5, v5, k2);
    json::lemma_with_then_get(o4, k5, v5, k3);
    json::lemma_with_then_get(o4, k5, v5, k4);
    json::lemma_with_then_get(o4, k5, v5, other);
}

// ---------------------------------------------------------------------------
// Where a request goes
// ---------------------------------------------------------------------------

/// The address of an endpoint stands behind the base URL with one slash between them,
/// however many slashes the base URL ends in.
pub proof fn law_endpoints_follow_the_base_url(base: Seq<char>, part: Seq<char>)
    requires
        base.len() > 0 ==> base.last() != '/',
    ensures
        request::endpoint(base, part) == base + part,
        request::endpoint(base + seq!['/'], part) == base + part,
        request::endpoint(base + seq!['/', '/'], part) == base + part,
{
    let one = base + seq!['/'];
    let two = base + seq!['/', '/'];
    assert(two.drop_last() =~= one);
    assert(one.drop_last() =~= base);
    assert(two.last() == '/');
    assert(one.last() == '/');
    assert(text::without_trailing(base, '/') == base);
    assert(text::without_trailing(one, '/') == base);
    assert(text::without_trailing(two, '/') == base);
}

/// A model is asked for under its own name; only the Coding Plan gets it without `zai/`.
pub proof fn law_models_go_out_under_their_names(provider: Seq<char>, name: Seq<char>)
    ensures
        provider != "zai-coding-plan"@ ==> request::api_model_name(provider, name) == name,
        request::api_model_name("zai-coding-plan"@, "zai/"@ + name) == name,
        !(name.len() >= 4 && name.take(4) == "zai/"@) ==> request::api_model_name(provider, name)
            == name,
{
    reveal_strlit("zai/");
    let whole = "zai/"@ + name;
    assert(whole.subrange(0, 4) =~= "zai/"@);
    assert(whole.subrange(4, whole.len() as int) =~= name);
    if name.len() >= 4 {
        assert(name.subrange(0, 4) =~= name.take(4));
    }
}

/// A header of the list has the name and the value.
pub open spec fn has_header(
    headers: Seq<(Seq<char>, Seq<char>)>,
    name: Seq<char>,
    value: Seq<char>,
) -> bool {
    exists|i: int| 0 <= i < headers.len() && #[trigger] headers[i] == (name, value)
}

/// A provider with a completions API is asked at `/v1/chat/completions` under its address,
/// with its key as the bearer token, a JSON body, all of its own headers, and no
/// compression; the body is that of the model and the request.
pub proof fn law_completions_go_to_the_provider(
    provider_id: Seq<char>,
    model_name: Seq<char>,
    request: RequestView,
    config: ProviderView,
    account_id: Option<Seq<char>>,
    version: Seq<char>,
    unix_seconds: int,
    i: int,
)
    requires
        config.api_type == ApiType::OpenAiCompletions,
    ensures
        request::call_for(
            provider_id,
            model_name,
            request,
            config,
            account_id,
            version,
            unix_seconds,
        ) matches Ok(CallView::Chat { http, label }) && {
            &&& http.url == request::endpoint(config.base_url, "/v1/chat/completions"@)
            &&& has_header(http.headers, "authorization"@, "Bearer "@ + config.api_key)
            &&& has_header(http.headers, "content-type"@, "application/json"@)
            &&& has_header(http.headers, "accept-encoding"@, "identity"@)
            &&& 0 <= i < config.extra_headers.len() ==> has_header(
                http.headers,
                config.extra_headers[i].0,
                config.extra_headers[i].1,
            )
            &&& provider_id == "openai-chatgpt"@ && account_id is Some ==> has_header(
                http.headers,
                "chatgpt-account-id"@,
                account_id->0,
            )
            &&& text::has(http.url, "kimi.com"@) || text::has(http.url, "moonshot.ai"@)
                ==> has_header(http.headers, "user-agent"@, "KimiCLI/1.3"@)
            &&& http.body == request::streaming(
                request::chat_body(request::api_model_name(provider_id, model_name), request),
            )
            &&& label == request::label(provider_id, config)
        },
{
    let http = request::openai_request(provider_id, model_name, request, config, account_id);
    let start = seq![request::bearer(config.api_key), request::json_header()];
    let account = request::optional_header(
        "chatgpt-account-id"@,
        request::account_for(provider_id, account_id),
    );
    let kimi = request::kimi_header(http.url);
    let extra = config.extra_headers;
    let n1 = start.len() as int;
    let n2 = n1 + account.len();
    let n3 = n2 + kimi.len();
    let n4 = n3 + extra.len();
    assert(http.headers[0] == ("authorization"@, "Bearer "@ + config.api_key));
    assert(http.headers[1] == ("content-type"@, "application/json"@));
    assert(http.headers[n4] == ("accept-encoding"@, "identity"@));
    if 0 <= i < extra.len() {
        assert(http.headers[n3 + i] == extra[i]);
    }
    if account.len() > 0 {
        assert(http.headers[n1] == account[0]);
    }
    if kimi.len() > 0 {
        assert(http.headers[n2] == kimi[0]);
    }
}

/// A provider with a chat-completions API is asked at `/chat/completions` under its
/// address, with its own headers, its key as the bearer token, a JSON body and no
/// compression. The Kilo Gateway is asked in the same way, with the headers by which it
/// knows the application.
pub proof fn law_chat_completions_go_to_the_provider(
    provider_id: Seq<char>,
    model_name: Seq<char>,
    request: RequestView,
    config: ProviderView,
    account_id: Option<Seq<char>>,
    version: Seq<char>,
    unix_seconds: int,
)
    requires
        config.api_type == ApiType::OpenAiChatCompletions || config.api_type
            == ApiType::KiloGateway,
    ensures
        request::call_for(
            provider_id,
            model_name,
            request,
            config,
            account_id,
            version,
            unix_seconds,
        ) matches Ok(CallView::Chat { http, label }) && {
            &&& http.url == request::endpoint(config.base_url, "/chat/completions"@)
            &&& http.headers == (if config.api_type == ApiType::KiloGateway {
                seq![
                    ("HTTP-Referer"@, "https://github.com/spacedriveapp/spacebot"@),
                    ("X-Title"@, "spacebot"@),
                ]
            } else {
                config.extra_headers
            }) + seq![
                ("authorization"@, "Bearer "@ + config.api_key),
                ("content-type"@, "application/json"@),
                ("accept-encoding"@, "identity"@),
            ]
            &&& http.body == request::streaming(
                request::chat_body(request::api_model_name(provider_id, model_name), request),
            )
            &&& label == (if config.api_type == ApiType::KiloGateway {
                "Kilo Gateway"@
            } else if config.name is Some {
                config.name->0
            } else {
                "OpenAI-compatible provider"@
            })
        },
{
    let kilo = request::kilo_headers();
    let own = if config.api_type == ApiType::KiloGateway {
        kilo
    } else {
        config.extra_headers
    };
    let auth = seq![("authorization"@, "Bearer "@ + config.api_key)];
    let rest = seq![("content-type"@, "application/json"@), ("accept-encoding"@, "identity"@)];
    assert(own + auth + rest =~= own + seq![
        ("authorization"@, "Bearer "@ + config.api_key),
        ("content-type"@, "application/json"@),
        ("accept-encoding"@, "identity"@),
    ]);
}

/// Gemini is asked at `/chat/completions` under its address, with its key as the bearer
/// token, for the model as it is named.
pub proof fn law_gemini_is_asked(
    provider_id: Seq<char>,
    model_name: Seq<char>,
    request: RequestView,
    config: ProviderView,
    account_id: Option<Seq<char>>,
    version: Seq<char>,
    unix_seconds: int,
)
    requires
        config.api_type == ApiType::Gemini,
    ensures
        request::call_for(
            provider_id,
            model_name,
            request,
            config,
            account_id,
            version,
            unix_seconds,
        ) == Ok::<CallView, ErrorView>(
            CallView::Chat {
                http: HttpView {
                    url: request::endpoint(config.base_url, "/chat/completions"@),
                    headers: seq![
                        ("authorization"@, "Bearer "@ + config.api_key),
                        ("content-type"@, "application/json"@),
                        ("accept-encoding"@, "identity"@),
                    ],
                    body: request::streaming(request::chat_body(model_name, request)),
                },
                label: "Google Gemini"@,
            },
        ),
{
}

/// A provider with the Responses API is asked at `/v1/responses` under its address, and
/// ChatGPT at `/responses`, with the key as the bearer token and a JSON body; ChatGPT gets
/// the account and the headers that it expects besides, and no other provider does.
pub proof fn law_responses_go_to_the_provider(
    provider_id: Seq<char>,
    model_name: Seq<char>,
    request: RequestView,
    config: ProviderView,
    account_id: Option<Seq<char>>,
    version: Seq<char>,
    unix_seconds: int,
)
    requires
        config.api_type == ApiType::OpenAiResponses,
    ensures
        ({
            let is_chatgpt = provider_id == "openai-chatgpt"@;
            let start = seq![
                ("authorization"@, "Bearer "@ + config.api_key),
                ("content-type"@, "application/json"@),
            ];
            let account = if account_id is Some {
                seq![("ChatGPT-Account-Id"@, account_id->0)]
            } else {
                Seq::empty()
            };
            request::call_for(
                provider_id,
                model_name,
                request,
                config,
                account_id,
                version,
                unix_seconds,
            ) == Ok::<CallView, ErrorView>(
                CallView::Responses {
                    http: HttpView {
                        url: request::endpoint(
                            config.base_url,
                            if is_chatgpt {
                                "/responses"@
                            } else {
                                "/v1/responses"@
                            },
                        ),
                        headers: if is_chatgpt {
                            start + account + seq![
                                ("originator"@, "opencode"@),
                                ("session_id"@, "spacebot-"@ + text::signed_decimal(unix_seconds)),
                                ("user-agent"@, "spacebot/"@ + version),
                            ]
                        } else {
                            start
                        },
                        body: request::responses_body(
                            request::api_model_name(provider_id, model_name),
                            request,
                            is_chatgpt,
                        ),
                    },
                    label: request::label(provider_id, config),
                },
            )
        }),
{
    let start = seq![
        ("authorization"@, "Bearer "@ + config.api_key),
        ("content-type"@, "application/json"@),
    ];
    let none = Seq::<(Seq<char>, Seq<char>)>::empty();
    assert(start + none + none =~= start);
}

/// A provider with the Anthropic API is asked by that API.
pub proof fn law_anthropic_is_asked_by_its_own_api(
    provider_id: Seq<char>,
    model_name: Seq<char>,
    request: RequestView,
    config: ProviderView,
    account_id: Option<Seq<char>>,
    version: Seq<char>,
    unix_seconds: int,
)
    ensures
        request::call_for(
            provider_id,
            model_name,
            request,
            config,
            account_id,
            version,
            unix_seconds,
        ) == Ok::<CallView, ErrorView>(CallView::Anthropic) <==> config.api_type
            == ApiType::Anthropic,
{
}

/// A provider is called by its configured name, unless that is missing or blank.
pub proof fn law_providers_are_called_by_their_names(provider_id: Seq<char>, config: ProviderView)
    ensures
        config.name is Some && !text::is_blank(config.name->0) ==> request::label(
            provider_id,
            config,
        ) == config.name->0,
        config.name is None || text::is_blank(config.name->0) ==> request::label(
            provider_id,
            config,
        ) == request::display_name(provider_id),
{
}

// ---------------------------------------------------------------------------
// Which provider is asked
// ---------------------------------------------------------------------------

/// The name of a model is parted at its first slash: what stands before it is the provider
/// and what stands behind it is the model; without a slash the provider is Anthropic.
pub proof fn law_model_names_are_parted_at_the_first_slash(provider: Seq<char>, name: Seq<char>)
    requires
        !provider.contains('/'),
    ensures
        manager::model_parts(provider + seq!['/'] + name) == (provider, name),
        manager::model_parts(provider) == ("anthropic"@, provider),
{
    reveal_strlit("/");
    assert("/"@ =~= seq!['/']);
    text_laws::law_cutting_parts_at_the_first_separator(provider, name, '/');
}

/// A model of a provider that needs no token of its own is asked from the configured
/// provider under the lower-case form of its id, with everything that is configured, and
/// from none where none is configured.
pub proof fn law_configured_providers_are_asked(
    llm: LlmView,
    provider_id: Seq<char>,
    grant: Grant,
)
    requires
        provider_id != "anthropic"@,
        provider_id != "openai-chatgpt"@,
        provider_id != "github-copilot"@,
    ensures
        llm.providers.contains_key(resolve::lowercased(provider_id)) ==> model::provider_of(
            llm,
            provider_id,
            grant,
        ) == Ok::<ProviderView, LlmErrorView>(llm.providers[resolve::lowercased(provider_id)]),
        !llm.providers.contains_key(resolve::lowercased(provider_id)) ==> model::provider_of(
            llm,
            provider_id,
            grant,
        ) == Err::<ProviderView, LlmErrorView>(LlmErrorView::UnknownProvider(provider_id)),
{
}

/// A granted Anthropic token goes out as the key, at the configured address where Anthropic
/// is configured and at its own where it is not; without a token the configured provider is
/// asked as it is. Trouble with the token is reported.
pub proof fn law_anthropic_is_asked_with_its_token(llm: LlmView, grant: Grant)
    ensures
        ({
            let id = resolve::lowercased("anthropic"@);
            let asked = model::provider_of(llm, "anthropic"@, grant);
            &&& grant.token matches Err(trouble) ==> asked == Err::<ProviderView, LlmErrorView>(
                trouble@,
            )
            &&& grant.token matches Ok(Some(token)) ==> (asked matches Ok(provider)
                && provider.api_key == token@ && if llm.providers.contains_key(id) {
                provider == (ProviderView { api_key: token@, ..llm.providers[id] })
            } else {
                &&& provider.api_type == ApiType::Anthropic
                &&& provider.base_url == "https://api.anthropic.com"@
                &&& provider.extra_headers.len() == 0
                &&& !provider.use_proxy_api_key
            })
            &&& grant.token matches Ok(None) ==> if llm.providers.contains_key(id) {
                asked == Ok::<ProviderView, LlmErrorView>(llm.providers[id])
            } else {
                asked is Err
            }
        }),
{
}

/// ChatGPT is asked by the Responses API at its own address with the granted token, and
/// Copilot by chat completions at the address that its token names, or at the default one,
/// with the granted token; without a token neither is asked.
pub proof fn law_token_providers_are_asked_with_their_tokens(llm: LlmView, grant: Grant)
    ensures
        grant.token matches Ok(Some(token)) ==> (model::provider_of(
            llm,
            "openai-chatgpt"@,
            grant,
        ) matches Ok(provider) && provider == (ProviderView {
            api_type: ApiType::OpenAiResponses,
            base_url: "https://chatgpt.com/backend-api/codex"@,
            api_key: token@,
            name: None,
            use_proxy_api_key: false,
            extra_headers: Seq::empty(),
        })),
        grant.token matches Ok(Some(token)) ==> (model::provider_of(
            llm,
            "github-copilot"@,
            grant,
        ) matches Ok(provider) && provider == (ProviderView {
            api_type: ApiType::OpenAiChatCompletions,
            base_url: match grant.derived_base_url {
                Some(url) => url@,
                None => grant.default_base_url@,
            },
            api_key: token@,
            name: Some("GitHub Copilot"@),
            use_proxy_api_key: true,
            extra_headers: seq![
                ("user-agent"@, "spacebot/"@ + grant.version@),
                ("editor-version"@, "vscode/1.96.2"@),
                ("editor-plugin-version"@, "copilot-chat/0.26.7"@),
            ],
        })),
        !(grant.token matches Ok(Some(_))) ==> model::provider_of(
            llm,
            "openai-chatgpt"@,
            grant,
        ) is Err && model::provider_of(llm, "github-copilot"@, grant) is Err,
{
    reveal_strlit("anthropic");
    reveal_strlit("openai-chatgpt");
    reveal_strlit("github-copilot");
    assert("anthropic"@.len() == 9);
    assert("openai-chatgpt"@.len() == 14 && "openai-chatgpt"@[0] == 'o');
    assert("github-copilot"@.len() == 14 && "github-copilot"@[0] == 'g');
}

/// Known providers are shown under their names, and all others under their ids.
pub proof fn law_providers_are_shown_under_their_names(id: Seq<char>)
    ensures
        request::display_name("openai"@) == "OpenAI"@,
        request::display_name("openai-chatgpt"@) == "OpenAI ChatGPT"@,
        request::display_name("openrouter"@) == "OpenRouter"@,
        request::display_name("kilo"@) == "Kilo Gateway"@,
        request::display_name("zhipu"@) == "Z.AI (GLM)"@,
        request::display_name("groq"@) == "Groq"@,
        request::display_name("together"@) == "Together"@,
        request::display_name("fireworks"@) == "Fireworks"@,
        request::display_name("deepseek"@) == "DeepSeek"@,
        request::display_name("xai"@) == "xAI"@,
        request::display_name("mistral"@) == "Mistral"@,
        request::display_name("gemini"@) == "Google Gemini"@,
        request::display_name("moonshot"@) == "Moonshot"@,
        request::display_name("nvidia"@) == "NVIDIA"@,
        request::display_name("opencode-zen"@) == "OpenCode Zen"@,
        request::display_name("opencode-go"@) == "OpenCode Go"@,
        request::display_name("zai-coding-plan"@) == "Z.AI Coding Plan"@,
        !seq![
            "openai"@,
            "openai-chatgpt"@,
            "openrouter"@,
            "kilo"@,
            "zhipu"@,
            "groq"@,
            "together"@,
            "fireworks"@,
            "deepseek"@,
            "xai"@,
            "mistral"@,
            "gemini"@,
            "moonshot"@,
            "nvidia"@,
            "opencode-zen"@,
            "opencode-go"@,
            "zai-coding-plan"@,
        ].contains(id) ==> request::display_name(id) == id,
{
    reveal_strlit("openai");
    reveal_strlit("openai-chatgpt");
    reveal_strlit("openrouter");
    reveal_strlit("kilo");
    reveal_strlit("zhipu");
    reveal_strlit("groq");
    reveal_strlit("together");
    reveal_strlit("fireworks");
    reveal_strlit("deepseek");
    reveal_strlit("xai");
    reveal_strlit("mistral");
    reveal_strlit("gemini");
    reveal_strlit("moonshot");
    reveal_strlit("nvidia");
    reveal_strlit("opencode-zen");
    reveal_strlit("opencode-go");
    reveal_strlit("zai-coding-plan");
    assert("openai"@.len() == 6 && "openai"@[0] == 'o' && "openai"@[1] == 'p' && "openai"@[2]
        == 'e');
    assert("openai-chatgpt"@.len() == 14 && "openai-chatgpt"@[0] == 'o' && "openai-chatgpt"@[1] == 'p' && "openai-chatgpt"@[2]
        == 'e');
    assert("openrouter"@.len() == 10 && "openrouter"@[0] == 'o' && "openrouter"@[1] == 'p' && "openrouter"@[2]
        == 'e');
    assert("kilo"@.len() == 4 && "kilo"@[0] == 'k' && "kilo"@[1] == 'i' && "kilo"@[2]
        == 'l');
    assert("zhipu"@.len() == 5 && "zhipu"@[0] == 'z' && "zhipu"@[1] == 'h' && "zhipu"@[2]
        == 'i');
    assert("groq"@.len() == 4 && "groq"@[0] == 'g' && "groq"@[1] == 'r' && "groq"@[2]
        == 'o');
    assert("together"@.len() == 8 && "together"@[0] == 't' && "together"@[1] == 'o' && "together"@[2]
        == 'g');
    assert("fireworks"@.len() == 9 && "fireworks"@[0] == 'f' && "fireworks"@[1] == 'i' && "fireworks"@[2]
        == 'r');
    assert("deepseek"@.len() == 8 && "deepseek"@[0] == 'd' && "deepseek"@[1] == 'e' && "deepseek"@[2]
        == 'e');
    assert("xai"@.len() == 3 && "xai"@[0] == 'x' && "xai"@[1] == 'a' && "xai"@[2]
        == 'i');
    assert("mistral"@.len() == 7 && "mistral"@[0] == 'm' && "mistral"@[1] == 'i' && "mistral"@[2]
        == 's');
    assert("gemini"@.len() == 6 && "gemini"@[0] == 'g' && "gemini"@[1] == 'e' && "gemini"@[2]
        == 'm');
    assert("moonshot"@.len() == 8 && "moonshot"@[0] == 'm' && "moonshot"@[1] == 'o' && "moonshot"@[2]
        == 'o');
    assert("nvidia"@.len() == 6 && "nvidia"@[0] == 'n' && "nvidia"@[1] == 'v' && "nvidia"@[2]
        == 'i');
    assert("opencode-zen"@.len() == 12 && "opencode-zen"@[0] == 'o' && "opencode-zen"@[1] == 'p' && "opencode-zen"@[2]
        == 'e');
    assert("opencode-go"@.len() == 11 && "opencode-go"@[0] == 'o' && "opencode-go"@[1] == 'p' && "opencode-go"@[2]
        == 'e');
    assert("zai-coding-plan"@.len() == 15 && "zai-coding-plan"@[0] == 'z' && "zai-coding-plan"@[1] == 'a' && "zai-coding-plan"@[2]
        == 'i');
    let known = seq![
        "openai"@,
        "openai-chatgpt"@,
        "openrouter"@,
        "kilo"@,
        "zhipu"@,
        "groq"@,
        "together"@,
        "fireworks"@,
        "deepseek"@,
        "xai"@,
        "mistral"@,
        "gemini"@,
        "moonshot"@,
        "nvidia"@,
        "opencode-zen"@,
        "opencode-go"@,
        "zai-coding-plan"@,
    ];
    assert(known[0] == "openai"@);
    assert(known[1] == "openai-chatgpt"@);
    assert(known[2] == "openrouter"@);
    assert(known[3] == "kilo"@);
    assert(known[4] == "zhipu"@);
    assert(known[5] == "groq"@);
    assert(known[6] == "together"@);
    assert(known[7] == "fireworks"@);
    assert(known[8] == "deepseek"@);
    assert(known[9] == "xai"@);
    assert(known[10] == "mistral"@);
    assert(known[11] == "gemini"@);
    assert(known[12] == "moonshot"@);
    assert(known[13] == "nvidia"@);
    assert(known[14] == "opencode-zen"@);
    assert(known[15] == "opencode-go"@);
    assert(known[16] == "zai-coding-plan"@);
}

// ---------------------------------------------------------------------------
// Tokens
// ---------------------------------------------------------------------------

/// Credentials that have not expired give their token at once, and expired ones are to be
/// refreshed; without credentials there is no token. For Anthropic the configured key
/// stands in for missing credentials.
pub proof fn law_tokens_come_from_credentials(
    llm: LlmView,
    credentials: OAuthCredentials,
    expired: bool,
)
    ensures
        manager::token_step(Some(credentials), true) == TokenStepView::Refresh,
        manager::token_step(Some(credentials), false) == TokenStepView::Ready(
            Some(credentials.access_token@),
        ),
        manager::token_step(None, expired) == TokenStepView::Ready(None),
        manager::anthropic_step(llm, Some(credentials), expired) == manager::token_step(
            Some(credentials),
            expired,
        ),
        llm.providers.contains_key(resolve::lowercased("anthropic"@)) ==> manager::anthropic_step(
            llm,
            None,
            expired,
        ) == TokenStepView::Ready(
            Some(llm.providers[resolve::lowercased("anthropic"@)].api_key),
        ),
        !llm.providers.contains_key(resolve::lowercased("anthropic"@)) ==> manager::anthropic_step(
            llm,
            None,
            expired,
        ) == TokenStepView::Ready(None),
{
}

/// A refresh that succeeds gives the new token and keeps the new credentials; one that
/// fails gives the old token and keeps the old ones. New credentials are saved in the
/// directory of the instance, and nothing else is.
pub proof fn law_refreshed_tokens_replace_old_ones(
    old_ones: OAuthCredentials,
    new_ones: OAuthCredentials,
    dir: Option<String>,
)
    ensures
        manager::refreshed_token(Some(old_ones), Some(new_ones)) == Some(new_ones.access_token@),
        manager::refreshed_token(Some(old_ones), None) == Some(old_ones.access_token@),
        manager::refreshed_credentials(Some(old_ones), Some(new_ones)) == Some(new_ones),
        manager::refreshed_credentials(Some(old_ones), None) == Some(old_ones),
        manager::saved_in(dir, Some(old_ones), Some(new_ones)) == text::view_of(dir),
        manager::saved_in(dir, Some(old_ones), None) is None,
{
}

/// A kept Copilot token is used again for the personal access token that it was given for,
/// and for no other.
pub proof fn law_copilot_tokens_belong_to_one_personal_token(
    kept: CopilotToken,
    pat_hash: Seq<char>,
)
    ensures
        kept.pat_hash@ == pat_hash ==> manager::matching_token(Some(kept), pat_hash) == Some(
            kept.token@,
        ),
        kept.pat_hash@ != pat_hash ==> manager::matching_token(Some(kept), pat_hash) is None,
        manager::matching_token(None, pat_hash) is None,
{
}

// ---------------------------------------------------------------------------
// What is counted
// ---------------------------------------------------------------------------

/// A model's use is counted under its agent, its whole name, its process and the kind of
/// its worker, each as it was given.
pub proof fn law_use_is_counted_under_what_was_given(m: ModelView)
    ensures
        ({
            let labels = model::labels_of(m);
            &&& labels.model == m.provider + seq!['/'] + m.model_name
            &&& m.agent_id matches Some(agent) ==> labels.agent == agent
            &&& m.agent_id is None ==> labels.agent == "unknown"@
            &&& m.process_type matches Some(process) ==> labels.tier == process
            &&& m.process_type is None ==> labels.tier == "unknown"@
            &&& m.worker_type matches Some(kind) ==> labels.worker == kind
            &&& m.worker_type is None && m.process_type == Some("worker"@) ==> labels.worker
                == "unknown"@
            &&& m.worker_type is None && m.process_type != Some("worker"@) ==> labels.worker.len()
                == 0
        }),
{
    reveal_strlit("/");
    reveal_strlit("");
    reveal_strlit("unknown");
    reveal_strlit("worker");
    assert("/"@ =~= seq!['/']);
    assert("unknown"@.len() != "worker"@.len());
}

/// Tokens are counted where some went in or came out: those that went in, those that came
/// out, and those from the cache where there were some.
pub proof fn law_tokens_are_counted(usage: Usage)
    ensures
        usage.input_tokens == 0 && usage.output_tokens == 0 ==> model::counted_tokens(usage).len()
            == 0,
        usage.input_tokens > 0 || usage.output_tokens > 0 ==> {
            let counts = model::counted_tokens(usage);
            &&& counts.len() == (if usage.cached_input_tokens > 0 {
                3int
            } else {
                2int
            })
            &&& counts[0] == ("input"@, usage.input_tokens)
            &&& counts[1] == ("output"@, usage.output_tokens)
            &&& usage.cached_input_tokens > 0 ==> counts[2] == (
                "cached_input"@,
                usage.cached_input_tokens,
            )
        },
{
}

/// An error is counted as one of a rate limit, a timeout, an overflow or the provider by
/// what its text speaks of, in this order.
pub proof fn law_errors_are_counted_by_what_they_say(message: Seq<char>)
    ensures
        ({
            let kind = model::error_kind(ErrorView::Provider(message));
            let limited = text::has(message, "rate"@) || text::has(message, "429"@);
            let late = text::has(message, "timeout"@);
            let long = text::has(message, "context"@) || text::has(message, "too long"@);
            &&& limited <==> kind == ErrorKind::RateLimit
            &&& !limited && late <==> kind == ErrorKind::Timeout
            &&& !limited && !late && long <==> kind == ErrorKind::ContextOverflow
            &&& !limited && !late && !long <==> kind == ErrorKind::Provider
        }),
        model::error_kind(ErrorView::Response(message)) == ErrorKind::Other,
        model::kind_label(ErrorKind::RateLimit) == "rate_limit"@,
        model::kind_label(ErrorKind::Timeout) == "timeout"@,
        model::kind_label(ErrorKind::ContextOverflow) == "context_overflow"@,
        model::kind_label(ErrorKind::Provider) == "provider_error"@,
        model::kind_label(ErrorKind::Other) == "other"@,
{
}

/// The personal token of Copilot is the key of its provider, where that is not empty.
pub proof fn law_the_personal_token_is_the_key_of_copilot(llm: LlmView)
    ensures
        ({
            let id = resolve::lowercased("github-copilot"@);
            manager::personal_token(llm) == (if llm.providers.contains_key(id)
                && llm.providers[id].api_key.len() > 0 {
                Some(llm.providers[id].api_key)
            } else {
                None
            })
        }),
{
}

} // verus!
