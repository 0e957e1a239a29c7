//! Providers of language models and the credentials for them.
use crate::string_map::StringMap;
use crate::text;
use vstd::prelude::*;

verus! {

/// API types supported by LLM providers.
#[derive(Debug, Clone, Copy, PartialEq, Eq, Structural)]
pub enum ApiType {
    /// OpenAI Chat Completions API (`/v1/chat/completions`)
    OpenAiCompletions,
    /// OpenAI-compatible Chat Completions API (`/chat/completions`)
    OpenAiChatCompletions,
    /// Kilo Gateway API (`/chat/completions`) with required gateway headers
    KiloGateway,
    /// OpenAI Responses API (`/v1/responses`)
    OpenAiResponses,
    /// Anthropic Messages API (`/v1/messages`)
    Anthropic,
    /// Google Gemini API, through its OpenAI-compatible endpoint
    Gemini,
}

/// Configuration for a single LLM provider.
#[derive(PartialEq, Eq)]
pub struct ProviderConfig {
    pub api_type: ApiType,
    pub base_url: String,
    pub api_key: String,
    pub name: Option<String>,
    /// Whether the key goes out as a proxy's `api-key`. Set where the key originates
    /// from `ANTHROPIC_AUTH_TOKEN`.
    pub use_proxy_api_key: bool,
    /// Additional HTTP headers included in requests to this provider.
    pub extra_headers: Vec<(String, String)>,
}

/// LLM provider credentials (instance-level).
#[derive(PartialEq, Eq)]
pub struct LlmConfig {
    pub anthropic_key: Option<String>,
    pub openai_key: Option<String>,
    pub openrouter_key: Option<String>,
    pub kilo_key: Option<String>,
    pub zhipu_key: Option<String>,
    pub groq_key: Option<String>,
    pub together_key: Option<String>,
    pub fireworks_key: Option<String>,
    pub deepseek_key: Option<String>,
    pub xai_key: Option<String>,
    pub mistral_key: Option<String>,
    pub gemini_key: Option<String>,
    pub ollama_key: Option<String>,
    pub ollama_base_url: Option<String>,
    pub opencode_zen_key: Option<String>,
    pub opencode_go_key: Option<String>,
    pub nvidia_key: Option<String>,
    pub minimax_key: Option<String>,
    pub minimax_cn_key: Option<String>,
    pub moonshot_key: Option<String>,
    pub zai_coding_plan_key: Option<String>,
    pub github_copilot_key: Option<String>,
    pub providers: StringMap<ProviderConfig>,
}

/// The view of a list of headers.
pub open spec fn header_views(headers: Seq<(String, String)>) -> Seq<(Seq<char>, Seq<char>)> {
    headers.map_values(|h: (String, String)| (h.0@, h.1@))
}

/// The view of a [`ProviderConfig`].
#[verifier::ext_equal]
pub struct ProviderView {
    pub api_type: ApiType,
    pub base_url: Seq<char>,
    pub api_key: Seq<char>,
    pub name: Option<Seq<char>>,
    pub use_proxy_api_key: bool,
    pub extra_headers: Seq<(Seq<char>, Seq<char>)>,
}

impl View for ProviderConfig {
    type V = ProviderView;

    open spec fn view(&self) -> ProviderView {
        ProviderView {
            api_type: self.api_type,
            base_url: self.base_url@,
            api_key: self.api_key@,
            name: text::view_of(self.name),
            use_proxy_api_key: self.use_proxy_api_key,
            extra_headers: header_views(self.extra_headers@),
        }
    }
}

/// The views of the providers of a map.
pub open spec fn provider_views(map: Map<Seq<char>, ProviderConfig>) -> Map<
    Seq<char>,
    ProviderView,
> {
    map.map_values(|p: ProviderConfig| p@)
}

/// The view of an [`LlmConfig`].
#[verifier::ext_equal]
pub struct LlmView {
    pub anthropic_key: Option<Seq<char>>,
    pub openai_key: Option<Seq<char>>,
    pub openrouter_key: Option<Seq<char>>,
    pub kilo_key: Option<Seq<char>>,
    pub zhipu_key: Option<Seq<char>>,
    pub groq_key: Option<Seq<char>>,
    pub together_key: Option<Seq<char>>,
    pub fireworks_key: Option<Seq<char>>,
    pub deepseek_key: Option<Seq<char>>,
    pub xai_key: Option<Seq<char>>,
    pub mistral_key: Option<Seq<char>>,
    pub gemini_key: Option<Seq<char>>,
    pub ollama_key: Option<Seq<char>>,
    pub ollama_base_url: Option<Seq<char>>,
    pub opencode_zen_key: Option<Seq<char>>,
    pub opencode_go_key: Option<Seq<char>>,
    pub nvidia_key: Option<Seq<char>>,
    pub minimax_key: Option<Seq<char>>,
    pub minimax_cn_key: Option<Seq<char>>,
    pub moonshot_key: Option<Seq<char>>,
    pub zai_coding_plan_key: Option<Seq<char>>,
    pub github_copilot_key: Option<Seq<char>>,
    pub providers: Map<Seq<char>, ProviderView>,
}

impl View for LlmConfig {
    type V = LlmView;

    open spec fn view(&self) -> LlmView {
        LlmView {
            anthropic_key: text::view_of(self.anthropic_key),
            openai_key: text::view_of(self.openai_key),
            openrouter_key: text::view_of(self.openrouter_key),
            kilo_key: text::view_of(self.kilo_key),
            zhipu_key: text::view_of(self.zhipu_key),
            groq_key: text::view_of(self.groq_key),
            together_key: text::view_of(self.together_key),
            fireworks_key: text::view_of(self.fireworks_key),
            deepseek_key: text::view_of(self.deepseek_key),
            xai_key: text::view_of(self.xai_key),
            mistral_key: text::view_of(self.mistral_key),
            gemini_key: text::view_of(self.gemini_key),
            ollama_key: text::view_of(self.ollama_key),
            ollama_base_url: text::view_of(self.ollama_base_url),
            opencode_zen_key: text::view_of(self.opencode_zen_key),
            opencode_go_key: text::view_of(self.opencode_go_key),
            nvidia_key: text::view_of(self.nvidia_key),
            minimax_key: text::view_of(self.minimax_key),
            minimax_cn_key: text::view_of(self.minimax_cn_key),
            moonshot_key: text::view_of(self.moonshot_key),
            zai_coding_plan_key: text::view_of(self.zai_coding_plan_key),
            github_copilot_key: text::view_of(self.github_copilot_key),
            providers: provider_views(self.providers@),
        }
    }
}

/// The API type of a name in the configuration file.
pub open spec fn api_type_named(name: Seq<char>) -> Option<ApiType> {
    if name == "openai_completions"@ {
        Some(ApiType::OpenAiCompletions)
    } else if name == "openai_chat_completions"@ {
        Some(ApiType::OpenAiChatCompletions)
    } else if name == "kilo_gateway"@ {
        Some(ApiType::KiloGateway)
    } else if name == "openai_responses"@ {
        Some(ApiType::OpenAiResponses)
    } else if name == "anthropic"@ {
        Some(ApiType::Anthropic)
    } else if name == "gemini"@ {
        Some(ApiType::Gemini)
    } else {
        None
    }
}

impl ApiType {
    /// The API type of a name in the configuration file.
    pub fn from_name(name: &str) -> (api_type: Option<ApiType>)
        ensures
            api_type == api_type_named(name@),
    {
        if text::same(name, "openai_completions") {
            Some(ApiType::OpenAiCompletions)
        } else if text::same(name, "openai_chat_completions") {
            Some(ApiType::OpenAiChatCompletions)
        } else if text::same(name, "kilo_gateway") {
            Some(ApiType::KiloGateway)
        } else if text::same(name, "openai_responses") {
            Some(ApiType::OpenAiResponses)
        } else if text::same(name, "anthropic") {
            Some(ApiType::Anthropic)
        } else if text::same(name, "gemini") {
            Some(ApiType::Gemini)
        } else {
            None
        }
    }
}

/// The same headers again.
pub fn duplicate_headers(headers: &Vec<(String, String)>) -> (copy: Vec<(String, String)>)
    ensures
        copy@ == headers@,
{
    let mut copy: Vec<(String, String)> = Vec::new();
    let mut i: usize = 0;
    while i < headers.len()
        invariant
            i <= headers@.len(),
            copy@ == headers@.subrange(0, i as int),
        decreases headers@.len() - i,
    {
        let pair = (headers[i].0.clone(), headers[i].1.clone());
        proof {
            assert(headers@.subrange(0, i as int + 1) =~= headers@.subrange(0, i as int).push(
                pair,
            ));
        }
        copy.push(pair);
        i += 1;
    }
    proof {
        assert(headers@.subrange(0, headers@.len() as int) =~= headers@);
    }
    copy
}

impl ProviderConfig {
    /// The same provider again.
    pub fn duplicate(&self) -> (copy: ProviderConfig)
        ensures
            copy@ == self@,
    {
        ProviderConfig {
            api_type: self.api_type,
            base_url: self.base_url.clone(),
            api_key: self.api_key.clone(),
            name: self.name.clone(),
            use_proxy_api_key: self.use_proxy_api_key,
            extra_headers: duplicate_headers(&self.extra_headers),
        }
    }
}

impl LlmView {
    /// Some credential or provider is configured.
    pub open spec fn has_any(self) -> bool {
        ||| self.anthropic_key is Some
        ||| self.openai_key is Some
        ||| self.openrouter_key is Some
        ||| self.kilo_key is Some
        ||| self.zhipu_key is Some
        ||| self.groq_key is Some
        ||| self.together_key is Some
        ||| self.fireworks_key is Some
        ||| self.deepseek_key is Some
        ||| self.xai_key is Some
        ||| self.mistral_key is Some
        ||| self.gemini_key is Some
        ||| self.ollama_key is Some
        ||| self.ollama_base_url is Some
        ||| self.opencode_zen_key is Some
        ||| self.opencode_go_key is Some
        ||| self.nvidia_key is Some
        ||| self.minimax_key is Some
        ||| self.minimax_cn_key is Some
        ||| self.moonshot_key is Some
        ||| self.zai_coding_plan_key is Some
        ||| self.github_copilot_key is Some
        ||| self.providers != Map::<Seq<char>, ProviderView>::empty()
    }
}

impl LlmConfig {
    /// Check if any provider configuration is set.
    pub fn has_any_key(&self) -> (yes: bool)
        ensures
            yes == self@.has_any(),
    {
        let no_providers = self.providers.is_empty();
        proof {
            if no_providers {
                assert(self@.providers =~= Map::<Seq<char>, ProviderView>::empty());
            } else if self@.providers == Map::<Seq<char>, ProviderView>::empty() {
                assert forall|k: Seq<char>| !self.providers@.contains_key(k) by {
                    assert(!self@.providers.contains_key(k));
                }
                assert(self.providers@ =~= Map::<Seq<char>, ProviderConfig>::empty());
            }
        }
        self.anthropic_key.is_some() || self.openai_key.is_some() || self.openrouter_key.is_some()
            || self.kilo_key.is_some() || self.zhipu_key.is_some() || self.groq_key.is_some()
            || self.together_key.is_some() || self.fireworks_key.is_some()
            || self.deepseek_key.is_some() || self.xai_key.is_some() || self.mistral_key.is_some()
            || self.gemini_key.is_some() || self.ollama_key.is_some()
            || self.ollama_base_url.is_some() || self.opencode_zen_key.is_some()
            || self.opencode_go_key.is_some() || self.nvidia_key.is_some()
            || self.minimax_key.is_some() || self.minimax_cn_key.is_some()
            || self.moonshot_key.is_some() || self.zai_coding_plan_key.is_some()
            || self.github_copilot_key.is_some() || !no_providers
    }
}

/// Each kind of API has a name in the configuration file, and no other name stands for one.
pub proof fn law_kinds_of_api_have_names(name: Seq<char>)
    ensures
        api_type_named("openai_completions"@) == Some(ApiType::OpenAiCompletions),
        api_type_named("openai_chat_completions"@) == Some(ApiType::OpenAiChatCompletions),
        api_type_named("kilo_gateway"@) == Some(ApiType::KiloGateway),
        api_type_named("openai_responses"@) == Some(ApiType::OpenAiResponses),
        api_type_named("anthropic"@) == Some(ApiType::Anthropic),
        api_type_named("gemini"@) == Some(ApiType::Gemini),
        api_type_named(name) is Some <==> seq![
            "openai_completions"@,
            "openai_chat_completions"@,
            "kilo_gateway"@,
            "openai_responses"@,
            "anthropic"@,
            "gemini"@,
        ].contains(name),
{
    reveal_strlit("openai_completions");
    reveal_strlit("openai_chat_completions");
    reveal_strlit("kilo_gateway");
    reveal_strlit("openai_responses");
    reveal_strlit("anthropic");
    reveal_strlit("gemini");
    assert("openai_completions"@.len() == 18);
    assert("openai_chat_completions"@.len() == 23);
    assert("kilo_gateway"@.len() == 12);
    assert("openai_responses"@.len() == 16);
    assert("anthropic"@.len() == 9);
    assert("gemini"@.len() == 6);
    let known = seq![
        "openai_completions"@,
        "openai_chat_completions"@,
        "kilo_gateway"@,
        "openai_responses"@,
        "anthropic"@,
        "gemini"@,
    ];
    assert(known[0] == "openai_completions"@);
    assert(known[1] == "openai_chat_completions"@);
    assert(known[2] == "kilo_gateway"@);
    assert(known[3] == "openai_responses"@);
    assert(known[4] == "anthropic"@);
    assert(known[5] == "gemini"@);
}

} // verus!
