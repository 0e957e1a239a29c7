//! The providers that are known by name: their endpoints, and which of them serves
//! an agent by default.
use crate::config::provider;
use crate::config::provider::{ApiType, ProviderConfig, ProviderView};
use crate::config::toml_schema::TomlRoutingConfig;
use crate::llm::routing;
use crate::llm::routing::{RoutingConfig, RoutingView};
use crate::string_map;
use crate::string_map::StringMap;
use crate::text;
use vstd::prelude::*;

verus! {

/// The headers that tell OpenRouter which application is calling: both the older
/// and the newer names.
pub open spec fn openrouter_headers() -> Seq<(Seq<char>, Seq<char>)> {
    seq![
        ("HTTP-Referer"@, "https://spacebot.sh/"@),
        ("X-Title"@, "Spacebot"@),
        ("X-OpenRouter-Title"@, "Spacebot"@),
        ("X-OpenRouter-Categories"@, "cloud-agent,cli-agent"@),
    ]
}

/// How a provider with a fixed address is reached: its protocol, its address and its
/// display name.
pub open spec fn known_provider(id: Seq<char>) -> Option<
    (ApiType, Seq<char>, Option<Seq<char>>),
> {
    if id == "anthropic"@ {
        Some((ApiType::Anthropic, "https://api.anthropic.com"@, None))
    } else if id == "openai"@ {
        Some((ApiType::OpenAiCompletions, "https://api.openai.com"@, None))
    } else if id == "openrouter"@ {
        Some((ApiType::OpenAiCompletions, "https://openrouter.ai/api"@, None))
    } else if id == "kilo"@ {
        Some((ApiType::KiloGateway, "https://api.kilo.ai/api/gateway"@, Some("Kilo Gateway"@)))
    } else if id == "zhipu"@ {
        Some((ApiType::OpenAiChatCompletions, "https://api.z.ai/api/paas/v4"@, Some("Z.AI (GLM)"@)))
    } else if id == "groq"@ {
        Some((ApiType::OpenAiCompletions, "https://api.groq.com/openai"@, None))
    } else if id == "together"@ {
        Some((ApiType::OpenAiCompletions, "https://api.together.xyz"@, None))
    } else if id == "fireworks"@ {
        Some((ApiType::OpenAiCompletions, "https://api.fireworks.ai/inference"@, None))
    } else if id == "deepseek"@ {
        Some((ApiType::OpenAiCompletions, "https://api.deepseek.com"@, None))
    } else if id == "xai"@ {
        Some((ApiType::OpenAiCompletions, "https://api.x.ai"@, None))
    } else if id == "mistral"@ {
        Some((ApiType::OpenAiCompletions, "https://api.mistral.ai"@, None))
    } else if id == "gemini"@ {
        Some((ApiType::Gemini, "https://generativelanguage.googleapis.com/v1beta/openai"@, None))
    } else if id == "opencode-zen"@ {
        Some((ApiType::OpenAiCompletions, "https://opencode.ai/zen"@, None))
    } else if id == "opencode-go"@ {
        Some((ApiType::OpenAiCompletions, "https://opencode.ai/zen/go"@, None))
    } else if id == "nvidia"@ {
        Some((ApiType::OpenAiCompletions, "https://integrate.api.nvidia.com"@, None))
    } else if id == "minimax"@ {
        Some((ApiType::Anthropic, "https://api.minimax.io/anthropic"@, None))
    } else if id == "minimax-cn"@ {
        Some((ApiType::Anthropic, "https://api.minimaxi.com/anthropic"@, None))
    } else if id == "moonshot"@ {
        Some((ApiType::OpenAiCompletions, "https://api.moonshot.ai"@, None))
    } else if id == "zai-coding-plan"@ {
        Some(
            (
                ApiType::OpenAiChatCompletions,
                "https://api.z.ai/api/coding/paas/v4"@,
                Some("Z.AI Coding Plan"@),
            ),
        )
    } else {
        None
    }
}

/// The provider that a known id stands for, with the given key. Ollama takes the
/// key as its address. GitHub Copilot has no fixed configuration: its address
/// comes with its token.
pub open spec fn default_provider(id: Seq<char>, api_key: Seq<char>) -> Option<ProviderView> {
    if id == "ollama"@ {
        Some(
            ProviderView {
                api_type: ApiType::OpenAiCompletions,
                base_url: api_key,
                api_key: Seq::empty(),
                name: None,
                use_proxy_api_key: false,
                extra_headers: Seq::empty(),
            },
        )
    } else {
        match known_provider(id) {
            Some((api_type, base_url, name)) => Some(
                ProviderView {
                    api_type,
                    base_url,
                    api_key,
                    name,
                    use_proxy_api_key: false,
                    extra_headers: if id == "openrouter"@ {
                        openrouter_headers()
                    } else {
                        Seq::empty()
                    },
                },
            ),
            None => None,
        }
    }
}

/// The headers that tell OpenRouter which application is calling.
pub fn openrouter_extra_headers() -> (headers: Vec<(String, String)>)
    ensures
        provider::header_views(headers@) == openrouter_headers(),
{
    let mut headers: Vec<(String, String)> = Vec::new();
    headers.push(("HTTP-Referer".to_owned(), "https://spacebot.sh/".to_owned()));
    headers.push(("X-Title".to_owned(), "Spacebot".to_owned()));
    headers.push(("X-OpenRouter-Title".to_owned(), "Spacebot".to_owned()));
    headers.push(("X-OpenRouter-Categories".to_owned(), "cloud-agent,cli-agent".to_owned()));
    proof {
        assert(provider::header_views(headers@) =~= openrouter_headers());
    }
    headers
}

/// How a provider with a fixed address is reached.
pub fn known_provider_parts(provider_id: &str) -> (parts: Option<
    (ApiType, &'static str, Option<&'static str>),
>)
    ensures
        match parts {
            Some((api_type, base_url, name)) => known_provider(provider_id@) == Some(
                (api_type, base_url@, crate::json::str_view(name)),
            ),
            None => known_provider(provider_id@) is None,
        },
{
    if text::same(provider_id, "anthropic") {
        Some((ApiType::Anthropic, "https://api.anthropic.com", None))
    } else if text::same(provider_id, "openai") {
        Some((ApiType::OpenAiCompletions, "https://api.openai.com", None))
    } else if text::same(provider_id, "openrouter") {
        Some((ApiType::OpenAiCompletions, "https://openrouter.ai/api", None))
    } else if text::same(provider_id, "kilo") {
        Some((ApiType::KiloGateway, "https://api.kilo.ai/api/gateway", Some("Kilo Gateway")))
    } else if text::same(provider_id, "zhipu") {
        Some((ApiType::OpenAiChatCompletions, "https://api.z.ai/api/paas/v4", Some("Z.AI (GLM)")))
    } else if text::same(provider_id, "groq") {
        Some((ApiType::OpenAiCompletions, "https://api.groq.com/openai", None))
    } else if text::same(provider_id, "together") {
        Some((ApiType::OpenAiCompletions, "https://api.together.xyz", None))
    } else if text::same(provider_id, "fireworks") {
        Some((ApiType::OpenAiCompletions, "https://api.fireworks.ai/inference", None))
    } else if text::same(provider_id, "deepseek") {
        Some((ApiType::OpenAiCompletions, "https://api.deepseek.com", None))
    } else if text::same(provider_id, "xai") {
        Some((ApiType::OpenAiCompletions, "https://api.x.ai", None))
    } else if text::same(provider_id, "mistral") {
        Some((ApiType::OpenAiCompletions, "https://api.mistral.ai", None))
    } else if text::same(provider_id, "gemini") {
        Some((ApiType::Gemini, "https://generativelanguage.googleapis.com/v1beta/openai", None))
    } else if text::same(provider_id, "opencode-zen") {
        Some((ApiType::OpenAiCompletions, "https://opencode.ai/zen", None))
    } else if text::same(provider_id, "opencode-go") {
        Some((ApiType::OpenAiCompletions, "https://opencode.ai/zen/go", None))
    } else if text::same(provider_id, "nvidia") {
        Some((ApiType::OpenAiCompletions, "https://integrate.api.nvidia.com", None))
    } else if text::same(provider_id, "minimax") {
        Some((ApiType::Anthropic, "https://api.minimax.io/anthropic", None))
    } else if text::same(provider_id, "minimax-cn") {
        Some((ApiType::Anthropic, "https://api.minimaxi.com/anthropic", None))
    } else if text::same(provider_id, "moonshot") {
        Some((ApiType::OpenAiCompletions, "https://api.moonshot.ai", None))
    } else if text::same(provider_id, "zai-coding-plan") {
        Some(
            (
                ApiType::OpenAiChatCompletions,
                "https://api.z.ai/api/coding/paas/v4",
                Some("Z.AI Coding Plan"),
            ),
        )
    } else {
        None
    }
}

/// The provider that a known id stands for, with the given key.
pub fn default_provider_config(provider_id: &str, api_key: String) -> (provider: Option<
    ProviderConfig,
>)
    ensures
        match provider {
            Some(p) => default_provider(provider_id@, api_key@) == Some(p@),
            None => default_provider(provider_id@, api_key@) is None,
        },
{
    if text::same(provider_id, "ollama") {
        let provider = ProviderConfig {
            api_type: ApiType::OpenAiCompletions,
            base_url: api_key,
            api_key: String::new(),
            name: None,
            use_proxy_api_key: false,
            extra_headers: Vec::new(),
        };
        proof {
            assert(provider@.extra_headers =~= Seq::empty());
        }
        return Some(provider);
    }
    let (api_type, base_url, name) = match known_provider_parts(provider_id) {
        Some(parts) => parts,
        None => {
            return None;
        },
    };
    let extra_headers = if text::same(provider_id, "openrouter") {
        openrouter_extra_headers()
    } else {
        Vec::new()
    };
    proof {
        if provider_id@ != "openrouter"@ {
            assert(provider::header_views(extra_headers@) =~= Seq::empty());
        }
    }
    Some(
        ProviderConfig {
            api_type,
            base_url: base_url.to_owned(),
            api_key,
            name: match name {
                Some(n) => Some(n.to_owned()),
                None => None,
            },
            use_proxy_api_key: false,
            extra_headers,
        },
    )
}

/// The providers with one more, where its id is not taken and it is configured.
pub open spec fn with_provider(
    providers: Map<Seq<char>, ProviderView>,
    id: Seq<char>,
    provider: Option<ProviderView>,
) -> Map<Seq<char>, ProviderView> {
    match provider {
        Some(p) => if providers.contains_key(id) {
            providers
        } else {
            providers.insert(id, p)
        },
        None => providers,
    }
}

/// Adds a provider, unless its id is taken or it is not configured.
pub fn add_provider(
    providers: &mut StringMap<ProviderConfig>,
    provider_id: &str,
    provider: Option<ProviderConfig>,
)
    ensures
        provider::provider_views(final(providers)@) == with_provider(
            provider::provider_views(old(providers)@),
            provider_id@,
            match provider {
                Some(p) => Some(p@),
                None => None,
            },
        ),
{
    if let Some(p) = provider {
        if !providers.contains_key(provider_id) {
            let ghost before = providers@;
            providers.insert(provider_id.to_owned(), p);
            proof {
                assert(provider::provider_views(providers@) =~= provider::provider_views(
                    before,
                ).insert(provider_id@, p@));
            }
        }
    }
}

/// The provider that a key in the configuration stands for.
pub open spec fn shorthand(
    key: Option<Seq<char>>,
    api_type: ApiType,
    base_url: Seq<char>,
    name: Option<Seq<char>>,
    use_proxy_api_key: bool,
) -> Option<ProviderView> {
    match key {
        Some(api_key) => Some(
            ProviderView {
                api_type,
                base_url,
                api_key,
                name,
                use_proxy_api_key,
                extra_headers: Seq::empty(),
            },
        ),
        None => None,
    }
}

/// Adds the provider that a key in the configuration stands for, unless its id is
/// taken or there is no key.
pub fn add_shorthand_provider(
    providers: &mut StringMap<ProviderConfig>,
    provider_id: &str,
    key: Option<String>,
    api_type: ApiType,
    base_url: &str,
    name: Option<&str>,
    use_proxy_api_key: bool,
)
    ensures
        provider::provider_views(final(providers)@) == with_provider(
            provider::provider_views(old(providers)@),
            provider_id@,
            shorthand(
                text::view_of(key),
                api_type,
                base_url@,
                crate::json::str_view(name),
                use_proxy_api_key,
            ),
        ),
{
    let shown = match name {
        Some(n) => Some(n.to_owned()),
        None => None,
    };
    let provider = match key {
        Some(api_key) => {
            let p = ProviderConfig {
                api_type,
                base_url: base_url.to_owned(),
                api_key,
                name: shown,
                use_proxy_api_key,
                extra_headers: Vec::new(),
            };
            proof {
                assert(p@.extra_headers =~= Seq::empty());
            }
            Some(p)
        },
        None => None,
    };
    add_provider(providers, provider_id, provider);
}

/// A provider that is configured is never replaced by a shorthand key.
pub proof fn law_configured_provider_is_kept(
    providers: Map<Seq<char>, ProviderView>,
    id: Seq<char>,
    provider: Option<ProviderView>,
    kept: Seq<char>,
)
    requires
        providers.contains_key(kept),
    ensures
        with_provider(providers, id, provider).contains_key(kept),
        with_provider(providers, id, provider)[kept] == providers[kept],
{
}

// ---------------------------------------------------------------------------
// Default routing
// ---------------------------------------------------------------------------

/// The known providers in the order in which routing prefers them.
pub open spec fn priority() -> Seq<Seq<char>> {
    seq![
        "anthropic"@,
        "openrouter"@,
        "kilo"@,
        "openai"@,
        "openai-chatgpt"@,
        "deepseek"@,
        "gemini"@,
        "xai"@,
        "groq"@,
        "together"@,
        "fireworks"@,
        "mistral"@,
        "zhipu"@,
        "ollama"@,
        "opencode-zen"@,
        "opencode-go"@,
        "nvidia"@,
        "minimax"@,
        "minimax-cn"@,
        "moonshot"@,
        "zai-coding-plan"@,
        "github-copilot"@,
    ]
}

/// The first of the names that is a configured provider.
pub open spec fn first_configured<V>(names: Seq<Seq<char>>, providers: Map<Seq<char>, V>) -> Option<
    Seq<char>,
>
    decreases names.len(),
{
    if names.len() == 0 {
        None
    } else {
        match first_configured(names.drop_last(), providers) {
            Some(name) => Some(name),
            None => if providers.contains_key(names.last()) {
                Some(names.last())
            } else {
                None
            },
        }
    }
}

/// A provider that routing may be taken from: the preferred one of the known
/// providers that are configured, and any configured one where none is known.
pub open spec fn may_route<V>(providers: Map<Seq<char>, V>, name: Seq<char>) -> bool {
    match first_configured(priority(), providers) {
        Some(known) => name == known,
        None => providers.contains_key(name),
    }
}

/// The provider that routing is taken from, where any is configured.
pub fn routing_provider(providers: &StringMap<ProviderConfig>) -> (name: Option<String>)
    ensures
        match name {
            Some(n) => may_route(providers@, n@),
            None => providers@ == Map::<Seq<char>, ProviderConfig>::empty(),
        },
{
    let names: [&str; 22] = [
        "anthropic",
        "openrouter",
        "kilo",
        "openai",
        "openai-chatgpt",
        "deepseek",
        "gemini",
        "xai",
        "groq",
        "together",
        "fireworks",
        "mistral",
        "zhipu",
        "ollama",
        "opencode-zen",
        "opencode-go",
        "nvidia",
        "minimax",
        "minimax-cn",
        "moonshot",
        "zai-coding-plan",
        "github-copilot",
    ];
    let ghost all = priority();
    proof {
        assert(names@.map_values(|n: &str| n@) =~= all);
        assert(all.subrange(0, 0) =~= Seq::<Seq<char>>::empty());
    }
    let mut i: usize = 0;
    while i < 22
        invariant
            i <= 22,
            all == priority(),
            names@.map_values(|n: &str| n@) == all,
            first_configured(all.subrange(0, i as int), providers@) is None,
        decreases 22 - i,
    {
        let name = names[i];
        proof {
            let next = all.subrange(0, i as int + 1);
            assert(next.drop_last() =~= all.subrange(0, i as int));
            assert(next.last() == all[i as int]);
            assert(names@.map_values(|n: &str| n@)[i as int] == name@);
        }
        if providers.contains_key(name) {
            proof {
                lemma_first_configured_stays(all, providers@, i as int + 1);
            }
            return Some(name.to_owned());
        }
        i += 1;
    }
    proof {
        assert(all.subrange(0, 22) =~= all);
    }
    match providers.first_key() {
        Some(name) => Some(name.clone()),
        None => None,
    }
}

/// The first configured name decides; later ones change nothing.
proof fn lemma_first_configured_stays<V>(
    names: Seq<Seq<char>>,
    providers: Map<Seq<char>, V>,
    n: int,
)
    requires
        0 <= n <= names.len(),
        first_configured(names.subrange(0, n), providers) is Some,
    ensures
        first_configured(names, providers) == first_configured(names.subrange(0, n), providers),
    decreases names.len(),
{
    if n == names.len() {
        assert(names.subrange(0, n) =~= names);
    } else {
        assert(names.drop_last().subrange(0, n) =~= names.subrange(0, n));
        lemma_first_configured_stays(names.drop_last(), providers, n);
    }
}

/// Which provider routing is taken from depends on the ids of the providers alone.
pub proof fn lemma_may_route_over_views(
    providers: Map<Seq<char>, ProviderConfig>,
    name: Seq<char>,
)
    ensures
        may_route(provider::provider_views(providers), name) == may_route(providers, name),
{
    lemma_first_configured_over_views(priority(), providers);
}

/// The first configured name depends on the ids of the providers alone.
proof fn lemma_first_configured_over_views(
    names: Seq<Seq<char>>,
    providers: Map<Seq<char>, ProviderConfig>,
)
    ensures
        first_configured(names, provider::provider_views(providers)) == first_configured(
            names,
            providers,
        ),
    decreases names.len(),
{
    if names.len() > 0 {
        lemma_first_configured_over_views(names.drop_last(), providers);
    }
}

/// The function gives this routing for the provider's name.
pub open spec fn gives<F: Fn(&str) -> RoutingConfig>(
    defaults_for_provider: F,
    name: &str,
    routing: RoutingConfig,
) -> bool {
    call_ensures(defaults_for_provider, (name,), routing)
}

/// The routing is what the function gives for a provider that routing may be taken
/// from.
pub open spec fn is_default_routing<V, F: Fn(&str) -> RoutingConfig>(
    providers: Map<Seq<char>, V>,
    defaults_for_provider: F,
    routing: RoutingConfig,
) -> bool {
    exists|name: &str|
        may_route(providers, name@) && #[trigger] gives(defaults_for_provider, name, routing)
}

/// Takes the routing that `defaults_for_provider` gives for the provider that
/// routing is taken from.
pub fn infer_routing_from_providers<F: Fn(&str) -> RoutingConfig>(
    providers: &StringMap<ProviderConfig>,
    defaults_for_provider: &F,
) -> (routing: Option<RoutingConfig>)
    requires
        forall|name: &str| #[trigger] call_requires(*defaults_for_provider, (name,)),
    ensures
        match routing {
            Some(r) => is_default_routing(providers@, *defaults_for_provider, r),
            None => providers@ == Map::<Seq<char>, ProviderConfig>::empty(),
        },
{
    match routing_provider(providers) {
        Some(name) => {
            let id = name.as_str();
            let routing = defaults_for_provider(id);
            assert(may_route(providers@, id@) && gives(*defaults_for_provider, id, routing));
            Some(routing)
        },
        None => None,
    }
}

/// The text where there is one, else the other.
pub open spec fn text_or(value: Option<String>, other: Seq<char>) -> Seq<char> {
    match value {
        Some(v) => v@,
        None => other,
    }
}

/// Routing from a file over a base: what the file does not set comes from the base,
/// task overrides of both apply, the file's first, and a set of fallbacks replaces
/// the base's.
pub open spec fn routing_over(toml: TomlRoutingConfig, base: RoutingView) -> RoutingView {
    RoutingView {
        channel: text_or(toml.channel, base.channel),
        branch: text_or(toml.branch, base.branch),
        worker: text_or(toml.worker, base.worker),
        compactor: text_or(toml.compactor, base.compactor),
        cortex: text_or(toml.cortex, base.cortex),
        voice: text_or(toml.voice, base.voice),
        task_overrides: base.task_overrides.union_prefer_right(toml.task_overrides@),
        fallbacks: match toml.fallbacks {
            Some(fallbacks) => string_map::list_views(fallbacks@),
            None => base.fallbacks,
        },
        rate_limit_cooldown_secs: toml.rate_limit_cooldown_secs.unwrap_or(
            base.rate_limit_cooldown_secs,
        ),
        channel_thinking_effort: text_or(
            toml.channel_thinking_effort,
            base.channel_thinking_effort,
        ),
        branch_thinking_effort: text_or(
            toml.branch_thinking_effort,
            base.branch_thinking_effort,
        ),
        worker_thinking_effort: text_or(
            toml.worker_thinking_effort,
            base.worker_thinking_effort,
        ),
        compactor_thinking_effort: text_or(
            toml.compactor_thinking_effort,
            base.compactor_thinking_effort,
        ),
        cortex_thinking_effort: text_or(
            toml.cortex_thinking_effort,
            base.cortex_thinking_effort,
        ),
    }
}

/// The text where there is one, else a copy of the other.
pub(crate) fn own_or(value: Option<String>, other: &String) -> (result: String)
    ensures
        result@ == text_or(value, other@),
        result == (match value {
            Some(v) => v,
            None => *other,
        }),
{
    match value {
        Some(v) => v,
        None => other.clone(),
    }
}

/// Resolves routing from a file over a base.
pub fn resolve_routing(toml: Option<TomlRoutingConfig>, base: &RoutingConfig) -> (resolved:
    RoutingConfig)
    ensures
        resolved@ == (match toml {
            Some(t) => routing_over(t, base@),
            None => base@,
        }),
{
    let t = match toml {
        Some(t) => t,
        None => {
            return base.duplicate();
        },
    };
    let mut task_overrides = base.task_overrides.duplicate();
    task_overrides.extend(t.task_overrides);
    let fallbacks = match t.fallbacks {
        Some(f) => f,
        None => base.fallbacks.duplicate_lists(),
    };
    RoutingConfig {
        channel: own_or(t.channel, &base.channel),
        branch: own_or(t.branch, &base.branch),
        worker: own_or(t.worker, &base.worker),
        compactor: own_or(t.compactor, &base.compactor),
        cortex: own_or(t.cortex, &base.cortex),
        voice: own_or(t.voice, &base.voice),
        task_overrides,
        fallbacks,
        rate_limit_cooldown_secs: t.rate_limit_cooldown_secs.unwrap_or(
            base.rate_limit_cooldown_secs,
        ),
        channel_thinking_effort: own_or(
            t.channel_thinking_effort,
            &base.channel_thinking_effort,
        ),
        branch_thinking_effort: own_or(
            t.branch_thinking_effort,
            &base.branch_thinking_effort,
        ),
        worker_thinking_effort: own_or(
            t.worker_thinking_effort,
            &base.worker_thinking_effort,
        ),
        compactor_thinking_effort: own_or(
            t.compactor_thinking_effort,
            &base.compactor_thinking_effort,
        ),
        cortex_thinking_effort: own_or(
            t.cortex_thinking_effort,
            &base.cortex_thinking_effort,
        ),
    }
}

} // verus!
