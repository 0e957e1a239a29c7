//! Providers and their credentials, out of a configuration file and the environment.
use crate::config::error;
use crate::config::error::{ConfigError, ConfigErrorView};
use crate::config::provider;
use crate::config::provider::{ApiType, LlmConfig, LlmView, ProviderConfig, ProviderView};
use crate::config::providers;
use crate::config::resolve;
use crate::config::resolve::ResolveContext;
use crate::config::toml_schema::{TomlLlmConfig, TomlProviderConfig};
use crate::string_map::StringMap;
use crate::text;
use vstd::prelude::*;

verus! {

// ---------------------------------------------------------------------------
// Providers that the file describes
// ---------------------------------------------------------------------------

/// What is wrong with a provider of the file: its id is empty or longer than 64
/// bytes, or has a slash or white space, or its base URL is none.
pub open spec fn provider_check(id: Seq<char>, toml: TomlProviderConfig) -> Result<
    (),
    ConfigErrorView,
> {
    if id.len() == 0 || text::utf8_len(id) > 64 {
        Err(
            ConfigErrorView::Invalid(
                "Provider ID '"@ + id + "' must be between 1 and 64 characters long"@,
            ),
        )
    } else if text::has(id, "/"@) || text::has_whitespace(id) {
        Err(
            ConfigErrorView::Invalid(
                "Provider ID '"@ + id
                    + "' contains invalid characters (cannot contain '/' or whitespace)"@,
            ),
        )
    } else {
        match resolve::url_refusal(toml.base_url@) {
            Some(reason) => Err(
                ConfigErrorView::Invalid(
                    "Invalid base URL '"@ + toml.base_url@ + "' for provider '"@ + id + "': "@
                        + reason,
                ),
            ),
            None => Ok(()),
        }
    }
}

/// What is wrong with the first provider of the list that is not in order.
pub open spec fn providers_check(list: Seq<(String, TomlProviderConfig)>) -> Result<
    (),
    ConfigErrorView,
>
    decreases list.len(),
{
    if list.len() == 0 {
        Ok(())
    } else {
        match providers_check(list.drop_last()) {
            Err(refusal) => Err(refusal),
            Ok(_) => provider_check(list.last().0@, list.last().1),
        }
    }
}

/// A provider that is not in order refuses every longer list.
proof fn lemma_provider_refusal_stays(list: Seq<(String, TomlProviderConfig)>, n: int)
    requires
        0 <= n <= list.len(),
        providers_check(list.subrange(0, n)) is Err,
    ensures
        providers_check(list) == providers_check(list.subrange(0, n)),
    decreases list.len(),
{
    if n == list.len() {
        assert(list.subrange(0, n) =~= list);
    } else {
        assert(list.drop_last().subrange(0, n) =~= list.subrange(0, n));
        lemma_provider_refusal_stays(list.drop_last(), n);
    }
}

/// Says what is wrong with a provider of the file.
pub fn validate_provider(id: &str, toml: &TomlProviderConfig) -> (result: Result<(), ConfigError>)
    ensures
        error::unit_result(result) == provider_check(id@, *toml),
{
    if text::chars_of(id).len() == 0 || text::is_longer_than(id, 64) {
        return Err(
            ConfigError::Invalid(
                error::quoted("Provider ID '", id, "' must be between 1 and 64 characters long"),
            ),
        );
    }
    if text::contains(id, "/") || text::contains_whitespace(id) {
        return Err(
            ConfigError::Invalid(
                error::quoted(
                    "Provider ID '",
                    id,
                    "' contains invalid characters (cannot contain '/' or whitespace)",
                ),
            ),
        );
    }
    match resolve::url_error(toml.base_url.as_str()) {
        Some(reason) => {
            let start = error::quoted(
                "Invalid base URL '",
                toml.base_url.as_str(),
                "' for provider '",
            );
            let middle = error::quoted(start.as_str(), id, "': ");
            Err(ConfigError::Invalid(text::concat(middle.as_str(), reason.as_str())))
        },
        None => Ok(()),
    }
}

/// Says what is wrong with the first provider of the list that is not in order.
pub fn validate_providers(list: &Vec<(String, TomlProviderConfig)>) -> (result: Result<
    (),
    ConfigError,
>)
    ensures
        error::unit_result(result) == providers_check(list@),
{
    proof {
        assert(list@.subrange(0, 0) =~= Seq::empty());
    }
    let mut i: usize = 0;
    while i < list.len()
        invariant
            i <= list@.len(),
            providers_check(list@.subrange(0, i as int)) is Ok,
        decreases list@.len() - i,
    {
        proof {
            let next = list@.subrange(0, i as int + 1);
            assert(next.drop_last() =~= list@.subrange(0, i as int));
            assert(next.last() == list@[i as int]);
        }
        match validate_provider(list[i].0.as_str(), &list[i].1) {
            Ok(_) => {},
            Err(refusal) => {
                proof {
                    lemma_provider_refusal_stays(list@, i as int + 1);
                }
                return Err(refusal);
            },
        }
        i += 1;
    }
    proof {
        assert(list@.subrange(0, list@.len() as int) =~= list@);
    }
    Ok(())
}

/// An id that a provider of the file may have: 1 to 64 bytes, without a slash or white
/// space.
pub open spec fn is_file_id(id: Seq<char>) -> bool {
    &&& 1 <= text::utf8_len(id) <= 64
    &&& !text::has(id, "/"@)
    &&& !text::has_whitespace(id)
}

/// Every provider of a list that is in order has an id that it may have.
pub(crate) proof fn lemma_file_ids(list: Seq<(String, TomlProviderConfig)>, i: int)
    requires
        providers_check(list) is Ok,
        0 <= i < list.len(),
    ensures
        is_file_id(list[i].0@),
    decreases list.len(),
{
    if i < list.len() - 1 {
        lemma_file_ids(list.drop_last(), i);
    } else {
        text::lemma_some_bytes(list[i].0@);
    }
}

/// An id in lower case: the lower-case form of an id of the file, or small ASCII letters,
/// digits and hyphens alone.
pub open spec fn is_lower_case_id(list: Seq<(String, TomlProviderConfig)>, id: Seq<char>) -> bool {
    ||| resolve::is_plain(id)
    ||| exists|i: int| 0 <= i < list.len() && id == resolve::lowercased((#[trigger] list[i]).0@)
}

/// The providers of the file stand under their ids in lower case.
proof fn lemma_file_keys(
    context: ResolveContext,
    list: Seq<(String, TomlProviderConfig)>,
    id: Seq<char>,
)
    requires
        file_providers(context, list) is Ok,
        file_providers(context, list)->Ok_0.contains_key(id),
    ensures
        is_lower_case_id(list, id),
    decreases list.len(),
{
    if list.len() > 0 {
        let shorter = list.drop_last();
        if file_providers(context, shorter)->Ok_0.contains_key(id) {
            lemma_file_keys(context, shorter, id);
            if !resolve::is_plain(id) {
                let i = choose|i: int|
                    0 <= i < shorter.len() && id == resolve::lowercased(
                        (#[trigger] shorter[i]).0@,
                    );
                assert(list[i] == shorter[i]);
            }
        } else {
            assert(id == resolve::lowercased(list[list.len() - 1].0@));
        }
    }
}

/// A provider of the file, under its id in lower case, with its key resolved.
pub open spec fn file_provider(id: Seq<char>, toml: TomlProviderConfig, api_key: Seq<char>) -> (
    Seq<char>,
    ProviderView,
) {
    let lower = resolve::lowercased(id);
    (
        lower,
        ProviderView {
            api_type: toml.api_type,
            base_url: toml.base_url@,
            api_key,
            name: text::view_of(toml.name),
            use_proxy_api_key: false,
            extra_headers: if lower == "openrouter"@ {
                providers::openrouter_headers()
            } else {
                Seq::empty()
            },
        },
    )
}

/// The providers of the file, or why they are refused: a key that stands for nothing
/// refuses them all. Of two ids that are the same in lower case the later one counts.
pub open spec fn file_providers(
    context: ResolveContext,
    list: Seq<(String, TomlProviderConfig)>,
) -> Result<Map<Seq<char>, ProviderView>, ConfigErrorView>
    decreases list.len(),
{
    if list.len() == 0 {
        Ok(Map::empty())
    } else {
        match file_providers(context, list.drop_last()) {
            Err(refusal) => Err(refusal),
            Ok(known) => {
                let (id, toml) = list.last();
                match resolve::resolved(context, toml.api_key@) {
                    Some(api_key) => {
                        let (lower, view) = file_provider(id@, toml, api_key);
                        Ok(known.insert(lower, view))
                    },
                    None => Err(
                        ConfigErrorView::Unresolved(
                            "failed to resolve API key for provider '"@ + id@ + "'"@,
                        ),
                    ),
                }
            },
        }
    }
}

/// A key that stands for nothing refuses every longer list.
proof fn lemma_key_refusal_stays(
    context: ResolveContext,
    list: Seq<(String, TomlProviderConfig)>,
    n: int,
)
    requires
        0 <= n <= list.len(),
        file_providers(context, list.subrange(0, n)) is Err,
    ensures
        file_providers(context, list) == file_providers(context, list.subrange(0, n)),
    decreases list.len(),
{
    if n == list.len() {
        assert(list.subrange(0, n) =~= list);
    } else {
        assert(list.drop_last().subrange(0, n) =~= list.subrange(0, n));
        lemma_key_refusal_stays(context, list.drop_last(), n);
    }
}

/// No provider stands under an id with a capital ASCII letter.
pub open spec fn keys_have_no_capitals(known: Map<Seq<char>, ProviderView>) -> bool {
    forall|id: Seq<char>| #[trigger] known.contains_key(id) ==> resolve::has_no_capitals(id)
}

/// Reads the providers of the file.
pub fn providers_from_toml(context: &ResolveContext, list: Vec<(String, TomlProviderConfig)>) -> (
result: Result<StringMap<ProviderConfig>, ConfigError>)
    ensures
        match result {
            Ok(map) => file_providers(*context, list@) == Ok::<_, ConfigErrorView>(
                provider::provider_views(map@),
            ) && keys_have_no_capitals(provider::provider_views(map@)),
            Err(refusal) => file_providers(*context, list@) == Err::<
                Map<Seq<char>, ProviderView>,
                ConfigErrorView,
            >(refusal@),
        },
{
    let ghost all = list@;
    let mut map: StringMap<ProviderConfig> = StringMap::new();
    proof {
        assert(all.subrange(0, 0) =~= Seq::empty());
        assert(provider::provider_views(map@) =~= Map::empty());
    }
    for entry in it: list.into_iter()
        invariant
            it.seq() == all,
            file_providers(*context, all.subrange(0, it.index() as int)) == Ok::<
                _,
                ConfigErrorView,
            >(provider::provider_views(map@)),
            keys_have_no_capitals(provider::provider_views(map@)),
    {
        let ghost i = it.index() as int;
        let ghost given = entry;
        proof {
            let next = all.subrange(0, i + 1);
            assert(next.drop_last() =~= all.subrange(0, i));
            assert(next.last() == entry);
        }
        let (id, toml) = entry;
        let api_key = match resolve::resolve_env_value(context, toml.api_key.as_str()) {
            Some(key) => key,
            None => {
                proof {
                    lemma_key_refusal_stays(*context, all, i + 1);
                }
                return Err(
                    ConfigError::Unresolved(
                        error::quoted(
                            "failed to resolve API key for provider '",
                            id.as_str(),
                            "'",
                        ),
                    ),
                );
            },
        };
        let lower = resolve::lowercase(id.as_str());
        let extra_headers = if text::same(lower.as_str(), "openrouter") {
            providers::openrouter_extra_headers()
        } else {
            Vec::new()
        };
        let provider = ProviderConfig {
            api_type: toml.api_type,
            base_url: toml.base_url,
            api_key,
            name: toml.name,
            use_proxy_api_key: false,
            extra_headers,
        };
        let ghost before = map@;
        proof {
            if lower@ != "openrouter"@ {
                assert(provider@.extra_headers =~= Seq::empty());
            }
            assert((lower@, provider@) == file_provider(given.0@, given.1, api_key@));
        }
        map.insert(lower, provider);
        proof {
            assert(provider::provider_views(map@) =~= provider::provider_views(before).insert(
                lower@,
                provider@,
            ));
        }
    }
    proof {
        assert(all.subrange(0, all.len() as int) =~= all);
    }
    Ok(map)
}

// ---------------------------------------------------------------------------
// Providers that a key stands for
// ---------------------------------------------------------------------------

/// The provider that a key stands for.
pub open spec fn known_shorthand(id: Seq<char>, key: Option<Seq<char>>) -> Option<ProviderView> {
    match key {
        Some(k) => providers::default_provider(id, k),
        None => None,
    }
}

/// Anthropic, at the given address.
pub open spec fn anthropic_shorthand(
    llm: LlmView,
    base_url: Seq<char>,
    from_auth_token: bool,
) -> Option<ProviderView> {
    providers::shorthand(
        llm.anthropic_key,
        ApiType::Anthropic,
        base_url,
        None,
        from_auth_token,
    )
}

/// GitHub Copilot, at its address for individuals.
pub open spec fn copilot_shorthand(llm: LlmView) -> Option<ProviderView> {
    providers::shorthand(
        llm.github_copilot_key,
        ApiType::OpenAiChatCompletions,
        "https://api.individual.githubcopilot.com"@,
        Some("GitHub Copilot"@),
        true,
    )
}

/// Ollama, where it has an address or a key; on this machine by default.
pub open spec fn ollama_shorthand(llm: LlmView) -> Option<ProviderView> {
    if llm.ollama_base_url is Some || llm.ollama_key is Some {
        Some(
            ProviderView {
                api_type: ApiType::OpenAiCompletions,
                base_url: match llm.ollama_base_url {
                    Some(url) => url,
                    None => "http://localhost:11434"@,
                },
                api_key: resolve::or_empty(llm.ollama_key),
                name: None,
                use_proxy_api_key: false,
                extra_headers: Seq::empty(),
            },
        )
    } else {
        None
    }
}

/// The providers that keys stand for, each with its id.
pub open spec fn shorthands(llm: LlmView, base_url: Seq<char>, from_auth_token: bool) -> Seq<
    (Seq<char>, Option<ProviderView>),
> {
    seq![
        ("anthropic"@, anthropic_shorthand(llm, base_url, from_auth_token)),
        ("openai"@, known_shorthand("openai"@, llm.openai_key)),
        ("openrouter"@, known_shorthand("openrouter"@, llm.openrouter_key)),
        ("kilo"@, known_shorthand("kilo"@, llm.kilo_key)),
        ("zhipu"@, known_shorthand("zhipu"@, llm.zhipu_key)),
        ("zai-coding-plan"@, known_shorthand("zai-coding-plan"@, llm.zai_coding_plan_key)),
        ("opencode-zen"@, known_shorthand("opencode-zen"@, llm.opencode_zen_key)),
        ("opencode-go"@, known_shorthand("opencode-go"@, llm.opencode_go_key)),
        ("github-copilot"@, copilot_shorthand(llm)),
        ("minimax"@, known_shorthand("minimax"@, llm.minimax_key)),
        ("minimax-cn"@, known_shorthand("minimax-cn"@, llm.minimax_cn_key)),
        ("moonshot"@, known_shorthand("moonshot"@, llm.moonshot_key)),
        ("nvidia"@, known_shorthand("nvidia"@, llm.nvidia_key)),
        ("fireworks"@, known_shorthand("fireworks"@, llm.fireworks_key)),
        ("deepseek"@, known_shorthand("deepseek"@, llm.deepseek_key)),
        ("gemini"@, known_shorthand("gemini"@, llm.gemini_key)),
        ("groq"@, known_shorthand("groq"@, llm.groq_key)),
        ("together"@, known_shorthand("together"@, llm.together_key)),
        ("xai"@, known_shorthand("xai"@, llm.xai_key)),
        ("mistral"@, known_shorthand("mistral"@, llm.mistral_key)),
        ("ollama"@, ollama_shorthand(llm)),
    ]
}

/// The providers, with those of a list whose ids are not taken.
pub open spec fn with_shorthands(
    known: Map<Seq<char>, ProviderView>,
    list: Seq<(Seq<char>, Option<ProviderView>)>,
) -> Map<Seq<char>, ProviderView>
    decreases list.len(),
{
    if list.len() == 0 {
        known
    } else {
        providers::with_provider(
            with_shorthands(known, list.drop_last()),
            list.last().0,
            list.last().1,
        )
    }
}

/// A list without providers adds none.
proof fn lemma_nothing_is_added(
    known: Map<Seq<char>, ProviderView>,
    list: Seq<(Seq<char>, Option<ProviderView>)>,
)
    requires
        forall|i: int| 0 <= i < list.len() ==> (#[trigger] list[i]).1 is None,
    ensures
        with_shorthands(known, list) == known,
    decreases list.len(),
{
    if list.len() > 0 {
        assert(list.last() == list[list.len() - 1]);
        assert forall|i: int| 0 <= i < list.drop_last().len() implies (
        #[trigger] list.drop_last()[i]).1 is None by {
            assert(list.drop_last()[i] == list[i]);
        }
        lemma_nothing_is_added(known, list.drop_last());
    }
}

/// Without keys and addresses there are no providers that they stand for.
pub proof fn lemma_no_keys_give_no_providers(
    llm: LlmView,
    base_url: Seq<char>,
    from_auth_token: bool,
)
    requires
        !(LlmView { providers: Map::empty(), ..llm }).has_any(),
    ensures
        with_shorthands(Map::empty(), shorthands(llm, base_url, from_auth_token)) == Map::<
            Seq<char>,
            ProviderView,
        >::empty(),
{
    lemma_nothing_is_added(Map::empty(), shorthands(llm, base_url, from_auth_token));
}

/// A provider that a key stands for, with its id.
struct Shorthand {
    id: &'static str,
    provider: Option<ProviderConfig>,
}

impl View for Shorthand {
    type V = (Seq<char>, Option<ProviderView>);

    closed spec fn view(&self) -> (Seq<char>, Option<ProviderView>) {
        (
            self.id@,
            match self.provider {
                Some(p) => Some(p@),
                None => None,
            },
        )
    }
}

/// The provider that a key stands for.
fn known_entry(id: &'static str, key: &Option<String>) -> (entry: Shorthand)
    ensures
        entry@ == (id@, known_shorthand(id@, text::view_of(*key))),
{
    let provider = match key {
        Some(k) => providers::default_provider_config(id, k.clone()),
        None => None,
    };
    Shorthand { id, provider }
}

/// Anthropic, at the given address.
fn anthropic_entry(llm: &LlmConfig, base_url: &str, from_auth_token: bool) -> (entry: Shorthand)
    ensures
        entry@ == ("anthropic"@, anthropic_shorthand(llm@, base_url@, from_auth_token)),
{
    let provider = match &llm.anthropic_key {
        Some(key) => {
            let p = ProviderConfig {
                api_type: ApiType::Anthropic,
                base_url: base_url.to_owned(),
                api_key: key.clone(),
                name: None,
                use_proxy_api_key: from_auth_token,
                extra_headers: Vec::new(),
            };
            proof {
                assert(p@.extra_headers =~= Seq::empty());
            }
            Some(p)
        },
        None => None,
    };
    Shorthand { id: "anthropic", provider }
}

/// GitHub Copilot, at its address for individuals.
fn copilot_entry(llm: &LlmConfig) -> (entry: Shorthand)
    ensures
        entry@ == ("github-copilot"@, copilot_shorthand(llm@)),
{
    let provider = match &llm.github_copilot_key {
        Some(key) => {
            let p = ProviderConfig {
                api_type: ApiType::OpenAiChatCompletions,
                base_url: "https://api.individual.githubcopilot.com".to_owned(),
                api_key: key.clone(),
                name: Some("GitHub Copilot".to_owned()),
                use_proxy_api_key: true,
                extra_headers: Vec::new(),
            };
            proof {
                assert(p@.extra_headers =~= Seq::empty());
            }
            Some(p)
        },
        None => None,
    };
    Shorthand { id: "github-copilot", provider }
}

/// Ollama, where it has an address or a key.
fn ollama_entry(llm: &LlmConfig) -> (entry: Shorthand)
    ensures
        entry@ == ("ollama"@, ollama_shorthand(llm@)),
{
    let provider = if llm.ollama_base_url.is_some() || llm.ollama_key.is_some() {
        let base_url = match &llm.ollama_base_url {
            Some(url) => url.clone(),
            None => "http://localhost:11434".to_owned(),
        };
        let p = ProviderConfig {
            api_type: ApiType::OpenAiCompletions,
            base_url,
            api_key: resolve::text_or_empty(llm.ollama_key.clone()),
            name: None,
            use_proxy_api_key: false,
            extra_headers: Vec::new(),
        };
        proof {
            assert(p@.extra_headers =~= Seq::empty());
        }
        Some(p)
    } else {
        None
    };
    Shorthand { id: "ollama", provider }
}

/// The providers that keys stand for.
fn shorthand_list(llm: &LlmConfig, base_url: &str, from_auth_token: bool) -> (list: Vec<Shorthand>)
    ensures
        crate::views::list(list@) == shorthands(llm@, base_url@, from_auth_token),
{
    let mut list: Vec<Shorthand> = Vec::new();
    list.push(anthropic_entry(llm, base_url, from_auth_token));
    list.push(known_entry("openai", &llm.openai_key));
    list.push(known_entry("openrouter", &llm.openrouter_key));
    list.push(known_entry("kilo", &llm.kilo_key));
    list.push(known_entry("zhipu", &llm.zhipu_key));
    list.push(known_entry("zai-coding-plan", &llm.zai_coding_plan_key));
    list.push(known_entry("opencode-zen", &llm.opencode_zen_key));
    list.push(known_entry("opencode-go", &llm.opencode_go_key));
    list.push(copilot_entry(llm));
    list.push(known_entry("minimax", &llm.minimax_key));
    list.push(known_entry("minimax-cn", &llm.minimax_cn_key));
    list.push(known_entry("moonshot", &llm.moonshot_key));
    list.push(known_entry("nvidia", &llm.nvidia_key));
    list.push(known_entry("fireworks", &llm.fireworks_key));
    list.push(known_entry("deepseek", &llm.deepseek_key));
    list.push(known_entry("gemini", &llm.gemini_key));
    list.push(known_entry("groq", &llm.groq_key));
    list.push(known_entry("together", &llm.together_key));
    list.push(known_entry("xai", &llm.xai_key));
    list.push(known_entry("mistral", &llm.mistral_key));
    list.push(ollama_entry(llm));
    proof {
        assert(crate::views::list(list@) =~= shorthands(llm@, base_url@, from_auth_token));
    }
    list
}

/// Where Anthropic is reached: at the address of the environment, or its own.
pub open spec fn anthropic_base_url(context: ResolveContext) -> Seq<char> {
    match context.var("ANTHROPIC_BASE_URL"@) {
        Some(url) => url,
        None => "https://api.anthropic.com"@,
    }
}

/// Adds the providers that keys stand for, where their ids are not taken.
fn add_shorthands(llm: &mut LlmConfig, context: &ResolveContext, from_auth_token: bool)
    ensures
        final(llm)@ == (LlmView {
            providers: with_shorthands(
                old(llm)@.providers,
                shorthands(old(llm)@, anthropic_base_url(*context), from_auth_token),
            ),
            ..old(llm)@
        }),
{
    let base_url = match context.env_var("ANTHROPIC_BASE_URL") {
        Some(url) => url,
        None => "https://api.anthropic.com".to_owned(),
    };
    let list = shorthand_list(llm, base_url.as_str(), from_auth_token);
    let ghost before = llm@;
    let ghost items = list@;
    let ghost all = crate::views::list(list@);
    proof {
        assert(all.subrange(0, 0) =~= Seq::empty());
    }
    for entry in it: list.into_iter()
        invariant
            it.seq() == items,
            all == crate::views::list(items),
            llm@ == (LlmView {
                providers: with_shorthands(before.providers, all.subrange(0, it.index() as int)),
                ..before
            }),
    {
        let ghost i = it.index() as int;
        proof {
            let next = all.subrange(0, i + 1);
            assert(next.drop_last() =~= all.subrange(0, i));
            assert(next.last() == entry@);
        }
        providers::add_provider(&mut llm.providers, entry.id, entry.provider);
    }
    proof {
        assert(all.subrange(0, all.len() as int) =~= all);
    }
}

/// A provider that is configured is kept as it is, whatever keys there are.
pub proof fn law_keys_never_replace_a_provider(
    known: Map<Seq<char>, ProviderView>,
    list: Seq<(Seq<char>, Option<ProviderView>)>,
    id: Seq<char>,
)
    requires
        known.contains_key(id),
    ensures
        with_shorthands(known, list).contains_key(id),
        with_shorthands(known, list)[id] == known[id],
    decreases list.len(),
{
    if list.len() > 0 {
        law_keys_never_replace_a_provider(known, list.drop_last(), id);
    }
}

/// The providers with those of a list stand under the ids they stood under and the ids of
/// the list.
proof fn lemma_shorthand_keys(
    known: Map<Seq<char>, ProviderView>,
    list: Seq<(Seq<char>, Option<ProviderView>)>,
    id: Seq<char>,
)
    requires
        with_shorthands(known, list).contains_key(id),
        forall|i: int| 0 <= i < list.len() ==> resolve::is_plain((#[trigger] list[i]).0),
    ensures
        known.contains_key(id) || resolve::is_plain(id),
    decreases list.len(),
{
    if list.len() > 0 {
        let shorter = list.drop_last();
        assert forall|i: int| 0 <= i < shorter.len() implies resolve::is_plain(
            (#[trigger] shorter[i]).0,
        ) by {
            assert(shorter[i] == list[i]);
        }
        if with_shorthands(known, shorter).contains_key(id) {
            lemma_shorthand_keys(known, shorter, id);
        } else {
            assert(id == list[list.len() - 1].0);
        }
    }
}

/// The ids of the providers that keys stand for are plain.
proof fn lemma_shorthand_ids_are_plain(llm: LlmView, base_url: Seq<char>, from_auth_token: bool)
    ensures
        forall|i: int|
            0 <= i < shorthands(llm, base_url, from_auth_token).len() ==> resolve::is_plain(
                (#[trigger] shorthands(llm, base_url, from_auth_token)[i]).0,
            ),
{
    reveal_strlit("anthropic");
    reveal_strlit("openai");
    reveal_strlit("openrouter");
    reveal_strlit("kilo");
    reveal_strlit("zhipu");
    reveal_strlit("zai-coding-plan");
    reveal_strlit("opencode-zen");
    reveal_strlit("opencode-go");
    reveal_strlit("github-copilot");
    reveal_strlit("minimax");
    reveal_strlit("minimax-cn");
    reveal_strlit("moonshot");
    reveal_strlit("nvidia");
    reveal_strlit("fireworks");
    reveal_strlit("deepseek");
    reveal_strlit("gemini");
    reveal_strlit("groq");
    reveal_strlit("together");
    reveal_strlit("xai");
    reveal_strlit("mistral");
    reveal_strlit("ollama");
    assert(resolve::is_plain("anthropic"@));
    assert(resolve::is_plain("openai"@));
    assert(resolve::is_plain("openrouter"@));
    assert(resolve::is_plain("kilo"@));
    assert(resolve::is_plain("zhipu"@));
    assert(resolve::is_plain("zai-coding-plan"@));
    assert(resolve::is_plain("opencode-zen"@));
    assert(resolve::is_plain("opencode-go"@));
    assert(resolve::is_plain("github-copilot"@));
    assert(resolve::is_plain("minimax"@));
    assert(resolve::is_plain("minimax-cn"@));
    assert(resolve::is_plain("moonshot"@));
    assert(resolve::is_plain("nvidia"@));
    assert(resolve::is_plain("fireworks"@));
    assert(resolve::is_plain("deepseek"@));
    assert(resolve::is_plain("gemini"@));
    assert(resolve::is_plain("groq"@));
    assert(resolve::is_plain("together"@));
    assert(resolve::is_plain("xai"@));
    assert(resolve::is_plain("mistral"@));
    assert(resolve::is_plain("ollama"@));
}

/// Every provider of a file and of its keys stands under an id in lower case.
pub(crate) proof fn lemma_provider_keys(
    context: ResolveContext,
    toml: TomlLlmConfig,
    id: Seq<char>,
)
    requires
        llm_of_file(context, toml) is Ok,
        llm_of_file(context, toml)->Ok_0.providers.contains_key(id),
    ensures
        is_lower_case_id(toml.providers@, id),
{
    let known = file_providers(context, toml.providers@)->Ok_0;
    let llm = credentials(context, toml, known);
    let from_auth_token = key_is_auth_token(
        context,
        resolve::resolved_option(context, toml.anthropic_key),
    );
    let base_url = anthropic_base_url(context);
    lemma_shorthand_ids_are_plain(llm, base_url, from_auth_token);
    lemma_shorthand_keys(known, shorthands(llm, base_url, from_auth_token), id);
    if known.contains_key(id) {
        lemma_file_keys(context, toml.providers@, id);
    }
}

/// Every provider that a key stands for is there in the end, under its id.
pub proof fn law_every_key_gives_a_provider(
    known: Map<Seq<char>, ProviderView>,
    list: Seq<(Seq<char>, Option<ProviderView>)>,
    k: int,
)
    requires
        0 <= k < list.len(),
        list[k].1 is Some,
    ensures
        with_shorthands(known, list).contains_key(list[k].0),
    decreases list.len(),
{
    if k < list.len() - 1 {
        law_every_key_gives_a_provider(known, list.drop_last(), k);
    }
}

// ---------------------------------------------------------------------------
// Credentials
// ---------------------------------------------------------------------------

/// The credentials that the file and the environment give.
pub open spec fn credentials(
    context: ResolveContext,
    toml: TomlLlmConfig,
    known: Map<Seq<char>, ProviderView>,
) -> LlmView {
    LlmView {
        anthropic_key: resolve::or_else(
            resolve::resolved_option(context, toml.anthropic_key),
            resolve::or_else(
                context.var("ANTHROPIC_API_KEY"@),
                context.var("ANTHROPIC_AUTH_TOKEN"@),
            ),
        ),
        openai_key: resolve::or_else(
            resolve::resolved_option(context, toml.openai_key),
            context.var("OPENAI_API_KEY"@),
        ),
        openrouter_key: resolve::or_else(
            resolve::resolved_option(context, toml.openrouter_key),
            context.var("OPENROUTER_API_KEY"@),
        ),
        kilo_key: resolve::or_else(
            context.var("KILO_API_KEY"@),
            resolve::resolved_option(context, toml.kilo_key),
        ),
        zhipu_key: resolve::or_else(
            resolve::resolved_option(context, toml.zhipu_key),
            context.var("ZHIPU_API_KEY"@),
        ),
        groq_key: resolve::or_else(
            resolve::resolved_option(context, toml.groq_key),
            context.var("GROQ_API_KEY"@),
        ),
        together_key: resolve::or_else(
            resolve::resolved_option(context, toml.together_key),
            context.var("TOGETHER_API_KEY"@),
        ),
        fireworks_key: resolve::or_else(
            resolve::resolved_option(context, toml.fireworks_key),
            context.var("FIREWORKS_API_KEY"@),
        ),
        deepseek_key: resolve::or_else(
            resolve::resolved_option(context, toml.deepseek_key),
            context.var("DEEPSEEK_API_KEY"@),
        ),
        xai_key: resolve::or_else(
            resolve::resolved_option(context, toml.xai_key),
            context.var("XAI_API_KEY"@),
        ),
        mistral_key: resolve::or_else(
            resolve::resolved_option(context, toml.mistral_key),
            context.var("MISTRAL_API_KEY"@),
        ),
        gemini_key: resolve::or_else(
            resolve::resolved_option(context, toml.gemini_key),
            context.var("GEMINI_API_KEY"@),
        ),
        ollama_key: resolve::or_else(
            resolve::resolved_option(context, toml.ollama_key),
            context.var("OLLAMA_API_KEY"@),
        ),
        ollama_base_url: resolve::or_else(
            resolve::resolved_option(context, toml.ollama_base_url),
            context.var("OLLAMA_BASE_URL"@),
        ),
        opencode_zen_key: resolve::or_else(
            resolve::resolved_option(context, toml.opencode_zen_key),
            context.var("OPENCODE_ZEN_API_KEY"@),
        ),
        opencode_go_key: resolve::or_else(
            context.var("OPENCODE_GO_API_KEY"@),
            resolve::resolved_option(context, toml.opencode_go_key),
        ),
        nvidia_key: resolve::or_else(
            resolve::resolved_option(context, toml.nvidia_key),
            context.var("NVIDIA_API_KEY"@),
        ),
        minimax_key: resolve::or_else(
            resolve::resolved_option(context, toml.minimax_key),
            context.var("MINIMAX_API_KEY"@),
        ),
        minimax_cn_key: resolve::or_else(
            resolve::resolved_option(context, toml.minimax_cn_key),
            context.var("MINIMAX_CN_API_KEY"@),
        ),
        moonshot_key: resolve::or_else(
            resolve::resolved_option(context, toml.moonshot_key),
            context.var("MOONSHOT_API_KEY"@),
        ),
        zai_coding_plan_key: resolve::or_else(
            resolve::resolved_option(context, toml.zai_coding_plan_key),
            context.var("ZAI_CODING_PLAN_API_KEY"@),
        ),
        github_copilot_key: resolve::or_else(
            resolve::resolved_option(context, toml.github_copilot_key),
            context.var("GITHUB_COPILOT_API_KEY"@),
        ),
        providers: known,
    }
}

/// The Anthropic key came from `ANTHROPIC_AUTH_TOKEN`.
pub open spec fn key_is_auth_token(context: ResolveContext, written: Option<Seq<char>>) -> bool {
    written is None && context.var("ANTHROPIC_API_KEY"@) is None && context.var(
        "ANTHROPIC_AUTH_TOKEN"@,
    ) is Some
}

/// The providers and credentials of a file, or why they are refused.
pub open spec fn llm_of_file(context: ResolveContext, toml: TomlLlmConfig) -> Result<
    LlmView,
    ConfigErrorView,
> {
    match providers_check(toml.providers@) {
        Err(refusal) => Err(refusal),
        Ok(_) => match file_providers(context, toml.providers@) {
            Err(refusal) => Err(refusal),
            Ok(known) => {
                let llm = credentials(context, toml, known);
                Ok(
                    LlmView {
                        providers: with_shorthands(
                            known,
                            shorthands(
                                llm,
                                anthropic_base_url(context),
                                key_is_auth_token(
                                    context,
                                    resolve::resolved_option(context, toml.anthropic_key),
                                ),
                            ),
                        ),
                        ..llm
                    },
                )
            },
        },
    }
}

/// The view of loaded credentials.
pub open spec fn llm_result(result: Result<LlmConfig, ConfigError>) -> Result<
    LlmView,
    ConfigErrorView,
> {
    match result {
        Ok(llm) => Ok(llm@),
        Err(refusal) => Err(refusal@),
    }
}

/// The Anthropic key of the file, or one of the environment's.
fn anthropic_key(context: &ResolveContext, written: &Option<String>) -> (key: Option<String>)
    ensures
        text::view_of(key) == resolve::or_else(
            resolve::resolved_option(*context, *written),
            resolve::or_else(
                context.var("ANTHROPIC_API_KEY"@),
                context.var("ANTHROPIC_AUTH_TOKEN"@),
            ),
        ),
{
    match resolve::file_then_env(context, written, "ANTHROPIC_API_KEY") {
        Some(key) => Some(key),
        None => context.env_var("ANTHROPIC_AUTH_TOKEN"),
    }
}

/// Reads the credentials that the file and the environment give.
fn read_credentials(
    context: &ResolveContext,
    toml: &TomlLlmConfig,
    known: StringMap<ProviderConfig>,
) -> (llm: LlmConfig)
    ensures
        llm@ == credentials(*context, *toml, provider::provider_views(known@)),
{
    LlmConfig {
        anthropic_key: anthropic_key(context, &toml.anthropic_key),
        openai_key: resolve::file_then_env(
            context,
            &toml.openai_key,
            "OPENAI_API_KEY",
        ),
        openrouter_key: resolve::file_then_env(
            context,
            &toml.openrouter_key,
            "OPENROUTER_API_KEY",
        ),
        kilo_key: resolve::env_then_file(context, "KILO_API_KEY", &toml.kilo_key),
        zhipu_key: resolve::file_then_env(
            context,
            &toml.zhipu_key,
            "ZHIPU_API_KEY",
        ),
        groq_key: resolve::file_then_env(
            context,
            &toml.groq_key,
            "GROQ_API_KEY",
        ),
        together_key: resolve::file_then_env(
            context,
            &toml.together_key,
            "TOGETHER_API_KEY",
        ),
        fireworks_key: resolve::file_then_env(
            context,
            &toml.fireworks_key,
            "FIREWORKS_API_KEY",
        ),
        deepseek_key: resolve::file_then_env(
            context,
            &toml.deepseek_key,
            "DEEPSEEK_API_KEY",
        ),
        xai_key: resolve::file_then_env(
            context,
            &toml.xai_key,
            "XAI_API_KEY",
        ),
        mistral_key: resolve::file_then_env(
            context,
            &toml.mistral_key,
            "MISTRAL_API_KEY",
        ),
        gemini_key: resolve::file_then_env(
            context,
            &toml.gemini_key,
            "GEMINI_API_KEY",
        ),
        ollama_key: resolve::file_then_env(
            context,
            &toml.ollama_key,
            "OLLAMA_API_KEY",
        ),
        ollama_base_url: resolve::file_then_env(
            context,
            &toml.ollama_base_url,
            "OLLAMA_BASE_URL",
        ),
        opencode_zen_key: resolve::file_then_env(
            context,
            &toml.opencode_zen_key,
            "OPENCODE_ZEN_API_KEY",
        ),
        opencode_go_key: resolve::env_then_file(
            context,
            "OPENCODE_GO_API_KEY",
            &toml.opencode_go_key,
        ),
        nvidia_key: resolve::file_then_env(
            context,
            &toml.nvidia_key,
            "NVIDIA_API_KEY",
        ),
        minimax_key: resolve::file_then_env(
            context,
            &toml.minimax_key,
            "MINIMAX_API_KEY",
        ),
        minimax_cn_key: resolve::file_then_env(
            context,
            &toml.minimax_cn_key,
            "MINIMAX_CN_API_KEY",
        ),
        moonshot_key: resolve::file_then_env(
            context,
            &toml.moonshot_key,
            "MOONSHOT_API_KEY",
        ),
        zai_coding_plan_key: resolve::file_then_env(
            context,
            &toml.zai_coding_plan_key,
            "ZAI_CODING_PLAN_API_KEY",
        ),
        github_copilot_key: resolve::file_then_env(
            context,
            &toml.github_copilot_key,
            "GITHUB_COPILOT_API_KEY",
        ),
        providers: known,
    }
}

/// Reads the providers and credentials of a file.
pub fn llm_from_toml(context: &ResolveContext, mut toml: TomlLlmConfig) -> (result: Result<
    LlmConfig,
    ConfigError,
>)
    ensures
        llm_result(result) == llm_of_file(*context, toml),
        result matches Ok(llm) ==> keys_have_no_capitals(llm@.providers),
{
    validate_providers(&toml.providers)?;
    let ghost given = toml;
    let mut list: Vec<(String, TomlProviderConfig)> = Vec::new();
    core::mem::swap(&mut list, &mut toml.providers);
    let known = match providers_from_toml(context, list) {
        Ok(known) => known,
        Err(refusal) => {
            return Err(refusal);
        },
    };
    let written = resolve::resolve_option(context, &toml.anthropic_key);
    let from_auth_token = written.is_none() && context.env_var("ANTHROPIC_API_KEY").is_none()
        && context.env_var("ANTHROPIC_AUTH_TOKEN").is_some();
    let mut llm = read_credentials(context, &toml, known);
    proof {
        assert(llm@ == credentials(*context, given, provider::provider_views(known@)));
    }
    let ghost read = llm@;
    add_shorthands(&mut llm, context, from_auth_token);
    proof {
        let base_url = anthropic_base_url(*context);
        lemma_shorthand_ids_are_plain(read, base_url, from_auth_token);
        assert forall|id: Seq<char>| #[trigger]
            llm@.providers.contains_key(id) implies resolve::has_no_capitals(id) by {
            lemma_shorthand_keys(
                read.providers,
                shorthands(read, base_url, from_auth_token),
                id,
            );
        }
    }
    Ok(llm)
}

/// The credentials of the environment.
pub open spec fn env_credentials(context: ResolveContext) -> LlmView {
    LlmView {
        anthropic_key: resolve::or_else(
            context.var("ANTHROPIC_API_KEY"@),
            context.var("ANTHROPIC_AUTH_TOKEN"@),
        ),
        openai_key: context.var("OPENAI_API_KEY"@),
        openrouter_key: context.var("OPENROUTER_API_KEY"@),
        kilo_key: context.var("KILO_API_KEY"@),
        zhipu_key: context.var("ZHIPU_API_KEY"@),
        groq_key: context.var("GROQ_API_KEY"@),
        together_key: context.var("TOGETHER_API_KEY"@),
        fireworks_key: context.var("FIREWORKS_API_KEY"@),
        deepseek_key: context.var("DEEPSEEK_API_KEY"@),
        xai_key: context.var("XAI_API_KEY"@),
        mistral_key: context.var("MISTRAL_API_KEY"@),
        gemini_key: context.var("GEMINI_API_KEY"@),
        ollama_key: context.var("OLLAMA_API_KEY"@),
        ollama_base_url: context.var("OLLAMA_BASE_URL"@),
        opencode_zen_key: context.var("OPENCODE_ZEN_API_KEY"@),
        opencode_go_key: context.var("OPENCODE_GO_API_KEY"@),
        nvidia_key: context.var("NVIDIA_API_KEY"@),
        minimax_key: context.var("MINIMAX_API_KEY"@),
        minimax_cn_key: context.var("MINIMAX_CN_API_KEY"@),
        moonshot_key: context.var("MOONSHOT_API_KEY"@),
        zai_coding_plan_key: context.var("ZAI_CODING_PLAN_API_KEY"@),
        github_copilot_key: context.var("GITHUB_COPILOT_API_KEY"@),
        providers: Map::empty(),
    }
}

/// The providers and credentials of the environment.
pub open spec fn llm_of_env(context: ResolveContext) -> LlmView {
    let llm = env_credentials(context);
    LlmView {
        providers: with_shorthands(
            Map::empty(),
            shorthands(llm, anthropic_base_url(context), key_is_auth_token(context, None)),
        ),
        ..llm
    }
}

/// Reads the providers and credentials of the environment.
pub fn llm_from_env(context: &ResolveContext) -> (llm: LlmConfig)
    ensures
        llm@ == llm_of_env(*context),
{
    let from_auth_token = context.env_var("ANTHROPIC_API_KEY").is_none() && context.env_var(
        "ANTHROPIC_AUTH_TOKEN",
    ).is_some();
    let mut llm = LlmConfig {
        anthropic_key: anthropic_key(context, &None),
        openai_key: context.env_var("OPENAI_API_KEY"),
        openrouter_key: context.env_var("OPENROUTER_API_KEY"),
        kilo_key: context.env_var("KILO_API_KEY"),
        zhipu_key: context.env_var("ZHIPU_API_KEY"),
        groq_key: context.env_var("GROQ_API_KEY"),
        together_key: context.env_var("TOGETHER_API_KEY"),
        fireworks_key: context.env_var("FIREWORKS_API_KEY"),
        deepseek_key: context.env_var("DEEPSEEK_API_KEY"),
        xai_key: context.env_var("XAI_API_KEY"),
        mistral_key: context.env_var("MISTRAL_API_KEY"),
        gemini_key: context.env_var("GEMINI_API_KEY"),
        ollama_key: context.env_var("OLLAMA_API_KEY"),
        ollama_base_url: context.env_var("OLLAMA_BASE_URL"),
        opencode_zen_key: context.env_var("OPENCODE_ZEN_API_KEY"),
        opencode_go_key: context.env_var("OPENCODE_GO_API_KEY"),
        nvidia_key: context.env_var("NVIDIA_API_KEY"),
        minimax_key: context.env_var("MINIMAX_API_KEY"),
        minimax_cn_key: context.env_var("MINIMAX_CN_API_KEY"),
        moonshot_key: context.env_var("MOONSHOT_API_KEY"),
        zai_coding_plan_key: context.env_var("ZAI_CODING_PLAN_API_KEY"),
        github_copilot_key: context.env_var("GITHUB_COPILOT_API_KEY"),
        providers: StringMap::new(),
    };
    proof {
        assert(llm@.providers =~= Map::empty());
        assert(llm@ == env_credentials(*context));
    }
    add_shorthands(&mut llm, context, from_auth_token);
    llm
}

} // verus!
