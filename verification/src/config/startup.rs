//! Starting without a configuration file: the configuration of the environment alone,
//! whether a first run is due, and what a file has that is not known.
use crate::config::agent;
use crate::config::agent::{
    AgentConfig, AgentView, DefaultsConfig, DefaultsView, ModuleDefaultsView,
};
use crate::config::binding::Binding;
use crate::config::error::{ConfigError, ConfigErrorView};
use crate::config::llm_load;
use crate::config::load;
use crate::config::load::{Config, ConfigView, Surroundings};
use crate::config::messaging::{MessagingConfig, MessagingView};
use crate::config::path;
use crate::config::provider::{LlmConfig, LlmView};
use crate::config::resolve;
use crate::config::resolve::ResolveContext;
use crate::config::settings::{
    ApiConfig, ApiView, BrowserView, MetricsConfig, MetricsView, TelemetryConfig, TelemetryView,
};
use crate::config::toml_schema::TomlTelemetryConfig;
use crate::llm::routing::{RoutingConfig, RoutingView};
use crate::string_map;
use crate::string_map::StringMap;
use crate::text;
use crate::views;
use vstd::prelude::*;

verus! {

// ---------------------------------------------------------------------------
// Where an instance lives, and whether it is new
// ---------------------------------------------------------------------------

/// The directory of the instance: that of the environment, or `.spacebot` under the
/// home directory, or under the current one where there is no home.
pub open spec fn instance_dir_of(context: ResolveContext, home: Option<Seq<char>>) -> Seq<char> {
    match context.var("SPACEBOT_DIR"@) {
        Some(dir) => dir,
        None => match home {
            Some(h) => path::joined(h, ".spacebot"@),
            None => "./.spacebot"@,
        },
    }
}

/// The variables of the environment that give a key, a token or an address.
pub open spec fn key_variables() -> Seq<Seq<char>> {
    seq![
        "ANTHROPIC_API_KEY"@,
        "ANTHROPIC_AUTH_TOKEN"@,
        "ANTHROPIC_OAUTH_TOKEN"@,
        "OPENAI_API_KEY"@,
        "OPENROUTER_API_KEY"@,
        "KILO_API_KEY"@,
        "ZHIPU_API_KEY"@,
        "GROQ_API_KEY"@,
        "TOGETHER_API_KEY"@,
        "FIREWORKS_API_KEY"@,
        "DEEPSEEK_API_KEY"@,
        "XAI_API_KEY"@,
        "MISTRAL_API_KEY"@,
        "GEMINI_API_KEY"@,
        "NVIDIA_API_KEY"@,
        "OLLAMA_API_KEY"@,
        "OLLAMA_BASE_URL"@,
        "OPENCODE_ZEN_API_KEY"@,
        "OPENCODE_GO_API_KEY"@,
        "MINIMAX_API_KEY"@,
        "MINIMAX_CN_API_KEY"@,
        "MOONSHOT_API_KEY"@,
        "ZAI_CODING_PLAN_API_KEY"@,
        "GITHUB_COPILOT_API_KEY"@,
    ]
}

/// A variable that describes a provider of one's own.
pub open spec fn describes_provider(name: Seq<char>) -> bool {
    ||| text::begins_with(name, "SPACEBOT_PROVIDER_"@)
    ||| text::begins_with(name, "PROVIDER_"@)
    ||| text::has(name, "PROVIDER"@) && text::has(name, "API_KEY"@)
}

/// The environment gives a key.
pub open spec fn gives_key(context: ResolveContext) -> bool {
    exists|i: int|
        0 <= i < key_variables().len() && context.env@.contains_key(#[trigger] key_variables()[i])
}

/// The environment describes a provider.
pub open spec fn gives_provider(context: ResolveContext) -> bool {
    exists|name: Seq<char>| #[trigger]
        context.env@.contains_key(name) && describes_provider(name)
}

/// What an instance has on disk.
#[derive(Debug, Clone, Copy, PartialEq, Eq, Structural)]
pub struct InstanceFiles {
    /// A configuration file.
    pub config: bool,
    /// Anthropic OAuth credentials.
    pub anthropic_credentials: bool,
    /// OpenAI OAuth credentials.
    pub openai_credentials: bool,
}

/// Whether a variable of the list is set.
fn any_set(context: &ResolveContext, names: &Vec<&'static str>) -> (yes: bool)
    ensures
        yes == exists|i: int|
            0 <= i < names@.len() && context.env@.contains_key(#[trigger] names@[i]@),
{
    let mut i: usize = 0;
    while i < names.len()
        invariant
            i <= names@.len(),
            forall|j: int| 0 <= j < i ==> !context.env@.contains_key(#[trigger] names@[j]@),
        decreases names@.len() - i,
    {
        if context.env.contains_key(names[i]) {
            assert(context.env@.contains_key(names@[i as int]@));
            return true;
        }
        i += 1;
    }
    false
}

/// Whether the environment gives a key.
fn has_key(context: &ResolveContext) -> (yes: bool)
    ensures
        yes == gives_key(*context),
{
    let mut names: Vec<&'static str> = Vec::new();
    names.push("ANTHROPIC_API_KEY");
    names.push("ANTHROPIC_AUTH_TOKEN");
    names.push("ANTHROPIC_OAUTH_TOKEN");
    names.push("OPENAI_API_KEY");
    names.push("OPENROUTER_API_KEY");
    names.push("KILO_API_KEY");
    names.push("ZHIPU_API_KEY");
    names.push("GROQ_API_KEY");
    names.push("TOGETHER_API_KEY");
    names.push("FIREWORKS_API_KEY");
    names.push("DEEPSEEK_API_KEY");
    names.push("XAI_API_KEY");
    names.push("MISTRAL_API_KEY");
    names.push("GEMINI_API_KEY");
    names.push("NVIDIA_API_KEY");
    names.push("OLLAMA_API_KEY");
    names.push("OLLAMA_BASE_URL");
    names.push("OPENCODE_ZEN_API_KEY");
    names.push("OPENCODE_GO_API_KEY");
    names.push("MINIMAX_API_KEY");
    names.push("MINIMAX_CN_API_KEY");
    names.push("MOONSHOT_API_KEY");
    names.push("ZAI_CODING_PLAN_API_KEY");
    names.push("GITHUB_COPILOT_API_KEY");
    let ghost listed = names@.map_values(|n: &'static str| n@);
    proof {
        assert(listed =~= key_variables());
    }
    let yes = any_set(context, &names);
    proof {
        if yes {
            let i = choose|i: int|
                0 <= i < names@.len() && context.env@.contains_key(#[trigger] names@[i]@);
            assert(listed[i] == names@[i]@);
            assert(context.env@.contains_key(key_variables()[i]));
        } else if gives_key(*context) {
            let i = choose|i: int|
                0 <= i < key_variables().len() && context.env@.contains_key(
                    #[trigger] key_variables()[i],
                );
            assert(listed[i] == names@[i]@);
            assert(context.env@.contains_key(names@[i]@));
        }
    }
    yes
}

/// Whether the environment describes a provider.
fn has_provider(context: &ResolveContext) -> (yes: bool)
    ensures
        yes == gives_provider(*context),
{
    let entries = context.env.entries();
    let mut i: usize = 0;
    while i < entries.len()
        invariant
            i <= entries@.len(),
            string_map::entries_map(entries@) == context.env@,
            forall|j: int| 0 <= j < i ==> !describes_provider((#[trigger] entries@[j]).0@),
        decreases entries@.len() - i,
    {
        let name = entries[i].0.as_str();
        if text::starts_with(name, "SPACEBOT_PROVIDER_") || text::starts_with(
            name,
            "PROVIDER_",
        ) || (
        text::contains(name, "PROVIDER") && text::contains(name, "API_KEY")) {
            proof {
                string_map::lemma_entry_is_in_map(entries@, i as int);
                assert(context.env@.contains_key(name@) && describes_provider(name@));
            }
            return true;
        }
        i += 1;
    }
    proof {
        if gives_provider(*context) {
            let name = choose|name: Seq<char>| #[trigger]
                context.env@.contains_key(name) && describes_provider(name);
            string_map::lemma_key_is_in_entries(entries@, name);
            let at = choose|j: int| 0 <= j < entries@.len() && (#[trigger] entries@[j]).0@ == name;
            assert(describes_provider(entries@[at].0@));
        }
    }
    false
}

impl Config {
    /// Resolve the instance directory from env or default (~/.spacebot).
    pub fn default_instance_dir(context: &ResolveContext, home: Option<&str>) -> (dir: String)
        ensures
            dir@ == instance_dir_of(*context, crate::json::str_view(home)),
    {
        match context.env_var("SPACEBOT_DIR") {
            Some(dir) => dir,
            None => match home {
                Some(h) => path::join(h, ".spacebot"),
                None => "./.spacebot".to_owned(),
            },
        }
    }

    /// Check whether a first-run onboarding is needed (no config file and no env
    /// keys/providers). Stored OAuth credentials count as configured.
    pub fn needs_onboarding(context: &ResolveContext, files: InstanceFiles) -> (yes: bool)
        ensures
            yes == (!files.config && !files.anthropic_credentials && !files.openai_credentials
                && !gives_key(*context) && !gives_provider(*context)),
    {
        if files.config {
            return false;
        }
        if files.anthropic_credentials || files.openai_credentials {
            return false;
        }
        if has_key(context) {
            return false;
        }
        !has_provider(context)
    }
}

/// A variable of the list that is not set has no value.
proof fn lemma_key_is_not_given(context: ResolveContext, i: int)
    requires
        !gives_key(context),
        0 <= i < key_variables().len(),
    ensures
        context.var(key_variables()[i]) is None,
{
    assert(!context.env@.contains_key(key_variables()[i]));
}

/// An environment that configures a model provider needs no onboarding: whatever key
/// or provider the environment alone gives, one of its variables counts as a key.
pub proof fn law_keys_of_the_environment_need_no_onboarding(context: ResolveContext)
    requires
        llm_load::llm_of_env(context).has_any(),
    ensures
        gives_key(context),
{
    if !gives_key(context) {
        let llm = llm_load::env_credentials(context);
        lemma_key_is_not_given(context, 0);
        lemma_key_is_not_given(context, 1);
        lemma_key_is_not_given(context, 3);
        lemma_key_is_not_given(context, 4);
        lemma_key_is_not_given(context, 5);
        lemma_key_is_not_given(context, 6);
        lemma_key_is_not_given(context, 7);
        lemma_key_is_not_given(context, 8);
        lemma_key_is_not_given(context, 9);
        lemma_key_is_not_given(context, 10);
        lemma_key_is_not_given(context, 11);
        lemma_key_is_not_given(context, 12);
        lemma_key_is_not_given(context, 13);
        lemma_key_is_not_given(context, 14);
        lemma_key_is_not_given(context, 15);
        lemma_key_is_not_given(context, 16);
        lemma_key_is_not_given(context, 17);
        lemma_key_is_not_given(context, 18);
        lemma_key_is_not_given(context, 19);
        lemma_key_is_not_given(context, 20);
        lemma_key_is_not_given(context, 21);
        lemma_key_is_not_given(context, 22);
        lemma_key_is_not_given(context, 23);
        llm_load::lemma_no_keys_give_no_providers(
            llm,
            llm_load::anthropic_base_url(context),
            llm_load::key_is_auth_token(context, None),
        );
    }
}

// ---------------------------------------------------------------------------
// The environment alone
// ---------------------------------------------------------------------------

/// Routing with one model for every process but the voice.
pub open spec fn with_model(routing: RoutingView, model: Seq<char>) -> RoutingView {
    RoutingView {
        channel: model,
        branch: model,
        worker: model,
        compactor: model,
        cortex: model,
        ..routing
    }
}

/// Routing with the models that the environment names.
pub open spec fn env_routing(context: ResolveContext, base: RoutingView) -> RoutingView {
    let general = match context.var("SPACEBOT_MODEL"@) {
        Some(model) => with_model(base, model),
        None => base,
    };
    let anthropic = match context.var("ANTHROPIC_MODEL"@) {
        Some(model) => with_model(general, "anthropic/"@ + model),
        None => general,
    };
    RoutingView {
        channel: agent::or_default(context.var("SPACEBOT_CHANNEL_MODEL"@), anthropic.channel),
        worker: agent::or_default(context.var("SPACEBOT_WORKER_MODEL"@), anthropic.worker),
        voice: agent::or_default(context.var("SPACEBOT_VOICE_MODEL"@), anthropic.voice),
        ..anthropic
    }
}

/// Sets one model for every process but the voice.
fn set_model(routing: &mut RoutingConfig, model: String)
    ensures
        final(routing)@ == with_model(old(routing)@, model@),
{
    routing.channel = model.clone();
    routing.branch = model.clone();
    routing.worker = model.clone();
    routing.compactor = model.clone();
    routing.cortex = model;
}

/// Sets the models that the environment names.
pub fn override_routing_from_env(context: &ResolveContext, routing: RoutingConfig) -> (changed:
    RoutingConfig)
    ensures
        changed@ == env_routing(*context, routing@),
{
    let mut changed = routing;
    if let Some(model) = context.env_var("SPACEBOT_MODEL") {
        set_model(&mut changed, model);
    }
    if let Some(model) = context.env_var("ANTHROPIC_MODEL") {
        set_model(&mut changed, text::concat("anthropic/", model.as_str()));
    }
    if let Some(model) = context.env_var("SPACEBOT_CHANNEL_MODEL") {
        changed.channel = model;
    }
    if let Some(model) = context.env_var("SPACEBOT_WORKER_MODEL") {
        changed.worker = model;
    }
    if let Some(model) = context.env_var("SPACEBOT_VOICE_MODEL") {
        changed.voice = model;
    }
    changed
}

/// The default settings of an instance without a file.
pub open spec fn env_defaults(
    modules: ModuleDefaultsView,
    instance_dir: Seq<char>,
) -> DefaultsView {
    let base = DefaultsConfig::initial(modules);
    DefaultsView {
        browser: BrowserView {
            chrome_cache_dir: path::joined(instance_dir, "chrome_cache"@),
            ..base.browser
        },
        ..base
    }
}

/// The configuration of the environment alone, or why it is refused, with its
/// providers, the routing taken from them, and the address that the HTTP API is bound to.
pub open spec fn config_of_env(
    instance_dir: Seq<char>,
    surroundings: Surroundings,
    llm: LlmView,
    inferred: Option<RoutingView>,
    api_bind: Seq<char>,
) -> Result<ConfigView, ConfigErrorView> {
    let context = surroundings.context;
    let modules = surroundings.modules@;
    match load::telemetry_of(context, None, None, None, None) {
        Err(refusal) => Err(refusal),
        Ok(telemetry) => Ok(
            ConfigView {
                instance_dir,
                llm,
                defaults: env_defaults(modules, instance_dir),
                agents: seq![
                    AgentView {
                        routing: Some(
                            env_routing(context, agent::or_default(inferred, modules.routing)),
                        ),
                        ..AgentConfig::bare("main"@, true)
                    },
                ],
                links: seq![load::administrator_link("main"@)],
                groups: Seq::empty(),
                humans: seq![load::administrator(surroundings.human_texts)],
                messaging: MessagingView {
                    discord: None,
                    slack: None,
                    telegram: None,
                    email: None,
                    webhook: None,
                    twitch: None,
                    signal: None,
                },
                bindings: Seq::empty(),
                api: ApiView {
                    enabled: true,
                    port: 19898,
                    bind: api_bind,
                    auth_token: None,
                },
                metrics: MetricsView { enabled: false, port: 9090, bind: "0.0.0.0"@ },
                telemetry,
            },
        ),
    }
}

/// The configuration of the environment with some routing taken from the providers, and
/// with the address that the host has for the usual one.
pub open spec fn is_config_of_env<F: Fn(&str) -> RoutingConfig, G: Fn(&str) -> String>(
    instance_dir: Seq<char>,
    surroundings: Surroundings,
    defaults_for_provider: F,
    hosted_api_bind: G,
    inferred: Option<RoutingConfig>,
    api_bind: String,
    result: Result<ConfigView, ConfigErrorView>,
) -> bool {
    let llm = llm_load::llm_of_env(surroundings.context);
    &&& load::may_infer(llm, defaults_for_provider, inferred)
    &&& load::is_hosted_address(hosted_api_bind, "127.0.0.1"@, api_bind)
    &&& result == config_of_env(
        instance_dir,
        surroundings,
        llm,
        views::optional(inferred),
        api_bind@,
    )
}

/// The default settings of an instance without a file.
fn make_env_defaults(modules: crate::config::agent::ModuleDefaults, instance_dir: &str) -> (
defaults: DefaultsConfig)
    ensures
        defaults@ == env_defaults(modules@, instance_dir@),
{
    let mut defaults = DefaultsConfig::starting(modules);
    defaults.browser.chrome_cache_dir = path::join(instance_dir, "chrome_cache");
    defaults
}

/// The one agent of an instance without a file.
fn env_agents(routing: RoutingConfig) -> (agents: Vec<AgentConfig>)
    ensures
        views::list(agents@) == seq![
            AgentView { routing: Some(routing@), ..AgentConfig::bare("main"@, true) },
        ],
{
    let mut main = AgentConfig::main();
    main.routing = Some(routing);
    let mut agents: Vec<AgentConfig> = Vec::new();
    agents.push(main);
    proof {
        assert(views::list(agents@) =~= seq![
            AgentView { routing: Some(routing@), ..AgentConfig::bare("main"@, true) },
        ]);
    }
    agents
}

impl Config {
    /// Puts a configuration together from the environment alone, its providers, the
    /// routing taken from them, and the address that the HTTP API is bound to.
    pub fn from_env(
        instance_dir: String,
        surroundings: Surroundings,
        llm: LlmConfig,
        inferred: Option<RoutingConfig>,
        api_bind: String,
    ) -> (result: Result<Config, ConfigError>)
        ensures
            load::config_result(result) == config_of_env(
                instance_dir@,
                surroundings,
                llm@,
                views::optional(inferred),
                api_bind@,
            ),
    {
        let context = &surroundings.context;
        let telemetry = match load::telemetry_from_toml(
            context,
            TomlTelemetryConfig {
                otlp_endpoint: None,
                otlp_headers: None,
                service_name: None,
                sample_rate: None,
            },
        ) {
            Ok(telemetry) => telemetry,
            Err(refusal) => {
                return Err(refusal);
            },
        };
        let base = match inferred {
            Some(routing) => routing,
            None => surroundings.modules.routing.duplicate(),
        };
        let agents = env_agents(override_routing_from_env(context, base));
        let (links, humans) = load::administrator_and_link(&surroundings.human_texts, "main");
        let groups: Vec<crate::config::load::GroupDef> = Vec::new();
        let bindings: Vec<Binding> = Vec::new();
        proof {
            assert(views::list(groups@) =~= Seq::empty());
            assert(views::list(bindings@) =~= Seq::empty());
        }
        let mut api = ApiConfig::default();
        api.bind = api_bind;
        let defaults = make_env_defaults(surroundings.modules, instance_dir.as_str());
        Ok(
            Config {
                instance_dir,
                llm,
                defaults,
                agents,
                links,
                groups,
                humans,
                messaging: MessagingConfig::default(),
                bindings,
                api,
                metrics: MetricsConfig::default(),
                telemetry,
            },
        )
    }

    /// Load from environment variables only (no config file). Routing is what
    /// `defaults_for_provider` gives for a configured provider, with the models that
    /// the environment names, and the HTTP API is bound to what `hosted_api_bind` gives
    /// for the usual address.
    pub fn load_from_env<F: Fn(&str) -> RoutingConfig, G: Fn(&str) -> String>(
        instance_dir: String,
        surroundings: Surroundings,
        defaults_for_provider: &F,
        hosted_api_bind: &G,
    ) -> (result: Result<Config, ConfigError>)
        requires
            forall|name: &str| #[trigger] call_requires(*defaults_for_provider, (name,)),
            forall|bind: &str| #[trigger] call_requires(*hosted_api_bind, (bind,)),
        ensures
            exists|inferred: Option<RoutingConfig>, api_bind: String| #[trigger]
                is_config_of_env(
                    instance_dir@,
                    surroundings,
                    *defaults_for_provider,
                    *hosted_api_bind,
                    inferred,
                    api_bind,
                    load::config_result(result),
                ),
    {
        let llm = llm_load::llm_from_env(&surroundings.context);
        let inferred = load::infer_routing(&llm, defaults_for_provider);
        let usual = ApiConfig::default();
        let api_bind = load::host_address(hosted_api_bind, usual.bind.as_str());
        let result = Config::from_env(instance_dir, surroundings, llm, inferred, api_bind);
        proof {
            assert(is_config_of_env(
                instance_dir@,
                surroundings,
                *defaults_for_provider,
                *hosted_api_bind,
                inferred,
                api_bind,
                load::config_result(result),
            ));
        }
        result
    }
}

// ---------------------------------------------------------------------------
// Keys that are not known
// ---------------------------------------------------------------------------

/// The keys at the top of a TOML text, where it can be read as `toml::Table`.
pub uninterp spec fn toml_keys(content: Seq<char>) -> Option<Seq<Seq<char>>>;

/// `str::parse` into a `toml::Table`, and the keys of the table in the table's order.
/// They depend on the text alone.
#[verifier::external_body]
fn top_level_keys(content: &str) -> (keys: Option<Vec<String>>)
    ensures
        (match keys {
            Some(list) => Some(text::views(list@)),
            None => None,
        }) == toml_keys(content@),
{
    content.parse::<toml::Table>().ok().map(|table| table.keys().cloned().collect())
}

/// The keys that a configuration file has at its top.
pub open spec fn known_keys() -> Seq<Seq<char>> {
    seq![
        "llm"@,
        "defaults"@,
        "agents"@,
        "links"@,
        "groups"@,
        "humans"@,
        "messaging"@,
        "bindings"@,
        "api"@,
        "metrics"@,
        "telemetry"@,
    ]
}

/// The warning about a key that is not known, where it is not. One that is meant for
/// MCP servers gets a hint.
pub open spec fn key_warning(key: Seq<char>) -> Option<Seq<char>> {
    if known_keys().contains(key) {
        None
    } else if key == "mcp_servers"@ || key == "mcp"@ {
        Some(
            "config.toml contains top-level key `"@ + key
                + "` which is not recognised and will be ignored. MCP servers should be defined under [defaults] as [[defaults.mcp]] (or per-agent under [[agents.mcp]]). See docs/design-docs/mcp.md for the correct format."@,
        )
    } else {
        Some(
            "config.toml contains unknown top-level key `"@ + key
                + "` — it will be silently ignored by the parser. Check for typos or consult the configuration reference."@,
        )
    }
}

/// The warnings about the keys that are not known, in order.
pub open spec fn key_warnings(keys: Seq<Seq<char>>) -> Seq<Seq<char>>
    decreases keys.len(),
{
    if keys.len() == 0 {
        Seq::empty()
    } else {
        match key_warning(keys.last()) {
            Some(warning) => key_warnings(keys.drop_last()).push(warning),
            None => key_warnings(keys.drop_last()),
        }
    }
}

/// Whether a key is one that a configuration file has at its top.
fn is_known_key(key: &str) -> (yes: bool)
    ensures
        yes == known_keys().contains(key@),
{
    let mut names: Vec<String> = Vec::new();
    names.push("llm".to_owned());
    names.push("defaults".to_owned());
    names.push("agents".to_owned());
    names.push("links".to_owned());
    names.push("groups".to_owned());
    names.push("humans".to_owned());
    names.push("messaging".to_owned());
    names.push("bindings".to_owned());
    names.push("api".to_owned());
    names.push("metrics".to_owned());
    names.push("telemetry".to_owned());
    proof {
        assert(text::views(names@) =~= known_keys());
    }
    text::list_has(&names, key)
}

/// Says which of the keys at the top of a file are not known.
pub fn warn_unknown_keys(keys: &Vec<String>) -> (warnings: Vec<String>)
    ensures
        text::views(warnings@) == key_warnings(text::views(keys@)),
{
    let ghost all = text::views(keys@);
    let mut warnings: Vec<String> = Vec::new();
    proof {
        assert(all.subrange(0, 0) =~= Seq::empty());
        assert(text::views(warnings@) =~= Seq::empty());
    }
    let mut i: usize = 0;
    while i < keys.len()
        invariant
            i <= keys@.len(),
            all == text::views(keys@),
            text::views(warnings@) == key_warnings(all.subrange(0, i as int)),
        decreases keys@.len() - i,
    {
        let key = keys[i].as_str();
        proof {
            let next = all.subrange(0, i as int + 1);
            assert(next.drop_last() =~= all.subrange(0, i as int));
            assert(next.last() == key@);
        }
        if !is_known_key(key) {
            let warning = if text::same(key, "mcp_servers") || text::same(key, "mcp") {
                crate::config::error::quoted(
                    "config.toml contains top-level key `",
                    key,
                    "` which is not recognised and will be ignored. MCP servers should be defined under [defaults] as [[defaults.mcp]] (or per-agent under [[agents.mcp]]). See docs/design-docs/mcp.md for the correct format.",
                )
            } else {
                crate::config::error::quoted(
                    "config.toml contains unknown top-level key `",
                    key,
                    "` — it will be silently ignored by the parser. Check for typos or consult the configuration reference.",
                )
            };
            proof {
                assert(text::views(warnings@.push(warning)) =~= text::views(warnings@).push(
                    warning@,
                ));
            }
            warnings.push(warning);
        }
        i += 1;
    }
    proof {
        assert(all.subrange(0, all.len() as int) =~= all);
    }
    warnings
}

/// Says which of the keys at the top of a configuration file are not known. A text
/// that cannot be read gives no warning: reading it for good says what is wrong.
pub fn warn_unknown_config_keys(content: &str) -> (warnings: Vec<String>)
    ensures
        text::views(warnings@) == (match toml_keys(content@) {
            Some(keys) => key_warnings(keys),
            None => Seq::empty(),
        }),
{
    match top_level_keys(content) {
        Some(keys) => warn_unknown_keys(&keys),
        None => {
            let warnings: Vec<String> = Vec::new();
            proof {
                assert(text::views(warnings@) =~= Seq::empty());
            }
            warnings
        },
    }
}

} // verus!
