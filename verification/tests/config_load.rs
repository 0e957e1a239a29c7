//! Configurations from files and from the environment.
use spacebot::config::agent::{ModuleDefaults, SandboxConfig};
use spacebot::config::error::{ConfigError, Double};
use spacebot::config::llm_load::{llm_from_env, llm_from_toml, validate_provider};
use spacebot::config::load::{
    human_md_path, load_human_md, parse_otlp_headers, Config, Surroundings,
};
use spacebot::config::messaging_load::{discord_from_toml, signal_instance_from_toml};
use spacebot::config::provider::{ApiType, LlmConfig};
use spacebot::config::providers::{
    add_shorthand_provider, default_provider_config, infer_routing_from_providers,
    openrouter_extra_headers, resolve_routing,
};
use spacebot::config::redact::Shown;
use spacebot::config::resolve::ResolveContext;
use spacebot::config::secrets::SystemSecrets;
use spacebot::config::settings::{OpenCodePermissions, WorkerLogMode};
use spacebot::config::startup::{warn_unknown_config_keys, InstanceFiles};
use spacebot::config::toml_schema::{
    TomlAgentConfig, TomlApiConfig, TomlBinding, TomlConfig, TomlDefaultsConfig,
    TomlDiscordConfig, TomlDiscordInstanceConfig, TomlHumanDef, TomlLinkDef, TomlLlmConfig,
    TomlMessagingConfig, TomlMetricsConfig, TomlProviderConfig, TomlRoutingConfig,
    TomlSignalInstanceConfig, TomlTelemetryConfig,
};
use spacebot::json::Json;
use spacebot::llm::routing::RoutingConfig;
use spacebot::string_map::StringMap;

fn context(variables: &[(&str, &str)]) -> ResolveContext {
    let mut env = StringMap::new();
    for (name, value) in variables {
        env.insert(name.to_string(), value.to_string());
    }
    ResolveContext { env, secrets: None }
}

fn routing(model: &str) -> RoutingConfig {
    RoutingConfig {
        channel: model.to_string(),
        branch: model.to_string(),
        worker: model.to_string(),
        compactor: model.to_string(),
        cortex: model.to_string(),
        voice: String::new(),
        task_overrides: StringMap::new(),
        fallbacks: StringMap::new(),
        rate_limit_cooldown_secs: 60,
        channel_thinking_effort: "auto".to_string(),
        branch_thinking_effort: "auto".to_string(),
        worker_thinking_effort: "auto".to_string(),
        compactor_thinking_effort: "auto".to_string(),
        cortex_thinking_effort: "auto".to_string(),
    }
}

fn surroundings(context: ResolveContext) -> Surroundings {
    Surroundings {
        context,
        human_texts: StringMap::new(),
        modules: ModuleDefaults {
            routing: routing("anthropic/base"),
            permissions: OpenCodePermissions {
                edit: "allow".to_string(),
                bash: "allow".to_string(),
                webfetch: "allow".to_string(),
            },
            worker_log_mode: WorkerLogMode::ErrorsOnly,
        },
    }
}

fn defaults_for_provider(name: &str) -> RoutingConfig {
    routing(&format!("{name}/usual"))
}

fn hosted_api_bind(bind: &str) -> String {
    format!("[{bind}]")
}

fn no_llm() -> TomlLlmConfig {
    TomlLlmConfig {
        anthropic_key: None,
        openai_key: None,
        openrouter_key: None,
        kilo_key: None,
        zhipu_key: None,
        groq_key: None,
        together_key: None,
        fireworks_key: None,
        deepseek_key: None,
        xai_key: None,
        mistral_key: None,
        gemini_key: None,
        ollama_key: None,
        ollama_base_url: None,
        opencode_zen_key: None,
        opencode_go_key: None,
        nvidia_key: None,
        minimax_key: None,
        minimax_cn_key: None,
        moonshot_key: None,
        zai_coding_plan_key: None,
        github_copilot_key: None,
        providers: Vec::new(),
    }
}

fn no_defaults() -> TomlDefaultsConfig {
    TomlDefaultsConfig {
        routing: None,
        max_concurrent_branches: None,
        max_concurrent_workers: None,
        max_turns: None,
        branch_max_turns: None,
        context_window: None,
        compaction: None,
        memory_persistence: None,
        coalesce: None,
        ingestion: None,
        cortex: None,
        warmup: None,
        browser: None,
        channel: None,
        mcp: Vec::new(),
        brave_search_key: None,
        cron_timezone: None,
        user_timezone: None,
        opencode: None,
        worker_log_mode: None,
        projects: None,
    }
}

fn agent(id: &str, default: bool) -> TomlAgentConfig {
    TomlAgentConfig {
        id: id.to_string(),
        default,
        display_name: None,
        role: None,
        gradient_start: None,
        gradient_end: None,
        workspace: None,
        routing: None,
        max_concurrent_branches: None,
        max_concurrent_workers: None,
        max_turns: None,
        branch_max_turns: None,
        context_window: None,
        compaction: None,
        memory_persistence: None,
        coalesce: None,
        ingestion: None,
        cortex: None,
        warmup: None,
        browser: None,
        channel: None,
        mcp: None,
        brave_search_key: None,
        cron_timezone: None,
        user_timezone: None,
        sandbox: None,
        projects: None,
        cron: Vec::new(),
    }
}

fn no_messaging() -> TomlMessagingConfig {
    TomlMessagingConfig {
        discord: None,
        slack: None,
        telegram: None,
        email: None,
        webhook: None,
        twitch: None,
        signal: None,
    }
}

fn file() -> TomlConfig {
    TomlConfig {
        llm: no_llm(),
        defaults: no_defaults(),
        agents: Vec::new(),
        links: Vec::new(),
        groups: Vec::new(),
        humans: Vec::new(),
        messaging: no_messaging(),
        bindings: Vec::new(),
        api: TomlApiConfig {
            enabled: true,
            port: 19898,
            bind: "127.0.0.1".to_string(),
            auth_token: None,
        },
        metrics: TomlMetricsConfig { enabled: false, port: 9090, bind: "0.0.0.0".to_string() },
        telemetry: TomlTelemetryConfig {
            otlp_endpoint: None,
            otlp_headers: None,
            service_name: None,
            sample_rate: None,
        },
    }
}

fn load(toml: TomlConfig, context: ResolveContext) -> Result<Config, ConfigError> {
    Config::from_toml(
        toml,
        "/inst".to_string(),
        surroundings(context),
        &defaults_for_provider,
        &hosted_api_bind,
    )
}

fn provider_section(base_url: &str, api_key: &str) -> TomlProviderConfig {
    TomlProviderConfig {
        api_type: ApiType::OpenAiCompletions,
        base_url: base_url.to_string(),
        api_key: api_key.to_string(),
        name: None,
    }
}

#[test]
fn an_empty_file_has_a_main_agent() {
    let config = load(file(), context(&[])).ok().expect("a configuration");
    assert_eq!(config.agents.len(), 1);
    assert_eq!(config.default_agent_id(), "main");
    assert_eq!(config.skills_dir(), "/inst/skills");
    assert_eq!(config.defaults.routing.channel, "anthropic/base");
    assert_eq!(config.defaults.browser.chrome_cache_dir, "/inst/chrome_cache");
    assert_eq!(config.humans.len(), 1);
    assert_eq!(config.humans[0].id, "admin");
    assert_eq!(config.links.len(), 1);
    assert_eq!(
        (config.links[0].from.as_str(), config.links[0].to.as_str()),
        ("admin", "main")
    );
    assert!(!config.llm.has_any_key());
    assert_eq!(config.telemetry.service_name, "spacebot");
    assert_eq!(config.telemetry.sample_rate, Double { bits: 1.0f64.to_bits() });
}

#[test]
fn a_file_without_a_default_agent_gets_one() {
    let mut toml = file();
    toml.agents.push(agent("a", false));
    toml.agents.push(agent("b", false));
    let config = load(toml, context(&[])).ok().expect("a configuration");
    assert_eq!(config.default_agent_id(), "a");
    let mut toml = file();
    toml.agents.push(agent("a", false));
    toml.agents.push(agent("b", true));
    let config = load(toml, context(&[])).ok().expect("a configuration");
    assert_eq!(config.default_agent_id(), "b");
}

#[test]
fn agents_inherit_the_defaults() {
    let mut toml = file();
    toml.defaults.max_turns = Some(9);
    let mut own = agent("a", true);
    own.branch_max_turns = Some(3);
    own.workspace = Some("/elsewhere".to_string());
    toml.agents.push(own);
    let config = load(toml, context(&[])).ok().expect("a configuration");
    let sandbox = SandboxConfig { settings: Json::Null };
    let resolved = config.resolve_agents(&context(&[]), &sandbox);
    assert_eq!(resolved.len(), 1);
    assert_eq!(resolved[0].max_turns, 9);
    assert_eq!(resolved[0].branch_max_turns, 3);
    assert_eq!(resolved[0].workspace, "/elsewhere");
    assert_eq!(resolved[0].data_dir, "/inst/agents/a/data");
    assert_eq!(resolved[0].sqlite_path(), "/inst/agents/a/data/spacebot.db");
    assert_eq!(resolved[0].lancedb_path(), "/inst/agents/a/data/lancedb");
    assert_eq!(resolved[0].redb_path(), "/inst/agents/a/data/config.redb");
    assert_eq!(resolved[0].logs_dir(), "/inst/agents/a/data/logs");
    assert_eq!(resolved[0].skills_dir(), "/elsewhere/skills");
    assert_eq!(resolved[0].ingest_dir(), "/elsewhere/ingest");
    assert_eq!(resolved[0].saved_dir(), "/elsewhere/saved");
}

#[test]
fn a_key_gives_a_provider_and_its_routing() {
    let mut toml = file();
    toml.llm.openai_key = Some("env:MY_KEY".to_string());
    let config = load(toml, context(&[("MY_KEY", "k")])).ok().expect("a configuration");
    let provider = config.llm.providers.get("openai").expect("a provider");
    assert_eq!(provider.api_key, "k");
    assert_eq!(provider.base_url, "https://api.openai.com");
    assert_eq!(config.defaults.routing.channel, "openai/usual");
    assert!(config.llm.has_any_key());
}

#[test]
fn a_described_provider_is_kept() {
    let mut toml = file();
    toml.llm.openai_key = Some("k".to_string());
    toml.llm
        .providers
        .push(("OpenAI".to_string(), provider_section("https://proxy.test", "own")));
    let config = load(toml, context(&[])).ok().expect("a configuration");
    let provider = config.llm.providers.get("openai").expect("a provider");
    assert_eq!(provider.base_url, "https://proxy.test");
    assert_eq!(provider.api_key, "own");
}

#[test]
fn a_loaded_configuration_is_in_order() {
    let mut toml = file();
    toml.api.bind = "0.0.0.0".to_string();
    toml.llm.providers.push(("My-Proxy".to_string(), provider_section("https://p.test", "k")));
    toml.llm.groq_key = Some("g".to_string());
    let mut binding = to_discord(Some("  "));
    binding.channel = "webchat".to_string();
    toml.bindings.push(binding);
    let config = load(toml, context(&[])).ok().expect("a configuration");
    assert_eq!(config.api.bind, "[0.0.0.0]");
    assert!(config.llm.providers.contains_key("my-proxy"));
    assert!(!config.llm.providers.contains_key("My-Proxy"));
    for (id, _) in config.llm.providers.entries() {
        assert_eq!(*id, id.to_lowercase());
    }
    assert_eq!(config.bindings[0].adapter, None);
    for id in ["", "a b", "a/b"] {
        let mut toml = file();
        toml.llm.providers.push((id.to_string(), provider_section("https://p.test", "k")));
        assert!(load(toml, context(&[])).is_err());
    }
}

#[test]
fn providers_are_checked() {
    let id = "x".repeat(65);
    assert_eq!(
        validate_provider(&id, &provider_section("https://x.test", "k")),
        Err(ConfigError::Invalid(format!(
            "Provider ID '{id}' must be between 1 and 64 characters long"
        )))
    );
    assert_eq!(
        validate_provider("a/b", &provider_section("https://x.test", "k")),
        Err(ConfigError::Invalid(
            "Provider ID 'a/b' contains invalid characters (cannot contain '/' or whitespace)"
                .to_string()
        ))
    );
    assert_eq!(
        validate_provider("a", &provider_section("no url", "k")),
        Err(ConfigError::Invalid(
            "Invalid base URL 'no url' for provider 'a': relative URL without a base".to_string()
        ))
    );
    assert_eq!(validate_provider("a", &provider_section("https://x.test", "k")), Ok(()));
    let mut llm = no_llm();
    llm.providers.push(("a".to_string(), provider_section("https://x.test", "env:NOPE")));
    assert!(matches!(
        llm_from_toml(&context(&[]), llm),
        Err(ConfigError::Unresolved(text))
            if text == "failed to resolve API key for provider 'a'"
    ));
}

#[test]
fn keys_come_from_the_environment() {
    let llm = llm_from_env(&context(&[
        ("ANTHROPIC_AUTH_TOKEN", "token"),
        ("OPENROUTER_API_KEY", "k"),
        ("OLLAMA_BASE_URL", "http://box:11434"),
    ]));
    let anthropic = llm.providers.get("anthropic").expect("a provider");
    assert!(anthropic.use_proxy_api_key);
    assert_eq!(anthropic.api_key, "token");
    let openrouter = llm.providers.get("openrouter").expect("a provider");
    assert_eq!(openrouter.extra_headers, openrouter_extra_headers());
    assert_eq!(llm.providers.get("ollama").expect("a provider").base_url, "http://box:11434");
}

#[test]
fn known_providers_have_defaults() {
    let kimi = default_provider_config("moonshot", "k".to_string()).expect("known");
    assert_eq!(kimi.base_url, "https://api.moonshot.ai");
    let plan = default_provider_config("zai-coding-plan", "k".to_string()).expect("known");
    assert_eq!(plan.name, Some("Z.AI Coding Plan".to_string()));
    assert_eq!(plan.api_type, ApiType::OpenAiChatCompletions);
    assert!(default_provider_config("nobody", "k".to_string()).is_none());
    assert!(default_provider_config("github-copilot", "k".to_string()).is_none());
}

#[test]
fn a_shorthand_does_not_replace_a_provider() {
    let mut providers = StringMap::new();
    for key in [Some("first".to_string()), Some("second".to_string()), None] {
        add_shorthand_provider(
            &mut providers,
            "groq",
            key,
            ApiType::OpenAiCompletions,
            "https://api.groq.com/openai",
            None,
            false,
        );
    }
    assert_eq!(providers.get("groq").expect("a provider").api_key, "first");
    let inferred = infer_routing_from_providers(&providers, &defaults_for_provider);
    assert_eq!(inferred.expect("routing").channel, "groq/usual");
    assert!(infer_routing_from_providers(&StringMap::new(), &defaults_for_provider).is_none());
}

fn no_routing() -> TomlRoutingConfig {
    TomlRoutingConfig {
        channel: None,
        branch: None,
        worker: None,
        compactor: None,
        cortex: None,
        voice: None,
        task_overrides: StringMap::new(),
        fallbacks: None,
        rate_limit_cooldown_secs: None,
        channel_thinking_effort: None,
        branch_thinking_effort: None,
        worker_thinking_effort: None,
        compactor_thinking_effort: None,
        cortex_thinking_effort: None,
    }
}

#[test]
fn routing_is_overridden_field_by_field() {
    let base = routing("a/m");
    assert_eq!(resolve_routing(None, &base), routing("a/m"));
    let mut section = no_routing();
    section.worker = Some("b/w".to_string());
    let resolved = resolve_routing(Some(section), &base);
    assert_eq!(resolved.worker, "b/w");
    assert_eq!(resolved.branch, "a/m");
}

fn discord_section(token: Option<&str>) -> TomlDiscordConfig {
    TomlDiscordConfig {
        enabled: true,
        token: token.map(|t| t.to_string()),
        instances: Vec::new(),
        dm_allowed_users: Vec::new(),
        allow_bot_messages: false,
    }
}

#[test]
fn platforms_need_their_credentials() {
    assert!(discord_from_toml(&context(&[]), discord_section(None)).is_none());
    let by_env = discord_from_toml(
        &context(&[("DISCORD_BOT_TOKEN", "env")]),
        discord_section(Some("file")),
    )
    .expect("a platform");
    assert_eq!(by_env.token, "env");
    let mut with_instance = discord_section(None);
    with_instance.instances.push(TomlDiscordInstanceConfig {
        name: "ops".to_string(),
        enabled: true,
        token: Some("env:NOPE".to_string()),
        dm_allowed_users: Vec::new(),
        allow_bot_messages: false,
    });
    let config = discord_from_toml(&context(&[]), with_instance).expect("a platform");
    assert_eq!(config.token, "");
    assert!(!config.instances[0].enabled);
}

fn to_discord(adapter: Option<&str>) -> TomlBinding {
    TomlBinding {
        agent_id: "main".to_string(),
        channel: "discord".to_string(),
        adapter: adapter.map(str::to_string),
        guild_id: None,
        workspace_id: None,
        chat_id: None,
        channel_ids: Vec::new(),
        require_mention: false,
        dm_allowed_users: Vec::new(),
    }
}

#[test]
fn a_binding_to_nothing_is_refused() {
    let mut toml = file();
    toml.bindings.push(to_discord(Some("ops")));
    assert!(load(toml, context(&[])).is_err());
}

#[test]
fn humans_and_links_are_read() {
    let mut toml = file();
    toml.humans.push(TomlHumanDef {
        id: "ann".to_string(),
        display_name: Some("Ann".to_string()),
        role: None,
        bio: None,
        discord_id: None,
        telegram_id: None,
        slack_id: None,
        email: None,
    });
    toml.links.push(TomlLinkDef {
        from: "ann".to_string(),
        to: "main".to_string(),
        direction: "two_way".to_string(),
        kind: "peer".to_string(),
        relationship: Some("hierarchical".to_string()),
    });
    let mut around = surroundings(context(&[]));
    around.human_texts.insert("ann".to_string(), "# Ann\n".to_string());
    let config = Config::from_toml(
        toml,
        "/inst".to_string(),
        around,
        &defaults_for_provider,
        &hosted_api_bind,
    )
    .ok()
    .expect("a configuration");
    assert_eq!(config.humans.len(), 1);
    assert_eq!(config.links[0].kind, "hierarchical");
    assert_eq!(human_md_path("/inst", "ann"), "/inst/humans/ann/HUMAN.md");
    let mut texts = StringMap::new();
    texts.insert("ann".to_string(), " text ".to_string());
    texts.insert("bob".to_string(), "  ".to_string());
    assert!(load_human_md(&texts, "ann").is_some());
    assert_eq!(load_human_md(&texts, "bob"), None);
    assert_eq!(load_human_md(&texts, "eve"), None);
}

#[test]
fn telemetry_headers_are_read() {
    let headers = parse_otlp_headers(Some(" a = 1, ,b=2=3".to_string())).expect("headers");
    assert_eq!(headers.get("a"), Some(&"1".to_string()));
    assert_eq!(headers.get("b"), Some(&"2=3".to_string()));
    assert!(parse_otlp_headers(None).expect("none").is_empty());
    assert_eq!(
        parse_otlp_headers(Some("a".to_string())).err(),
        Some(ConfigError::Invalid(
            "invalid OTEL_EXPORTER_OTLP_HEADERS entry 'a', expected key=value".to_string()
        ))
    );
    assert_eq!(
        parse_otlp_headers(Some("=1".to_string())).err(),
        Some(ConfigError::Invalid(
            "invalid OTEL_EXPORTER_OTLP_HEADERS entry: empty header name".to_string()
        ))
    );
}

#[test]
fn the_endpoint_falls_back_to_the_environment() {
    let variables = [
        ("OTEL_EXPORTER_OTLP_ENDPOINT", "http://env:4318"),
        ("OTEL_SERVICE_NAME", "from-env"),
    ];
    let mut toml = file();
    toml.telemetry.otlp_endpoint = Some("http://file:4318".to_string());
    toml.telemetry.service_name = Some("from-file".to_string());
    let config = load(toml, context(&variables)).ok().expect("a configuration");
    assert_eq!(config.telemetry.otlp_endpoint, Some("http://file:4318".to_string()));
    assert_eq!(config.telemetry.service_name, "from-env");
    let config = load(file(), context(&variables)).ok().expect("a configuration");
    assert_eq!(config.telemetry.otlp_endpoint, Some("http://env:4318".to_string()));
    let config = load(file(), context(&[])).ok().expect("a configuration");
    assert_eq!(config.telemetry.otlp_endpoint, None);
}

#[test]
fn unknown_keys_are_told() {
    assert!(warn_unknown_config_keys("[llm]\n[[agents]]\nid = \"a\"\n").is_empty());
    let warnings = warn_unknown_config_keys("agent = 1\nmcp = 2\n");
    assert_eq!(warnings.len(), 2);
    assert!(warnings[0].contains("unknown top-level key `agent`"));
    assert!(warnings[1].contains("top-level key `mcp`"));
    assert!(warn_unknown_config_keys("not toml").is_empty());
}

#[test]
fn an_instance_without_keys_needs_onboarding() {
    let none =
        InstanceFiles { config: false, anthropic_credentials: false, openai_credentials: false };
    assert!(Config::needs_onboarding(&context(&[]), none));
    assert!(!Config::needs_onboarding(&context(&[("GROQ_API_KEY", "k")]), none));
    for name in ["GEMINI_API_KEY", "ANTHROPIC_AUTH_TOKEN", "GITHUB_COPILOT_API_KEY"] {
        assert!(!Config::needs_onboarding(&context(&[(name, "k")]), none));
    }
    assert!(Config::needs_onboarding(&context(&[("SPACEBOT_DIR", "/x")]), none));
    assert!(!Config::needs_onboarding(&context(&[("MY_PROVIDER_API_KEY", "k")]), none));
    let mut with_file = none;
    with_file.config = true;
    assert!(!Config::needs_onboarding(&context(&[]), with_file));
}

#[test]
fn the_instance_directory_is_found() {
    assert_eq!(
        Config::default_instance_dir(&context(&[("SPACEBOT_DIR", "/data")]), Some("/home/x")),
        "/data"
    );
    assert_eq!(
        Config::default_instance_dir(&context(&[]), Some("/home/x")),
        "/home/x/.spacebot"
    );
    assert_eq!(Config::default_instance_dir(&context(&[]), None), "./.spacebot");
}

#[test]
fn the_environment_alone_is_a_configuration() {
    let config = Config::load_from_env(
        "/inst".to_string(),
        surroundings(context(&[
            ("ANTHROPIC_API_KEY", "k"),
            ("SPACEBOT_WORKER_MODEL", "x/worker"),
        ])),
        &defaults_for_provider,
        &hosted_api_bind,
    )
    .ok()
    .expect("a configuration");
    assert_eq!(config.agents.len(), 1);
    let routing = config.agents[0].routing.as_ref().expect("a routing of its own");
    assert_eq!(routing.channel, "anthropic/usual");
    assert_eq!(routing.worker, "x/worker");
    assert_eq!(config.api.bind, "[127.0.0.1]");
}

#[test]
fn secrets_are_not_shown() {
    let config = discord_from_toml(&context(&[]), discord_section(Some("hush"))).expect("one");
    let shown = config.shown();
    let token = shown.fields.iter().find(|field| field.name == "token").expect("a field");
    assert_eq!(token.value, Shown::Redacted);
    let llm: LlmConfig = llm_from_env(&context(&[("OPENAI_API_KEY", "hush")]));
    let shown = llm.shown();
    assert!(shown.keys.openai_key && !shown.keys.groq_key);
    let text = format!("{shown:?}");
    assert!(!text.contains("hush"));
}

#[test]
fn secret_fields_are_listed() {
    assert_eq!(<LlmConfig as SystemSecrets>::section(), "llm");
    assert!(!<LlmConfig as SystemSecrets>::is_messaging_adapter());
    let fields = <LlmConfig as SystemSecrets>::secret_fields();
    let anthropic = fields
        .iter()
        .find(|field| field.toml_key == "anthropic_key")
        .expect("a field");
    assert_eq!(anthropic.secret_name, "ANTHROPIC_API_KEY");
    let fields = <spacebot::config::messaging::DiscordConfig as SystemSecrets>::secret_fields();
    assert_eq!(fields[0].toml_key, "token");
    assert!(fields[0].instance_pattern.is_some());
}

#[test]
fn a_signal_instance_needs_its_account() {
    let instance = |account: Option<&str>| {
        signal_instance_from_toml(
            &context(&[]),
            TomlSignalInstanceConfig {
                name: "s".to_string(),
                enabled: true,
                http_url: Some("http://localhost:8080".to_string()),
                account: account.map(|a| a.to_string()),
                dm_allowed_users: Vec::new(),
                group_ids: Vec::new(),
                group_allowed_users: Vec::new(),
                ignore_stories: true,
            },
        )
    };
    assert!(!instance(None).enabled);
    let enabled = instance(Some("+1"));
    assert!(enabled.enabled);
    let shown = enabled.shown();
    assert!(!format!("{shown:?}").contains("+1"));
}
