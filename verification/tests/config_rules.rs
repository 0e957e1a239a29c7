//! Routing of messages, adapters, servers, settings and readiness.
use spacebot::config::adapters::{
    build_adapter_validation_states, is_named_adapter_platform, validate_instance_names,
    validate_named_messaging_adapters, validate_runtime_keys,
};
use spacebot::config::agent::{
    normalize_timezone, resolve_cron_timezone, resolve_user_timezone,
};
use spacebot::config::binding::{
    binding_runtime_adapter_key, normalize_adapter, resolve_agent_for_message, Binding,
    InboundMessage,
};
use spacebot::config::error::{ConfigError, Single};
use spacebot::config::mcp::{
    parse_mcp_server_config, resolve_mcp_configs, McpServerConfig, McpTransport,
};
use spacebot::config::messaging::{DiscordConfig, DiscordInstanceConfig, MessagingConfig};
use spacebot::config::path::join;
use spacebot::config::readiness::{
    evaluate_work_readiness, WarmupState, WarmupStatus, WorkReadinessReason,
};
use spacebot::config::resolve::{resolve_env_value, set_resolve_secrets_store, ResolveContext};
use spacebot::config::settings::{
    parse_close_policy, resolve_close_policy, validate_unit_interval_f32, ApiConfig,
    BrowserConfig, ClosePolicy, CoalesceConfig, CompactionConfig, CortexConfig, IngestionConfig,
    MemoryPersistenceConfig, MetricsConfig, ProjectsConfig, WarmupConfig,
};
use spacebot::config::toml_schema::{TomlCortexConfig, TomlMcpServerConfig};
use spacebot::json::Json;
use spacebot::string_map::StringMap;

fn binding(agent: &str, channel: &str) -> Binding {
    Binding {
        agent_id: agent.to_string(),
        channel: channel.to_string(),
        adapter: None,
        guild_id: None,
        workspace_id: None,
        chat_id: None,
        channel_ids: Vec::new(),
        require_mention: false,
        dm_allowed_users: Vec::new(),
    }
}

fn message(source: &str, metadata: &str) -> InboundMessage {
    let mut map = StringMap::new();
    if let Json::Object(entries) = Json::parse(metadata).expect("valid JSON") {
        for (key, value) in entries {
            map.insert(key, value);
        }
    }
    InboundMessage {
        source: source.to_string(),
        adapter: None,
        agent_id: None,
        sender_id: "u1".to_string(),
        metadata: map,
    }
}

fn context(variables: &[(&str, &str)]) -> ResolveContext {
    let mut env = StringMap::new();
    for (name, value) in variables {
        env.insert(name.to_string(), value.to_string());
    }
    ResolveContext { env, secrets: None }
}

fn invalid(text: &str) -> ConfigError {
    ConfigError::Invalid(text.to_string())
}

#[test]
fn the_first_matching_binding_decides() {
    let mut first = binding("a", "discord");
    first.guild_id = Some("7".to_string());
    first.require_mention = true;
    let bindings = vec![first, binding("b", "discord"), binding("c", "slack")];
    let in_guild = message("discord", r#"{"discord_guild_id": 7}"#);
    assert_eq!(resolve_agent_for_message(&bindings, &in_guild, "main"), None);
    let mentioned = message(
        "discord",
        r#"{"discord_guild_id": 7, "discord_mentions_or_replies_to_bot": true}"#,
    );
    assert_eq!(
        resolve_agent_for_message(&bindings, &mentioned, "main"),
        Some("a".to_string())
    );
    let elsewhere = message("discord", r#"{"discord_guild_id": 8}"#);
    assert_eq!(
        resolve_agent_for_message(&bindings, &elsewhere, "main"),
        Some("b".to_string())
    );
    let by_mail = message("email", "{}");
    assert_eq!(
        resolve_agent_for_message(&bindings, &by_mail, "main"),
        Some("main".to_string())
    );
}

#[test]
fn mentions_count_on_every_platform() {
    for platform in ["discord", "slack", "telegram", "twitch", "signal", "email"] {
        let mut asking = binding("a", platform);
        asking.require_mention = true;
        let said = |value: &str| {
            message(
                platform,
                &format!(
                    r#"{{"discord_guild_id": 7, "{platform}_mentions_or_replies_to_bot": {value}}}"#
                ),
            )
        };
        assert!(asking.passes_require_mention(&said("true")));
        assert!(!asking.passes_require_mention(&said("false")));
        assert!(!asking.passes_require_mention(&message(platform, r#"{"discord_guild_id": 7}"#)));
    }
}

#[test]
fn a_named_adapter_routes_only_its_messages() {
    let mut named = binding("a", "discord");
    named.adapter = Some("ops".to_string());
    assert_eq!(named.runtime_adapter_key(), "discord:ops");
    assert!(!named.uses_default_adapter());
    let mut through_ops = message("discord", r#"{"discord_guild_id": 7}"#);
    through_ops.adapter = Some("ops".to_string());
    assert!(named.matches_route(&through_ops));
    assert!(!named.matches_route(&message("discord", r#"{"discord_guild_id": 7}"#)));
    assert!(!binding("b", "discord").matches_route(&through_ops));
}

#[test]
fn adapter_selectors_are_normalized() {
    assert_eq!(normalize_adapter(Some("  ops ".to_string())), Some("ops".to_string()));
    assert_eq!(normalize_adapter(Some("  ".to_string())), None);
    assert_eq!(normalize_adapter(None), None);
    assert_eq!(binding_runtime_adapter_key("slack", Some("x")), "slack:x");
    assert_eq!(binding_runtime_adapter_key("slack", Some("")), "slack");
    assert_eq!(binding_runtime_adapter_key("slack", None), "slack");
}

#[test]
fn names_of_instances_are_checked() {
    let names = |list: &[&str]| list.iter().map(|name| name.to_string()).collect::<Vec<_>>();
    assert_eq!(
        validate_instance_names("slack", names(&["a", "b"])),
        Ok(names(&["a", "b"]))
    );
    assert_eq!(
        validate_instance_names("slack", names(&[""])),
        Err(invalid("messaging.slack.instances name can't be empty"))
    );
    assert_eq!(
        validate_instance_names("slack", names(&[" a"])),
        Err(invalid(
            "messaging.slack.instances name ' a' can't contain leading or trailing whitespace"
        ))
    );
    assert_eq!(
        validate_instance_names("slack", names(&["Default"])),
        Err(invalid("messaging.slack.instances name 'Default' is reserved"))
    );
    assert_eq!(
        validate_instance_names("slack", names(&["a:b"])),
        Err(invalid("messaging.slack.instances name 'a:b' can't contain ':'"))
    );
    assert_eq!(
        validate_instance_names("slack", names(&["a", "a"])),
        Err(invalid("messaging.slack.instances has duplicate name 'a'"))
    );
    assert_eq!(validate_runtime_keys("slack", true, &names(&["a", "b"])), Ok(()));
    assert_eq!(
        validate_runtime_keys("slack", true, &names(&["a", "a"])),
        Err(invalid("messaging.slack has duplicate runtime adapter key 'slack:a'"))
    );
    assert!(is_named_adapter_platform("discord") && !is_named_adapter_platform("webhook"));
}

fn discord(token: &str, instances: &[&str]) -> MessagingConfig {
    let mut messaging = MessagingConfig::default();
    messaging.discord = Some(DiscordConfig {
        enabled: true,
        token: token.to_string(),
        instances: instances
            .iter()
            .map(|name| DiscordInstanceConfig {
                name: name.to_string(),
                enabled: true,
                token: "t".to_string(),
                dm_allowed_users: Vec::new(),
                allow_bot_messages: false,
            })
            .collect(),
        dm_allowed_users: Vec::new(),
        allow_bot_messages: false,
    });
    messaging
}

#[test]
fn bindings_name_adapters_that_are() {
    let states = build_adapter_validation_states(&discord("", &["ops"])).expect("valid");
    let state = states.get("discord").expect("a state");
    assert!(!state.default_present);
    assert_eq!(state.named_instances, vec!["ops".to_string()]);

    let mut to_ops = binding("a", "discord");
    to_ops.adapter = Some("ops".to_string());
    assert_eq!(
        validate_named_messaging_adapters(&discord("t", &["ops"]), &vec![to_ops]),
        Ok(())
    );
    let mut to_none = binding("a", "discord");
    to_none.adapter = Some("nope".to_string());
    assert!(validate_named_messaging_adapters(&discord("t", &["ops"]), &vec![to_none]).is_err());
    assert!(validate_named_messaging_adapters(
        &discord("", &["ops"]),
        &vec![binding("a", "discord")]
    )
    .is_err());
}

fn raw_server(name: &str, transport: &str) -> TomlMcpServerConfig {
    TomlMcpServerConfig {
        name: name.to_string(),
        transport: transport.to_string(),
        enabled: true,
        command: None,
        args: Vec::new(),
        env: StringMap::new(),
        url: None,
        headers: StringMap::new(),
    }
}

fn stdio(name: &str, command: &str) -> McpServerConfig {
    let mut raw = raw_server(name, "stdio");
    raw.command = Some(command.to_string());
    parse_mcp_server_config(raw).expect("a server")
}

#[test]
fn servers_are_read() {
    assert_eq!(stdio("files", "mcp-files").transport.kind(), "stdio");
    let mut http = raw_server("web", "http");
    http.url = Some("https://x.test".to_string());
    let web = parse_mcp_server_config(http).expect("a server");
    assert_eq!(web.transport.kind(), "http");
    assert!(matches!(web.transport, McpTransport::Http { url, .. } if url == "https://x.test"));
    assert_eq!(
        parse_mcp_server_config(raw_server(" ", "stdio")),
        Err(invalid("mcp server name cannot be empty"))
    );
    assert_eq!(
        parse_mcp_server_config(raw_server("a", "stdio")),
        Err(invalid("mcp server 'a' with stdio transport requires 'command'"))
    );
    assert_eq!(
        parse_mcp_server_config(raw_server("a", "http")),
        Err(invalid("mcp server 'a' with http transport requires 'url'"))
    );
    assert_eq!(
        parse_mcp_server_config(raw_server("a", "ws")),
        Err(invalid("mcp server 'a' has invalid transport 'ws', expected 'stdio' or 'http'"))
    );
}

#[test]
fn an_agents_own_servers_win() {
    let defaults = vec![stdio("a", "default-a"), stdio("b", "default-b")];
    let own = Some(vec![stdio("b", "own-b"), stdio("c", "own-c")]);
    assert_eq!(
        resolve_mcp_configs(&defaults, &own),
        vec![stdio("a", "default-a"), stdio("b", "own-b"), stdio("c", "own-c")]
    );
    assert_eq!(resolve_mcp_configs(&defaults, &None), defaults);
}

fn single(value: f32) -> Single {
    Single { bits: value.to_bits() }
}

#[test]
fn settings_start_with_their_defaults() {
    let cortex = CortexConfig::default();
    assert_eq!(cortex.tick_interval_secs, 30);
    assert_eq!(cortex.maintenance_decay_rate, single(0.05));
    assert_eq!(cortex.maintenance_prune_threshold, single(0.1));
    assert_eq!(cortex.maintenance_merge_similarity_threshold, single(0.95));
    assert_eq!(cortex.association_similarity_threshold, single(0.85));
    assert_eq!(cortex.association_updates_threshold, single(0.95));
    let compaction = CompactionConfig::default();
    assert_eq!(compaction.background_threshold, single(0.80));
    assert_eq!(compaction.aggressive_threshold, single(0.85));
    assert_eq!(compaction.emergency_threshold, single(0.95));
    assert_eq!(MemoryPersistenceConfig::default().message_interval, 50);
    assert_eq!(CoalesceConfig::default().debounce_ms, 1500);
    assert_eq!(IngestionConfig::default().chunk_size, 4000);
    assert_eq!(BrowserConfig::default().chrome_cache_dir, "chrome_cache");
    assert_eq!(ProjectsConfig::default().worktree_name_template, "{branch}");
    assert_eq!(ApiConfig::default().port, 19898);
    assert_eq!(MetricsConfig::default().port, 9090);
}

#[test]
fn numbers_between_zero_and_one_are_told_from_others() {
    for value in [0.0, -0.0, 0.05, 0.5, 1.0] {
        assert_eq!(validate_unit_interval_f32("x", single(value)), Ok(()));
    }
    for value in [-0.1, 1.0001, f32::NAN, f32::INFINITY, f32::NEG_INFINITY] {
        assert_eq!(
            validate_unit_interval_f32("x", single(value)),
            Err(ConfigError::NotInUnitInterval { name: "x".to_string(), value: single(value) })
        );
    }
}

fn no_cortex() -> TomlCortexConfig {
    TomlCortexConfig {
        tick_interval_secs: None,
        worker_timeout_secs: None,
        branch_timeout_secs: None,
        detached_worker_timeout_retry_limit: None,
        supervisor_kill_budget_per_tick: None,
        circuit_breaker_threshold: None,
        bulletin_interval_secs: None,
        bulletin_max_words: None,
        bulletin_max_turns: None,
        maintenance_interval_secs: None,
        maintenance_decay_rate: None,
        maintenance_prune_threshold: None,
        maintenance_min_age_days: None,
        maintenance_merge_similarity_threshold: None,
        association_interval_secs: None,
        association_similarity_threshold: None,
        association_updates_threshold: None,
        association_max_per_pass: None,
    }
}

#[test]
fn cortex_settings_stay_in_bounds() {
    let mut section = no_cortex();
    section.tick_interval_secs = Some(7);
    let resolved = CortexConfig::resolve(section, CortexConfig::default()).expect("valid");
    assert_eq!(resolved.tick_interval_secs, 7);
    assert_eq!(resolved.worker_timeout_secs, CortexConfig::default().worker_timeout_secs);

    let mut section = no_cortex();
    section.maintenance_decay_rate = Some(single(1.5));
    assert!(matches!(
        CortexConfig::resolve(section, CortexConfig::default()),
        Err(ConfigError::NotInUnitInterval { name, .. }) if name == "maintenance_decay_rate"
    ));
    let mut section = no_cortex();
    section.maintenance_min_age_days = Some(-1);
    assert_eq!(
        CortexConfig::resolve(section, CortexConfig::default()).err(),
        Some(invalid("maintenance_min_age_days must be >= 0, got -1"))
    );
    let mut section = no_cortex();
    section.maintenance_interval_secs = Some(0);
    assert_eq!(
        CortexConfig::resolve(section, CortexConfig::default()).err(),
        Some(invalid("maintenance_interval_secs must be >= 1"))
    );
}

#[test]
fn close_policies_are_read() {
    for policy in [ClosePolicy::CloseBrowser, ClosePolicy::CloseTabs, ClosePolicy::Detach] {
        assert_eq!(parse_close_policy(Some(policy.as_str())), Some(policy));
    }
    assert_eq!(parse_close_policy(Some("stay")), None);
    assert_eq!(parse_close_policy(None), None);
    assert_eq!(
        resolve_close_policy(Some("detach"), false, ClosePolicy::CloseTabs),
        ClosePolicy::Detach
    );
    assert_eq!(
        resolve_close_policy(None, true, ClosePolicy::CloseBrowser),
        ClosePolicy::Detach
    );
    assert_eq!(
        resolve_close_policy(None, false, ClosePolicy::CloseTabs),
        ClosePolicy::CloseTabs
    );
}

fn warm(last_refresh_unix_ms: Option<i64>) -> WarmupStatus {
    WarmupStatus {
        state: WarmupState::Warm,
        embedding_ready: true,
        last_refresh_unix_ms,
        last_error: None,
        bulletin_age_secs: None,
    }
}

#[test]
fn an_agent_is_ready_when_warm_and_fresh() {
    let config = || WarmupConfig {
        enabled: true,
        eager_embedding_load: true,
        refresh_secs: 40,
        startup_delay_secs: 0,
    };
    let ready = evaluate_work_readiness(config(), warm(Some(1_000)), 81_999);
    assert!(ready.ready);
    assert_eq!(ready.bulletin_age_secs, Some(80));
    assert_eq!(ready.stale_after_secs, 80);
    let stale = evaluate_work_readiness(config(), warm(Some(1_000)), 82_000);
    assert_eq!(stale.reason, Some(WorkReadinessReason::BulletinStale));
    let missing = evaluate_work_readiness(config(), warm(None), 0);
    assert_eq!(missing.reason, Some(WorkReadinessReason::BulletinMissing));
    let mut without_embeddings = warm(Some(0));
    without_embeddings.embedding_ready = false;
    let waiting = evaluate_work_readiness(config(), without_embeddings, 0);
    assert_eq!(
        waiting.reason.map(|reason| reason.as_str()),
        Some("embedding_not_ready")
    );
    let cold = evaluate_work_readiness(config(), WarmupStatus::default(), 0);
    assert_eq!(cold.reason, Some(WorkReadinessReason::StateNotWarm));
    let mut short = config();
    short.refresh_secs = 0;
    assert_eq!(evaluate_work_readiness(short, warm(None), 0).stale_after_secs, 60);
    let mut long = config();
    long.refresh_secs = u64::MAX;
    assert_eq!(evaluate_work_readiness(long, warm(None), 0).stale_after_secs, u64::MAX);
}

#[test]
fn timezones_are_resolved_in_turn() {
    let env = context(&[
        ("SPACEBOT_CRON_TIMEZONE", "Europe/Paris"),
        ("SPACEBOT_USER_TIMEZONE", "Nowhere/Land"),
    ]);
    assert_eq!(normalize_timezone("  UTC "), Some("UTC".to_string()));
    assert_eq!(normalize_timezone("  "), None);
    assert_eq!(
        resolve_cron_timezone(&env, Some(" Asia/Tokyo "), None),
        Some("Asia/Tokyo".to_string())
    );
    assert_eq!(
        resolve_cron_timezone(&env, Some("Mars/Base"), None),
        Some("Europe/Paris".to_string())
    );
    assert_eq!(
        resolve_user_timezone(&env, None, None, Some("UTC")),
        Some("UTC".to_string())
    );
    assert_eq!(resolve_user_timezone(&env, None, None, None), None);
}

#[test]
fn references_are_resolved() {
    let mut env = context(&[("NAME", "value")]);
    assert_eq!(resolve_env_value(&env, "env:NAME"), Some("value".to_string()));
    assert_eq!(resolve_env_value(&env, "env:OTHER"), None);
    assert_eq!(resolve_env_value(&env, "plain"), Some("plain".to_string()));
    assert_eq!(resolve_env_value(&env, "secret:KEY"), None);
    let mut store = StringMap::new();
    store.insert("KEY".to_string(), "hidden".to_string());
    set_resolve_secrets_store(&mut env, store);
    assert_eq!(resolve_env_value(&env, "secret:KEY"), Some("hidden".to_string()));
}

#[test]
fn paths_are_joined() {
    assert_eq!(join("/a", "b"), "/a/b");
    assert_eq!(join("/a/", "b"), "/a/b");
    assert_eq!(join("/a", "/b"), "/b");
    assert_eq!(join("", "b"), "b");
}
