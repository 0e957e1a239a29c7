//! What a configuration file sets, and what comes of it: every setting of a file reaches
//! the configuration that is put together from it.
use crate::config::agent;
use crate::config::agent::{
    AgentView, CronView, DefaultsConfig, DefaultsView, ResolvedAgentView, SandboxView,
};
use crate::config::binding;
use crate::config::binding::BindingView;
use crate::config::error::{ConfigErrorView, Double, Single};
use crate::config::load;
use crate::config::load::{ConfigView, Surroundings};
use crate::config::mcp;
use crate::config::mcp::{McpView, TransportView};
use crate::config::path;
use crate::config::provider::LlmView;
use crate::config::providers;
use crate::config::resolve;
use crate::config::resolve::ResolveContext;
use crate::config::settings::{
    BrowserView, ChannelConfig, ClosePolicy, CoalesceConfig, CompactionConfig, CortexConfig,
    IngestionConfig, MemoryPersistenceConfig, OpenCodeView, PermissionsView, ProjectsView,
    WarmupConfig, WorkerLogMode,
};
use crate::config::toml_schema::{
    TomlAgentConfig, TomlConfig, TomlCortexConfig, TomlMcpServerConfig,
};
use crate::llm::routing::{RoutingConfig, RoutingView};
use crate::string_map;
use crate::text;
use crate::text_laws;
use crate::views;
use vstd::prelude::*;

verus! {

/// What a variable of the environment holds.
pub open spec fn env(context: ResolveContext, name: Seq<char>) -> Option<Seq<char>> {
    if context.env@.contains_key(name) {
        Some(context.env@[name]@)
    } else {
        None
    }
}

/// A configuration is what a file gives in its surroundings.
pub open spec fn comes_of(
    config: ConfigView,
    toml: TomlConfig,
    surroundings: Surroundings,
    llm: LlmView,
    inferred: Option<RoutingView>,
    api_bind: Seq<char>,
) -> bool {
    load::config_of_file(toml, config.instance_dir, surroundings, llm, inferred, api_bind) == Ok::<
        ConfigView,
        ConfigErrorView,
    >(config)
}

/// The agents that are read are those of the file, in order.
proof fn lemma_agents_of_file(
    context: ResolveContext,
    list: Seq<TomlAgentConfig>,
    defaults: DefaultsView,
    k: int,
)
    requires
        load::agents_of_file(context, list, defaults) is Ok,
        0 <= k < list.len(),
    ensures
        load::agents_of_file(context, list, defaults)->Ok_0.len() == list.len(),
        load::agent_of_file(context, list[k], defaults) == Ok::<AgentView, ConfigErrorView>(
            load::agents_of_file(context, list, defaults)->Ok_0[k],
        ),
    decreases list.len(),
{
    let rest = list.drop_last();
    if k < rest.len() {
        lemma_agents_of_file(context, rest, defaults, k);
    } else if rest.len() > 0 {
        lemma_agents_of_file(context, rest, defaults, 0);
    }
}

/// An agent of the configuration is read from its section; only the mark of the default
/// agent may be set besides.
proof fn lemma_agent_comes_of_its_section(
    config: ConfigView,
    toml: TomlConfig,
    surroundings: Surroundings,
    llm: LlmView,
    inferred: Option<RoutingView>,
    api_bind: Seq<char>,
    k: int,
) -> (own: AgentView)
    requires
        comes_of(config, toml, surroundings, llm, inferred, api_bind),
        0 <= k < toml.agents@.len(),
    ensures
        config.agents.len() == toml.agents@.len(),
        load::agent_of_file(surroundings.context, toml.agents@[k], config.defaults) == Ok::<
            AgentView,
            ConfigErrorView,
        >(own),
        config.agents[k] == (AgentView { default: config.agents[k].default, ..own }),
        own.default ==> config.agents[k].default,
{
    let own = load::agents_of_file(surroundings.context, toml.agents@, config.defaults)->Ok_0;
    lemma_agents_of_file(surroundings.context, toml.agents@, config.defaults, k);
    own[k]
}

/// An agent whose section names a model for a process uses that very model for that
/// process, whatever the defaults say; where the section leaves a model out, or is left out
/// itself, the agent uses the default one. Thinking efforts, the cooldown, the overrides
/// for kinds of tasks and the fallbacks follow the section in the same way.
pub proof fn law_agents_use_the_models_of_their_sections(
    config: ConfigView,
    toml: TomlConfig,
    surroundings: Surroundings,
    llm: LlmView,
    inferred: Option<RoutingView>,
    api_bind: Seq<char>,
    k: int,
    sandbox: SandboxView,
)
    requires
        comes_of(config, toml, surroundings, llm, inferred, api_bind),
        0 <= k < toml.agents@.len(),
    ensures
        ({
            let routing = config.agents[k].resolved(
                surroundings.context,
                config.instance_dir,
                config.defaults,
                sandbox,
            ).routing;
            let defaults = config.defaults.routing;
            &&& toml.agents@[k].routing is None ==> routing == defaults
            &&& toml.agents@[k].routing matches Some(section) ==> {
                &&& routing.channel == (match section.channel {
                    Some(name) => name@,
                    None => defaults.channel,
                })
                &&& routing.branch == (match section.branch {
                    Some(name) => name@,
                    None => defaults.branch,
                })
                &&& routing.worker == (match section.worker {
                    Some(name) => name@,
                    None => defaults.worker,
                })
                &&& routing.compactor == (match section.compactor {
                    Some(name) => name@,
                    None => defaults.compactor,
                })
                &&& routing.cortex == (match section.cortex {
                    Some(name) => name@,
                    None => defaults.cortex,
                })
                &&& routing.voice == (match section.voice {
                    Some(name) => name@,
                    None => defaults.voice,
                })
                &&& routing.channel_thinking_effort == (match section.channel_thinking_effort {
                    Some(name) => name@,
                    None => defaults.channel_thinking_effort,
                })
                &&& routing.branch_thinking_effort == (match section.branch_thinking_effort {
                    Some(name) => name@,
                    None => defaults.branch_thinking_effort,
                })
                &&& routing.worker_thinking_effort == (match section.worker_thinking_effort {
                    Some(name) => name@,
                    None => defaults.worker_thinking_effort,
                })
                &&& routing.compactor_thinking_effort == (match section.compactor_thinking_effort {
                    Some(name) => name@,
                    None => defaults.compactor_thinking_effort,
                })
                &&& routing.cortex_thinking_effort == (match section.cortex_thinking_effort {
                    Some(name) => name@,
                    None => defaults.cortex_thinking_effort,
                })
                &&& routing.rate_limit_cooldown_secs == section.rate_limit_cooldown_secs.unwrap_or(
                    defaults.rate_limit_cooldown_secs,
                )
                &&& forall|kind: Seq<char>| #[trigger]
                    section.task_overrides@.contains_key(kind)
                        ==> routing.task_overrides.contains_key(kind)
                        && routing.task_overrides[kind] == section.task_overrides@[kind]
                &&& forall|kind: Seq<char>|
                    !section.task_overrides@.contains_key(kind) && #[trigger]
                    defaults.task_overrides.contains_key(kind)
                        ==> routing.task_overrides.contains_key(kind)
                        && routing.task_overrides[kind] == defaults.task_overrides[kind]
                &&& section.fallbacks is None ==> routing.fallbacks == defaults.fallbacks
                &&& section.fallbacks matches Some(fallbacks) ==> routing.fallbacks.dom()
                    =~= fallbacks@.dom() && forall|model: Seq<char>| #[trigger]
                    fallbacks@.contains_key(model) ==> routing.fallbacks[model]
                        == fallbacks@[model]@
            }
        }),
{
    let own = lemma_agent_comes_of_its_section(config, toml, surroundings, llm, inferred, api_bind, k);
}

/// An agent uses what its section sets, and the default for what the section leaves out:
/// limits, thresholds, intervals and switches alike, each of them for itself.
pub proof fn law_agents_use_the_settings_of_their_sections(
    config: ConfigView,
    toml: TomlConfig,
    surroundings: Surroundings,
    llm: LlmView,
    inferred: Option<RoutingView>,
    api_bind: Seq<char>,
    k: int,
    sandbox: SandboxView,
)
    requires
        comes_of(config, toml, surroundings, llm, inferred, api_bind),
        0 <= k < toml.agents@.len(),
    ensures
        ({
            let section = toml.agents@[k];
            let defaults = config.defaults;
            let agent = config.agents[k].resolved(
                surroundings.context,
                config.instance_dir,
                config.defaults,
                sandbox,
            );
            &&& agent.max_concurrent_branches == section.max_concurrent_branches.unwrap_or(
                defaults.max_concurrent_branches,
            )
            &&& agent.max_concurrent_workers == section.max_concurrent_workers.unwrap_or(
                defaults.max_concurrent_workers,
            )
            &&& agent.max_turns == section.max_turns.unwrap_or(
                defaults.max_turns,
            )
            &&& agent.branch_max_turns == section.branch_max_turns.unwrap_or(
                defaults.branch_max_turns,
            )
            &&& agent.context_window == section.context_window.unwrap_or(
                defaults.context_window,
            )
            &&& section.compaction is None ==> agent.compaction == defaults.compaction
            &&& section.compaction matches Some(t) ==> agent.compaction == (CompactionConfig {
                background_threshold: t.background_threshold.unwrap_or(defaults.compaction.background_threshold),
                aggressive_threshold: t.aggressive_threshold.unwrap_or(defaults.compaction.aggressive_threshold),
                emergency_threshold: t.emergency_threshold.unwrap_or(defaults.compaction.emergency_threshold),
            })
            &&& section.memory_persistence is None ==> agent.memory_persistence == defaults.memory_persistence
            &&& section.memory_persistence matches Some(t) ==> agent.memory_persistence == (MemoryPersistenceConfig {
                enabled: t.enabled.unwrap_or(defaults.memory_persistence.enabled),
                message_interval: t.message_interval.unwrap_or(defaults.memory_persistence.message_interval),
            })
            &&& section.coalesce is None ==> agent.coalesce == defaults.coalesce
            &&& section.coalesce matches Some(t) ==> agent.coalesce == (CoalesceConfig {
                enabled: t.enabled.unwrap_or(defaults.coalesce.enabled),
                debounce_ms: t.debounce_ms.unwrap_or(defaults.coalesce.debounce_ms),
                max_wait_ms: t.max_wait_ms.unwrap_or(defaults.coalesce.max_wait_ms),
                min_messages: t.min_messages.unwrap_or(defaults.coalesce.min_messages),
                multi_user_only: t.multi_user_only.unwrap_or(defaults.coalesce.multi_user_only),
            })
            &&& section.ingestion is None ==> agent.ingestion == defaults.ingestion
            &&& section.ingestion matches Some(t) ==> agent.ingestion == (IngestionConfig {
                enabled: t.enabled.unwrap_or(defaults.ingestion.enabled),
                poll_interval_secs: t.poll_interval_secs.unwrap_or(defaults.ingestion.poll_interval_secs),
                chunk_size: t.chunk_size.unwrap_or(defaults.ingestion.chunk_size),
            })
            &&& section.warmup is None ==> agent.warmup == defaults.warmup
            &&& section.warmup matches Some(t) ==> agent.warmup == (WarmupConfig {
                enabled: t.enabled.unwrap_or(defaults.warmup.enabled),
                eager_embedding_load: t.eager_embedding_load.unwrap_or(defaults.warmup.eager_embedding_load),
                refresh_secs: t.refresh_secs.unwrap_or(defaults.warmup.refresh_secs),
                startup_delay_secs: t.startup_delay_secs.unwrap_or(defaults.warmup.startup_delay_secs),
            })
            &&& section.channel is None ==> agent.channel == defaults.channel
            &&& section.channel matches Some(t) ==> agent.channel == (ChannelConfig {
                listen_only_mode: t.listen_only_mode.unwrap_or(defaults.channel.listen_only_mode),
                save_attachments: t.save_attachments.unwrap_or(defaults.channel.save_attachments),
            })
            &&& section.cortex is None ==> agent.cortex == defaults.cortex
            &&& section.cortex matches Some(t) ==> agent.cortex == (CortexConfig {
                tick_interval_secs: t.tick_interval_secs.unwrap_or(defaults.cortex.tick_interval_secs),
                worker_timeout_secs: t.worker_timeout_secs.unwrap_or(defaults.cortex.worker_timeout_secs),
                branch_timeout_secs: t.branch_timeout_secs.unwrap_or(defaults.cortex.branch_timeout_secs),
                detached_worker_timeout_retry_limit: t.detached_worker_timeout_retry_limit.unwrap_or(defaults.cortex.detached_worker_timeout_retry_limit),
                supervisor_kill_budget_per_tick: t.supervisor_kill_budget_per_tick.unwrap_or(defaults.cortex.supervisor_kill_budget_per_tick),
                circuit_breaker_threshold: t.circuit_breaker_threshold.unwrap_or(defaults.cortex.circuit_breaker_threshold),
                bulletin_interval_secs: t.bulletin_interval_secs.unwrap_or(defaults.cortex.bulletin_interval_secs),
                bulletin_max_words: t.bulletin_max_words.unwrap_or(defaults.cortex.bulletin_max_words),
                bulletin_max_turns: t.bulletin_max_turns.unwrap_or(defaults.cortex.bulletin_max_turns),
                maintenance_interval_secs: t.maintenance_interval_secs.unwrap_or(defaults.cortex.maintenance_interval_secs),
                maintenance_decay_rate: t.maintenance_decay_rate.unwrap_or(defaults.cortex.maintenance_decay_rate),
                maintenance_prune_threshold: t.maintenance_prune_threshold.unwrap_or(defaults.cortex.maintenance_prune_threshold),
                maintenance_min_age_days: t.maintenance_min_age_days.unwrap_or(defaults.cortex.maintenance_min_age_days),
                maintenance_merge_similarity_threshold: t.maintenance_merge_similarity_threshold.unwrap_or(defaults.cortex.maintenance_merge_similarity_threshold),
                association_interval_secs: t.association_interval_secs.unwrap_or(defaults.cortex.association_interval_secs),
                association_similarity_threshold: t.association_similarity_threshold.unwrap_or(defaults.cortex.association_similarity_threshold),
                association_updates_threshold: t.association_updates_threshold.unwrap_or(defaults.cortex.association_updates_threshold),
                association_max_per_pass: t.association_max_per_pass.unwrap_or(defaults.cortex.association_max_per_pass),
            })
            &&& section.browser is None ==> agent.browser == defaults.browser
            &&& section.browser matches Some(t) ==> agent.browser == (BrowserView {
                enabled: t.enabled.unwrap_or(defaults.browser.enabled),
                headless: t.headless.unwrap_or(defaults.browser.headless),
                evaluate_enabled: t.evaluate_enabled.unwrap_or(defaults.browser.evaluate_enabled),
                executable_path: match t.executable_path {
                    Some(p) => Some(p@),
                    None => defaults.browser.executable_path,
                },
                screenshot_dir: match t.screenshot_dir {
                    Some(p) => Some(p@),
                    None => defaults.browser.screenshot_dir,
                },
                persist_session: t.persist_session.unwrap_or(defaults.browser.persist_session),
                close_policy: if t.close_policy is Some && t.close_policy->0@ == "close_browser"@ {
                    ClosePolicy::CloseBrowser
                } else if t.close_policy is Some && t.close_policy->0@ == "close_tabs"@ {
                    ClosePolicy::CloseTabs
                } else if t.close_policy is Some && t.close_policy->0@ == "detach"@ {
                    ClosePolicy::Detach
                } else if t.persist_session.unwrap_or(defaults.browser.persist_session) {
                    ClosePolicy::Detach
                } else {
                    defaults.browser.close_policy
                },
                chrome_cache_dir: defaults.browser.chrome_cache_dir,
            })
            &&& section.projects is None ==> agent.projects == defaults.projects
            &&& section.projects matches Some(t) ==> agent.projects == (ProjectsView {
                use_worktrees: t.use_worktrees.unwrap_or(defaults.projects.use_worktrees),
                worktree_name_template: match t.worktree_name_template {
                    Some(template) => template@,
                    None => defaults.projects.worktree_name_template,
                },
                auto_create_worktrees: t.auto_create_worktrees.unwrap_or(
                    defaults.projects.auto_create_worktrees,
                ),
                auto_discover_repos: t.auto_discover_repos.unwrap_or(
                    defaults.projects.auto_discover_repos,
                ),
                auto_discover_worktrees: t.auto_discover_worktrees.unwrap_or(
                    defaults.projects.auto_discover_worktrees,
                ),
                disk_usage_warning_threshold: t.disk_usage_warning_threshold.unwrap_or(
                    defaults.projects.disk_usage_warning_threshold,
                ),
            })
            &&& agent.history_backfill_count == defaults.history_backfill_count
        }),
{
    let own = lemma_agent_comes_of_its_section(config, toml, surroundings, llm, inferred, api_bind, k);
}

/// The agents of a configuration are those of the file, in order, each under its id, with
/// the names, the role, the colours and the workspace that its section gives. A directory
/// of its own, under its id, holds what the section does not place elsewhere. The mark of
/// the default agent stays where the file sets it.
pub proof fn law_agents_are_those_of_the_file(
    config: ConfigView,
    toml: TomlConfig,
    surroundings: Surroundings,
    llm: LlmView,
    inferred: Option<RoutingView>,
    api_bind: Seq<char>,
    k: int,
    sandbox: SandboxView,
)
    requires
        comes_of(config, toml, surroundings, llm, inferred, api_bind),
        0 <= k < toml.agents@.len(),
    ensures
        ({
            let section = toml.agents@[k];
            let agent = config.agents[k].resolved(
                surroundings.context,
                config.instance_dir,
                config.defaults,
                sandbox,
            );
            let root = path::joined(path::joined(config.instance_dir, "agents"@), section.id@);
            &&& config.agents.len() == toml.agents@.len()
            &&& config.agents[k].id == section.id@
            &&& section.default ==> config.agents[k].default
            &&& agent.id == section.id@
            &&& agent.display_name == text::view_of(section.display_name)
            &&& agent.role == text::view_of(section.role)
            &&& agent.gradient_start == text::view_of(section.gradient_start)
            &&& agent.gradient_end == text::view_of(section.gradient_end)
            &&& agent.workspace == (match section.workspace {
                Some(dir) => dir@,
                None => path::joined(root, "workspace"@),
            })
            &&& agent.identity_dir == root
            &&& agent.data_dir == path::joined(root, "data"@)
            &&& agent.archives_dir == path::joined(root, "archives"@)
            &&& agent.sandbox == (match section.sandbox {
                Some(own) => own@,
                None => sandbox,
            })
        }),
{
    let own = lemma_agent_comes_of_its_section(config, toml, surroundings, llm, inferred, api_bind, k);
}

/// Every cron job of an agent's section is a job of the agent, in order, with its prompt,
/// its schedule, its target and its switches: hourly unless it says otherwise, and active
/// at all hours unless both ends are given.
pub proof fn law_agents_have_the_jobs_of_their_sections(
    config: ConfigView,
    toml: TomlConfig,
    surroundings: Surroundings,
    llm: LlmView,
    inferred: Option<RoutingView>,
    api_bind: Seq<char>,
    k: int,
    sandbox: SandboxView,
    j: int,
)
    requires
        comes_of(config, toml, surroundings, llm, inferred, api_bind),
        0 <= k < toml.agents@.len(),
    ensures
        ({
            let jobs = toml.agents@[k].cron@;
            let agent = config.agents[k].resolved(
                surroundings.context,
                config.instance_dir,
                config.defaults,
                sandbox,
            );
            &&& agent.cron.len() == jobs.len()
            &&& 0 <= j < jobs.len() ==> agent.cron[j] == (CronView {
                id: jobs[j].id@,
                prompt: jobs[j].prompt@,
                cron_expr: text::view_of(jobs[j].cron_expr),
                interval_secs: jobs[j].interval_secs.unwrap_or(3600),
                delivery_target: jobs[j].delivery_target@,
                active_hours: if jobs[j].active_start_hour is Some && jobs[j].active_end_hour is Some {
                    Some((jobs[j].active_start_hour->0, jobs[j].active_end_hour->0))
                } else {
                    None
                },
                enabled: jobs[j].enabled,
                run_once: jobs[j].run_once,
                timeout_secs: jobs[j].timeout_secs,
            })
        }),
{
    let own = lemma_agent_comes_of_its_section(config, toml, surroundings, llm, inferred, api_bind, k);
}

/// An agent searches with the key of its section, with the default one where the section
/// gives none; it has the servers of the defaults and those of its section over them.
pub proof fn law_agents_have_the_keys_and_servers_of_their_sections(
    config: ConfigView,
    toml: TomlConfig,
    surroundings: Surroundings,
    llm: LlmView,
    inferred: Option<RoutingView>,
    api_bind: Seq<char>,
    k: int,
    sandbox: SandboxView,
)
    requires
        comes_of(config, toml, surroundings, llm, inferred, api_bind),
        0 <= k < toml.agents@.len(),
    ensures
        ({
            let section = toml.agents@[k];
            let agent = config.agents[k].resolved(
                surroundings.context,
                config.instance_dir,
                config.defaults,
                sandbox,
            );
            let own_key = match section.brave_search_key {
                Some(key) => resolve::resolved(surroundings.context, key@),
                None => None,
            };
            &&& agent.brave_search_key == (if own_key is Some {
                own_key
            } else {
                config.defaults.brave_search_key
            })
            &&& section.mcp is None ==> agent.mcp == config.defaults.mcp
            &&& section.mcp matches Some(servers) ==> mcp::mcp_servers(servers@) is Ok && agent.mcp
                == mcp::merged_servers(
                config.defaults.mcp,
                mcp::mcp_servers(servers@)->Ok_0,
            )
        }),
{
    let own = lemma_agent_comes_of_its_section(config, toml, surroundings, llm, inferred, api_bind, k);
}

/// A timezone is taken from the first place that names a known one, without white space
/// around it: for cron jobs the agent's section, the defaults and the environment; for
/// users the same places of their own, and then the timezone of the cron jobs.
pub proof fn law_timezones_come_from_the_first_place(
    agent: AgentView,
    context: ResolveContext,
    instance_dir: Seq<char>,
    defaults: DefaultsView,
    sandbox: SandboxView,
)
    ensures
        ({
            let resolved = agent.resolved(context, instance_dir, defaults, sandbox);
            let own = agent.cron_timezone;
            let given = defaults.cron_timezone;
            let set = env(context, "SPACEBOT_CRON_TIMEZONE"@);
            let own_user = agent.user_timezone;
            let given_user = defaults.user_timezone;
            let set_user = env(context, "SPACEBOT_USER_TIMEZONE"@);
            &&& names_zone(own) ==> resolved.cron_timezone == Some(text::trimmed(own->0))
            &&& !names_zone(own) && names_zone(given) ==> resolved.cron_timezone == Some(
                text::trimmed(given->0),
            )
            &&& !names_zone(own) && !names_zone(given) && names_zone(set)
                ==> resolved.cron_timezone == Some(text::trimmed(set->0))
            &&& !names_zone(own) && !names_zone(given) && !names_zone(set)
                ==> resolved.cron_timezone is None
            &&& names_zone(own_user) ==> resolved.user_timezone == Some(text::trimmed(own_user->0))
            &&& !names_zone(own_user) && names_zone(given_user) ==> resolved.user_timezone == Some(
                text::trimmed(given_user->0),
            )
            &&& !names_zone(own_user) && !names_zone(given_user) && names_zone(set_user)
                ==> resolved.user_timezone == Some(text::trimmed(set_user->0))
            &&& !names_zone(own_user) && !names_zone(given_user) && !names_zone(set_user)
                ==> resolved.user_timezone == resolved.cron_timezone
        }),
{
    reveal_with_fuel(agent::first_timezone, 5);
    let own = agent.cron_timezone;
    let given = defaults.cron_timezone;
    let set = env(context, "SPACEBOT_CRON_TIMEZONE"@);
    assert(set == context.var("SPACEBOT_CRON_TIMEZONE"@));
    let all = seq![own, given, set];
    assert(all.drop_first() =~= seq![given, set]);
    assert(seq![given, set].drop_first() =~= seq![set]);
    assert(seq![set].drop_first() =~= Seq::empty());
    let zone = agent::cron_timezone(context, own, given);
    assert(zone == agent::first_timezone(all));
    if let Some(name) = own {
        text::lemma_trimmed_twice(name);
    }
    if let Some(name) = given {
        text::lemma_trimmed_twice(name);
    }
    if let Some(name) = set {
        text::lemma_trimmed_twice(name);
    }
    let own_user = agent.user_timezone;
    let given_user = defaults.user_timezone;
    let set_user = env(context, "SPACEBOT_USER_TIMEZONE"@);
    assert(set_user == context.var("SPACEBOT_USER_TIMEZONE"@));
    let users = seq![own_user, given_user, set_user, zone];
    assert(users.drop_first() =~= seq![given_user, set_user, zone]);
    assert(seq![given_user, set_user, zone].drop_first() =~= seq![set_user, zone]);
    assert(seq![set_user, zone].drop_first() =~= seq![zone]);
    assert(seq![zone].drop_first() =~= Seq::empty());
}

/// A text that names a known timezone once the white space around it is gone.
pub open spec fn names_zone(value: Option<Seq<char>>) -> bool {
    value is Some && text::trimmed(value->0).len() > 0 && agent::is_known_timezone(
        text::trimmed(value->0),
    )
}

/// The defaults of a configuration are what the file's section of defaults sets; what it
/// leaves out has its documented value.
pub proof fn law_defaults_are_those_of_the_file(
    config: ConfigView,
    toml: TomlConfig,
    surroundings: Surroundings,
    llm: LlmView,
    inferred: Option<RoutingView>,
    api_bind: Seq<char>,
)
    requires
        comes_of(config, toml, surroundings, llm, inferred, api_bind),
    ensures
        ({
            let section = toml.defaults;
            let defaults = config.defaults;
            &&& defaults.max_concurrent_branches == section.max_concurrent_branches.unwrap_or(5)
            &&& defaults.max_concurrent_workers == section.max_concurrent_workers.unwrap_or(5)
            &&& defaults.max_turns == section.max_turns.unwrap_or(5)
            &&& defaults.branch_max_turns == section.branch_max_turns.unwrap_or(50)
            &&& defaults.context_window == section.context_window.unwrap_or(128_000)
            &&& section.compaction is None ==> defaults.compaction == (CompactionConfig {
                background_threshold: Single { bits: 0x3f4ccccd },
                aggressive_threshold: Single { bits: 0x3f59999a },
                emergency_threshold: Single { bits: 0x3f733333 },
            })
            &&& section.compaction matches Some(t) ==> defaults.compaction == (CompactionConfig {
                background_threshold: t.background_threshold.unwrap_or(Single { bits: 0x3f4ccccd }),
                aggressive_threshold: t.aggressive_threshold.unwrap_or(Single { bits: 0x3f59999a }),
                emergency_threshold: t.emergency_threshold.unwrap_or(Single { bits: 0x3f733333 }),
            })
            &&& section.memory_persistence is None ==> defaults.memory_persistence == (MemoryPersistenceConfig {
                enabled: true,
                message_interval: 50,
            })
            &&& section.memory_persistence matches Some(t) ==> defaults.memory_persistence == (MemoryPersistenceConfig {
                enabled: t.enabled.unwrap_or(true),
                message_interval: t.message_interval.unwrap_or(50),
            })
            &&& section.coalesce is None ==> defaults.coalesce == (CoalesceConfig {
                enabled: true,
                debounce_ms: 1500,
                max_wait_ms: 5000,
                min_messages: 2,
                multi_user_only: true,
            })
            &&& section.coalesce matches Some(t) ==> defaults.coalesce == (CoalesceConfig {
                enabled: t.enabled.unwrap_or(true),
                debounce_ms: t.debounce_ms.unwrap_or(1500),
                max_wait_ms: t.max_wait_ms.unwrap_or(5000),
                min_messages: t.min_messages.unwrap_or(2),
                multi_user_only: t.multi_user_only.unwrap_or(true),
            })
            &&& section.ingestion is None ==> defaults.ingestion == (IngestionConfig {
                enabled: true,
                poll_interval_secs: 30,
                chunk_size: 4000,
            })
            &&& section.ingestion matches Some(t) ==> defaults.ingestion == (IngestionConfig {
                enabled: t.enabled.unwrap_or(true),
                poll_interval_secs: t.poll_interval_secs.unwrap_or(30),
                chunk_size: t.chunk_size.unwrap_or(4000),
            })
            &&& section.warmup is None ==> defaults.warmup == (WarmupConfig {
                enabled: true,
                eager_embedding_load: true,
                refresh_secs: 900,
                startup_delay_secs: 5,
            })
            &&& section.warmup matches Some(t) ==> defaults.warmup == (WarmupConfig {
                enabled: t.enabled.unwrap_or(true),
                eager_embedding_load: t.eager_embedding_load.unwrap_or(true),
                refresh_secs: t.refresh_secs.unwrap_or(900),
                startup_delay_secs: t.startup_delay_secs.unwrap_or(5),
            })
            &&& section.channel is None ==> defaults.channel == (ChannelConfig {
                listen_only_mode: false,
                save_attachments: false,
            })
            &&& section.channel matches Some(t) ==> defaults.channel == (ChannelConfig {
                listen_only_mode: t.listen_only_mode.unwrap_or(false),
                save_attachments: t.save_attachments.unwrap_or(false),
            })
            &&& section.cortex is None ==> defaults.cortex == (CortexConfig {
                tick_interval_secs: 30,
                worker_timeout_secs: 600,
                branch_timeout_secs: 60,
                detached_worker_timeout_retry_limit: 2,
                supervisor_kill_budget_per_tick: 8,
                circuit_breaker_threshold: 3,
                bulletin_interval_secs: 3600,
                bulletin_max_words: 1500,
                bulletin_max_turns: 15,
                maintenance_interval_secs: 3600,
                maintenance_decay_rate: Single { bits: 0x3d4ccccd },
                maintenance_prune_threshold: Single { bits: 0x3dcccccd },
                maintenance_min_age_days: 30,
                maintenance_merge_similarity_threshold: Single { bits: 0x3f733333 },
                association_interval_secs: 300,
                association_similarity_threshold: Single { bits: 0x3f59999a },
                association_updates_threshold: Single { bits: 0x3f733333 },
                association_max_per_pass: 100,
            })
            &&& section.cortex matches Some(t) ==> defaults.cortex == (CortexConfig {
                tick_interval_secs: t.tick_interval_secs.unwrap_or(30),
                worker_timeout_secs: t.worker_timeout_secs.unwrap_or(600),
                branch_timeout_secs: t.branch_timeout_secs.unwrap_or(60),
                detached_worker_timeout_retry_limit: t.detached_worker_timeout_retry_limit.unwrap_or(2),
                supervisor_kill_budget_per_tick: t.supervisor_kill_budget_per_tick.unwrap_or(8),
                circuit_breaker_threshold: t.circuit_breaker_threshold.unwrap_or(3),
                bulletin_interval_secs: t.bulletin_interval_secs.unwrap_or(3600),
                bulletin_max_words: t.bulletin_max_words.unwrap_or(1500),
                bulletin_max_turns: t.bulletin_max_turns.unwrap_or(15),
                maintenance_interval_secs: t.maintenance_interval_secs.unwrap_or(3600),
                maintenance_decay_rate: t.maintenance_decay_rate.unwrap_or(Single { bits: 0x3d4ccccd }),
                maintenance_prune_threshold: t.maintenance_prune_threshold.unwrap_or(Single { bits: 0x3dcccccd }),
                maintenance_min_age_days: t.maintenance_min_age_days.unwrap_or(30),
                maintenance_merge_similarity_threshold: t.maintenance_merge_similarity_threshold.unwrap_or(Single { bits: 0x3f733333 }),
                association_interval_secs: t.association_interval_secs.unwrap_or(300),
                association_similarity_threshold: t.association_similarity_threshold.unwrap_or(Single { bits: 0x3f59999a }),
                association_updates_threshold: t.association_updates_threshold.unwrap_or(Single { bits: 0x3f733333 }),
                association_max_per_pass: t.association_max_per_pass.unwrap_or(100),
            })
            &&& defaults.history_backfill_count == 50
            &&& defaults.worker_log_mode == (if section.worker_log_mode is Some
                && section.worker_log_mode->0@ == "errors_only"@ {
                WorkerLogMode::ErrorsOnly
            } else if section.worker_log_mode is Some && section.worker_log_mode->0@
                == "all_separate"@ {
                WorkerLogMode::AllSeparate
            } else if section.worker_log_mode is Some && section.worker_log_mode->0@
                == "all_combined"@ {
                WorkerLogMode::AllCombined
            } else {
                surroundings.modules@.worker_log_mode
            })
            &&& defaults.cron_timezone == (match section.cron_timezone {
                Some(zone) => resolve::resolved(surroundings.context, zone@),
                None => None,
            })
            &&& defaults.user_timezone == (match section.user_timezone {
                Some(zone) => resolve::resolved(surroundings.context, zone@),
                None => None,
            })
            &&& defaults.brave_search_key == (if section.brave_search_key is Some
                && resolve::resolved(
                surroundings.context,
                section.brave_search_key->0@,
            ) is Some {
                resolve::resolved(surroundings.context, section.brave_search_key->0@)
            } else {
                env(surroundings.context, "BRAVE_SEARCH_API_KEY"@)
            })
            &&& mcp::mcp_servers(section.mcp@) == Ok::<Seq<McpView>, ConfigErrorView>(defaults.mcp)
        }),
{
}

/// The browser, project and OpenCode defaults of a configuration are what the file sets;
/// what it leaves out has its documented value, and the browser's cache stands in the
/// directory of the instance.
pub proof fn law_default_tools_are_those_of_the_file(
    config: ConfigView,
    toml: TomlConfig,
    surroundings: Surroundings,
    llm: LlmView,
    inferred: Option<RoutingView>,
    api_bind: Seq<char>,
)
    requires
        comes_of(config, toml, surroundings, llm, inferred, api_bind),
    ensures
        ({
            let context = surroundings.context;
            let section = toml.defaults;
            let defaults = config.defaults;
            let browser = BrowserView {
                enabled: true,
                headless: true,
                evaluate_enabled: false,
                executable_path: None,
                screenshot_dir: None,
                persist_session: false,
                close_policy: ClosePolicy::CloseBrowser,
                chrome_cache_dir: path::joined(config.instance_dir, "chrome_cache"@),
            };
            let projects = ProjectsView {
                use_worktrees: true,
                worktree_name_template: "{branch}"@,
                auto_create_worktrees: false,
                auto_discover_repos: true,
                auto_discover_worktrees: true,
                disk_usage_warning_threshold: 53_687_091_200,
            };
            let opencode = OpenCodeView {
                enabled: false,
                path: "opencode"@,
                max_servers: 5,
                server_startup_timeout_secs: 30,
                max_restart_retries: 5,
                permissions: surroundings.modules@.permissions,
            };
            &&& section.browser is None ==> defaults.browser == browser
            &&& section.browser matches Some(t) ==> defaults.browser == (BrowserView {
                enabled: t.enabled.unwrap_or(browser.enabled),
                headless: t.headless.unwrap_or(browser.headless),
                evaluate_enabled: t.evaluate_enabled.unwrap_or(browser.evaluate_enabled),
                executable_path: match t.executable_path {
                    Some(p) => Some(p@),
                    None => browser.executable_path,
                },
                screenshot_dir: match t.screenshot_dir {
                    Some(p) => Some(p@),
                    None => browser.screenshot_dir,
                },
                persist_session: t.persist_session.unwrap_or(browser.persist_session),
                close_policy: if t.close_policy is Some && t.close_policy->0@ == "close_browser"@ {
                    ClosePolicy::CloseBrowser
                } else if t.close_policy is Some && t.close_policy->0@ == "close_tabs"@ {
                    ClosePolicy::CloseTabs
                } else if t.close_policy is Some && t.close_policy->0@ == "detach"@ {
                    ClosePolicy::Detach
                } else if t.persist_session.unwrap_or(browser.persist_session) {
                    ClosePolicy::Detach
                } else {
                    browser.close_policy
                },
                chrome_cache_dir: browser.chrome_cache_dir,
            })
            &&& section.projects is None ==> defaults.projects == projects
            &&& section.projects matches Some(t) ==> defaults.projects == (ProjectsView {
                use_worktrees: t.use_worktrees.unwrap_or(projects.use_worktrees),
                worktree_name_template: match t.worktree_name_template {
                    Some(template) => template@,
                    None => projects.worktree_name_template,
                },
                auto_create_worktrees: t.auto_create_worktrees.unwrap_or(
                    projects.auto_create_worktrees,
                ),
                auto_discover_repos: t.auto_discover_repos.unwrap_or(
                    projects.auto_discover_repos,
                ),
                auto_discover_worktrees: t.auto_discover_worktrees.unwrap_or(
                    projects.auto_discover_worktrees,
                ),
                disk_usage_warning_threshold: t.disk_usage_warning_threshold.unwrap_or(
                    projects.disk_usage_warning_threshold,
                ),
            })
            &&& section.opencode is None ==> defaults.opencode == opencode
            &&& section.opencode matches Some(t) ==> {
                let given = defaults.opencode;
                &&& given.enabled == t.enabled.unwrap_or(false)
                &&& given.max_servers == t.max_servers.unwrap_or(5)
                &&& given.server_startup_timeout_secs == t.server_startup_timeout_secs.unwrap_or(30)
                &&& given.max_restart_retries == t.max_restart_retries.unwrap_or(5)
                &&& t.path is Some ==> given.path == (match resolve::resolved(
                    context,
                    t.path->0@,
                ) {
                    Some(own) => own,
                    None => "opencode"@,
                })
                &&& t.path is None ==> given.path == "opencode"@
                &&& t.permissions is None ==> given.permissions == opencode.permissions
                &&& t.permissions matches Some(p) ==> given.permissions == (PermissionsView {
                    edit: match p.edit {
                        Some(may) => may@,
                        None => opencode.permissions.edit,
                    },
                    bash: match p.bash {
                        Some(may) => may@,
                        None => opencode.permissions.bash,
                    },
                    webfetch: match p.webfetch {
                        Some(may) => may@,
                        None => opencode.permissions.webfetch,
                    },
                })
            }
        }),
{
    reveal_strlit("opencode");
    reveal_strlit("secret:");
    reveal_strlit("env:");
    assert("opencode"@.take(7)[0] == 'o');
    assert("opencode"@.take(4)[0] == 'o');
    assert("secret:"@[0] == 's');
    assert("env:"@[0] == 'e');
    law_plain_values_stand_for_themselves(surroundings.context, "opencode"@);
}

/// The default models of a configuration are those that the file's section of defaults
/// names; what the section leaves out is as it is at the start. Without a section they are
/// those taken from the providers, and without providers those at the start.
pub proof fn law_default_models_are_those_of_the_file(
    config: ConfigView,
    toml: TomlConfig,
    surroundings: Surroundings,
    llm: LlmView,
    inferred: Option<RoutingView>,
    api_bind: Seq<char>,
)
    requires
        comes_of(config, toml, surroundings, llm, inferred, api_bind),
    ensures
        ({
            let routing = config.defaults.routing;
            let start = surroundings.modules@.routing;
            &&& toml.defaults.routing is None && inferred is Some ==> routing == inferred->0
            &&& toml.defaults.routing is None && inferred is None ==> routing == start
            &&& toml.defaults.routing matches Some(section) ==> {
                &&& routing.channel == (match section.channel {
                    Some(name) => name@,
                    None => start.channel,
                })
                &&& routing.branch == (match section.branch {
                    Some(name) => name@,
                    None => start.branch,
                })
                &&& routing.worker == (match section.worker {
                    Some(name) => name@,
                    None => start.worker,
                })
                &&& routing.compactor == (match section.compactor {
                    Some(name) => name@,
                    None => start.compactor,
                })
                &&& routing.cortex == (match section.cortex {
                    Some(name) => name@,
                    None => start.cortex,
                })
                &&& routing.voice == (match section.voice {
                    Some(name) => name@,
                    None => start.voice,
                })
                &&& routing.channel_thinking_effort == (match section.channel_thinking_effort {
                    Some(name) => name@,
                    None => start.channel_thinking_effort,
                })
                &&& routing.branch_thinking_effort == (match section.branch_thinking_effort {
                    Some(name) => name@,
                    None => start.branch_thinking_effort,
                })
                &&& routing.worker_thinking_effort == (match section.worker_thinking_effort {
                    Some(name) => name@,
                    None => start.worker_thinking_effort,
                })
                &&& routing.compactor_thinking_effort == (match section.compactor_thinking_effort {
                    Some(name) => name@,
                    None => start.compactor_thinking_effort,
                })
                &&& routing.cortex_thinking_effort == (match section.cortex_thinking_effort {
                    Some(name) => name@,
                    None => start.cortex_thinking_effort,
                })
                &&& routing.rate_limit_cooldown_secs == section.rate_limit_cooldown_secs.unwrap_or(
                    start.rate_limit_cooldown_secs,
                )
                &&& forall|kind: Seq<char>| #[trigger]
                    section.task_overrides@.contains_key(kind)
                        ==> routing.task_overrides.contains_key(kind)
                        && routing.task_overrides[kind] == section.task_overrides@[kind]
                &&& section.fallbacks is None ==> routing.fallbacks == start.fallbacks
                &&& section.fallbacks matches Some(fallbacks) ==> routing.fallbacks.dom()
                    =~= fallbacks@.dom() && forall|model: Seq<char>| #[trigger]
                    fallbacks@.contains_key(model) ==> routing.fallbacks[model]
                        == fallbacks@[model]@
            }
        }),
{
}

/// A value of the file stands for a stored secret where it begins with `secret:`, for a
/// variable of the environment where it begins with `env:`, and else for itself. What is
/// not there stands for nothing.
pub proof fn law_references_stand_for_what_they_name(
    context: ResolveContext,
    name: Seq<char>,
    store: string_map::StringMap<String>,
)
    ensures
        resolve::resolved(context, "env:"@ + name) == env(context, name),
        context.secrets is None ==> resolve::resolved(context, "secret:"@ + name) is None,
        context.secrets == Some(store) && store@.contains_key(name) ==> resolve::resolved(
            context,
            "secret:"@ + name,
        ) == Some(store@[name]@),
        context.secrets == Some(store) && !store@.contains_key(name) ==> resolve::resolved(
            context,
            "secret:"@ + name,
        ) is None,
{
    reveal_strlit("secret:");
    reveal_strlit("env:");
    let secret = "secret:"@ + name;
    let variable = "env:"@ + name;
    assert(secret.subrange(0, 7) =~= "secret:"@);
    assert(secret.subrange(7, secret.len() as int) =~= name);
    assert(variable.subrange(0, 4) =~= "env:"@);
    assert(variable.subrange(4, variable.len() as int) =~= name);
    if variable.len() >= 7 {
        assert(variable.subrange(0, 7)[0] == 'e');
        assert("secret:"@[0] == 's');
    }
}

/// A value that is no reference stands for itself.
pub proof fn law_plain_values_stand_for_themselves(context: ResolveContext, value: Seq<char>)
    requires
        !(value.len() >= 7 && value.take(7) == "secret:"@),
        !(value.len() >= 4 && value.take(4) == "env:"@),
    ensures
        resolve::resolved(context, value) == Some(value),
{
    reveal_strlit("secret:");
    reveal_strlit("env:");
    if value.len() >= 7 {
        assert(value.subrange(0, 7) =~= value.take(7));
    }
    if value.len() >= 4 {
        assert(value.subrange(0, 4) =~= value.take(4));
    }
}

/// The bindings, groups, links and humans of a configuration are those of the file, in
/// order, with what it says of each. Where the file has no human, there is one, the
/// administrator; where it has no link either, the administrator is linked to the default
/// agent.
pub proof fn law_the_organisation_is_that_of_the_file(
    config: ConfigView,
    toml: TomlConfig,
    surroundings: Surroundings,
    llm: LlmView,
    inferred: Option<RoutingView>,
    api_bind: Seq<char>,
    i: int,
)
    requires
        comes_of(config, toml, surroundings, llm, inferred, api_bind),
    ensures
        config.bindings.len() == toml.bindings@.len(),
        0 <= i < toml.bindings@.len() ==> {
            let section = toml.bindings@[i];
            let binding = config.bindings[i];
            &&& binding.agent_id == section.agent_id@
            &&& binding.channel == section.channel@
            &&& binding.guild_id == text::view_of(section.guild_id)
            &&& binding.workspace_id == text::view_of(section.workspace_id)
            &&& binding.chat_id == text::view_of(section.chat_id)
            &&& binding.channel_ids == text::views(section.channel_ids@)
            &&& binding.require_mention == section.require_mention
            &&& binding.dm_allowed_users == text::views(section.dm_allowed_users@)
            &&& binding.adapter == (if section.adapter is Some && text::trimmed(
                section.adapter->0@,
            ).len() > 0 {
                Some(text::trimmed(section.adapter->0@))
            } else {
                None
            })
        },
        config.groups.len() == toml.groups@.len(),
        0 <= i < toml.groups@.len() ==> {
            &&& config.groups[i].name == toml.groups@[i].name@
            &&& config.groups[i].agent_ids == text::views(toml.groups@[i].agent_ids@)
            &&& config.groups[i].color == text::view_of(toml.groups@[i].color)
        },
        toml.links@.len() > 0 || toml.humans@.len() > 0 ==> config.links.len() == toml.links@.len(),
        0 <= i < toml.links@.len() ==> {
            let section = toml.links@[i];
            let link = config.links[i];
            &&& link.from == section.from@
            &&& link.to == section.to@
            &&& link.direction == section.direction@
            &&& link.kind == (if section.kind@ == "peer"@ && section.relationship is Some {
                section.relationship->0@
            } else {
                section.kind@
            })
        },
        toml.humans@.len() > 0 ==> config.humans.len() == toml.humans@.len(),
        0 <= i < toml.humans@.len() ==> {
            let section = toml.humans@[i];
            let human = config.humans[i];
            let texts = surroundings.human_texts@;
            &&& human.id == section.id@
            &&& human.display_name == text::view_of(section.display_name)
            &&& human.role == text::view_of(section.role)
            &&& human.bio == text::view_of(section.bio)
            &&& human.discord_id == text::view_of(section.discord_id)
            &&& human.telegram_id == text::view_of(section.telegram_id)
            &&& human.slack_id == text::view_of(section.slack_id)
            &&& human.email == text::view_of(section.email)
            &&& human.description == (if texts.contains_key(section.id@) && !text::is_blank(
                texts[section.id@]@,
            ) {
                Some(texts[section.id@]@)
            } else {
                None
            })
        },
        toml.humans@.len() == 0 ==> config.humans.len() == 1 && config.humans[0].id == "admin"@,
        toml.humans@.len() == 0 && toml.links@.len() == 0 ==> config.links.len() == 1
            && config.links[0].from == "admin"@ && config.links[0].direction == "one_way"@
            && config.links[0].kind == "hierarchical"@ && exists|k: int|
            0 <= k < config.agents.len() && (#[trigger] config.agents[k]).default
                && config.agents[k].id == config.links[0].to,
{
    let own = load::agents_of_file(surroundings.context, toml.agents@, config.defaults)->Ok_0;
    load::law_an_instance_has_a_default_agent(own);
    load::lemma_default_agent_is_found(config.agents);
    let chosen = load::default_agent(config.agents)->0;
    let at = config.agents.index_of(chosen);
    assert(config.agents[at] == chosen);
}

/// The HTTP API and the metrics of a configuration are as the file sets them; the token of
/// the API may be a reference.
pub proof fn law_the_servers_are_those_of_the_file(
    config: ConfigView,
    toml: TomlConfig,
    surroundings: Surroundings,
    llm: LlmView,
    inferred: Option<RoutingView>,
    api_bind: Seq<char>,
)
    requires
        comes_of(config, toml, surroundings, llm, inferred, api_bind),
    ensures
        config.llm == llm,
        config.api.enabled == toml.api.enabled,
        config.api.port == toml.api.port,
        config.api.bind == api_bind,
        config.api.auth_token == (match toml.api.auth_token {
            Some(token) => resolve::resolved(surroundings.context, token@),
            None => None,
        }),
        config.metrics.enabled == toml.metrics.enabled,
        config.metrics.port == toml.metrics.port,
        config.metrics.bind == toml.metrics.bind@,
{
}

/// Telemetry goes to the endpoint that the file gives, and else to the environment's; the
/// name of the service is the environment's, else the file's, else `spacebot`; everything
/// is sampled unless the file says otherwise.
pub proof fn law_telemetry_is_that_of_file_and_environment(
    config: ConfigView,
    toml: TomlConfig,
    surroundings: Surroundings,
    llm: LlmView,
    inferred: Option<RoutingView>,
    api_bind: Seq<char>,
)
    requires
        comes_of(config, toml, surroundings, llm, inferred, api_bind),
    ensures
        ({
            let context = surroundings.context;
            let section = toml.telemetry;
            let name = env(context, "OTEL_SERVICE_NAME"@);
            let headers = env(context, "OTEL_EXPORTER_OTLP_HEADERS"@);
            &&& config.telemetry.otlp_endpoint == (match section.otlp_endpoint {
                Some(endpoint) => Some(endpoint@),
                None => env(context, "OTEL_EXPORTER_OTLP_ENDPOINT"@),
            })
            &&& config.telemetry.service_name == (if name is Some {
                name->0
            } else {
                match section.service_name {
                    Some(own) => own@,
                    None => "spacebot"@,
                }
            })
            &&& config.telemetry.sample_rate == section.sample_rate.unwrap_or(
                Double { bits: 0x3ff0_0000_0000_0000 },
            )
            &&& load::otlp_headers(
                if headers is Some {
                    headers
                } else {
                    text::view_of(section.otlp_headers)
                },
            ) == Ok::<Map<Seq<char>, Seq<char>>, ConfigErrorView>(config.telemetry.otlp_headers)
        }),
{
}

/// One more entry of the form key=value sets that header, without white space around key
/// and value, and leaves all other headers as they were; a blank entry sets none; an entry
/// without `=` or without a key is refused.
pub proof fn law_header_entries_set_headers(
    entries: Seq<Seq<char>>,
    key: Seq<char>,
    value: Seq<char>,
)
    requires
        load::headers_of(entries) is Ok,
        !key.contains('='),
        text::trimmed(key) == key,
        key.len() > 0,
        text::trimmed(key + "="@ + value) == key + "="@ + value,
    ensures
        load::headers_of(entries.push(key + "="@ + value)) == Ok::<
            Map<Seq<char>, Seq<char>>,
            ConfigErrorView,
        >(load::headers_of(entries)->Ok_0.insert(key, text::trimmed(value))),
        load::headers_of(entries.push(key)) is Err,
        load::headers_of(entries.push(Seq::empty())) == load::headers_of(entries),
{
    let entry = key + "="@ + value;
    assert(entries.push(entry).drop_last() =~= entries);
    assert(entries.push(key).drop_last() =~= entries);
    assert(entries.push(Seq::empty()).drop_last() =~= entries);
    reveal_strlit("=");
    assert("="@ =~= seq!['=']);
    text_laws::law_cutting_parts_at_the_first_separator(key, value, '=');
    assert(text::trimmed(Seq::<char>::empty()).len() == 0);
}

/// Cortex settings are accepted exactly where the rates and thresholds of maintenance are
/// numbers from zero to one, its least age is not negative, and its interval is at least a
/// second; then they are what the section sets over what it leaves out.
pub proof fn law_cortex_settings_are_accepted_within_bounds(
    section: TomlCortexConfig,
    base: CortexConfig,
)
    ensures
        CortexConfig::resolution(section, base) is Ok <==> {
            let decay = section.maintenance_decay_rate.unwrap_or(base.maintenance_decay_rate).bits;
            let prune = section.maintenance_prune_threshold.unwrap_or(
                base.maintenance_prune_threshold,
            ).bits;
            let merge = section.maintenance_merge_similarity_threshold.unwrap_or(
                base.maintenance_merge_similarity_threshold,
            ).bits;
            &&& decay <= 0x3f80_0000 || decay == 0x8000_0000
            &&& prune <= 0x3f80_0000 || prune == 0x8000_0000
            &&& merge <= 0x3f80_0000 || merge == 0x8000_0000
            &&& section.maintenance_min_age_days.unwrap_or(base.maintenance_min_age_days) >= 0
            &&& section.maintenance_interval_secs.unwrap_or(base.maintenance_interval_secs) >= 1
        },
{
}

/// The agents of an instance are those that are defined, in order, and `main` where none
/// is; where none is marked as the default one the first is marked, and nothing else about
/// them changes.
pub proof fn law_defined_agents_are_kept(agents: Seq<AgentView>, k: int)
    requires
        0 <= k < agents.len(),
    ensures
        ({
            let all = load::completed_agents(agents);
            let marked = exists|i: int| 0 <= i < agents.len() && (#[trigger] agents[i]).default;
            &&& all.len() == agents.len()
            &&& marked ==> all[k] == agents[k]
            &&& !marked && k > 0 ==> all[k] == agents[k]
            &&& !marked && k == 0 ==> all[k] == (AgentView { default: true, ..agents[k] })
        }),
        load::completed_agents(Seq::empty()).len() == 1,
        load::completed_agents(Seq::empty())[0].id == "main"@,
        load::completed_agents(Seq::empty())[0].default,
{
}

/// The servers of a list of sections are those of its sections, in order.
pub proof fn law_servers_are_read_in_order(raw: Seq<TomlMcpServerConfig>, i: int)
    requires
        mcp::mcp_servers(raw) is Ok,
        0 <= i < raw.len(),
    ensures
        ({
            let server = mcp::mcp_servers(raw)->Ok_0[i];
            let section = raw[i];
            &&& mcp::mcp_servers(raw)->Ok_0.len() == raw.len()
            &&& server.name == section.name@
            &&& server.enabled == section.enabled
            &&& section.transport@ == "stdio"@ ==> section.command is Some && server.transport == (
            TransportView::Stdio {
                command: section.command->0@,
                args: text::views(section.args@),
                env: views::entries(section.env@),
            })
            &&& section.transport@ == "http"@ ==> section.url is Some && server.transport == (
            TransportView::Http {
                url: section.url->0@,
                headers: views::entries(section.headers@),
            })
            &&& section.transport@ == "stdio"@ || section.transport@ == "http"@
            &&& !text::is_blank(section.name@)
        }),
    decreases raw.len(),
{
    reveal_strlit("stdio");
    reveal_strlit("http");
    assert("stdio"@.len() != "http"@.len());
    let rest = raw.drop_last();
    if i < rest.len() {
        law_servers_are_read_in_order(rest, i);
    } else if rest.len() > 0 {
        law_servers_are_read_in_order(rest, 0);
    }
}

proof fn lemma_first_configured_is_there<V>(names: Seq<Seq<char>>, configured: Map<Seq<char>, V>)
    ensures
        providers::first_configured(names, configured) matches Some(name)
            ==> configured.contains_key(name),
    decreases names.len(),
{
    if names.len() > 0 {
        lemma_first_configured_is_there(names.drop_last(), configured);
    }
}

/// The address that the API listens at is what the host makes of the one in the file, and
/// models are inferred unless there is no provider to infer them from.
pub proof fn law_files_are_read_with_what_the_host_gives<
    F: Fn(&str) -> RoutingConfig,
    G: Fn(&str) -> String,
>(
    toml: TomlConfig,
    instance_dir: Seq<char>,
    surroundings: Surroundings,
    llm: LlmView,
    defaults_for_provider: F,
    hosted_api_bind: G,
    inferred: Option<RoutingConfig>,
    api_bind: String,
    result: Result<ConfigView, ConfigErrorView>,
)
    requires
        load::is_config_of_file(
            toml,
            instance_dir,
            surroundings,
            llm,
            defaults_for_provider,
            hosted_api_bind,
            inferred,
            api_bind,
            result,
        ),
    ensures
        exists|bind: &str|
            bind@ == toml.api.bind@ && #[trigger] call_ensures(hosted_api_bind, (bind,), api_bind),
        inferred is None ==> llm.providers.dom().is_empty(),
        inferred matches Some(routing) ==> exists|name: &str|
            llm.providers.contains_key(name@) && #[trigger] call_ensures(
                defaults_for_provider,
                (name,),
                routing,
            ),
        result matches Ok(config) ==> config.api.bind == api_bind@,
{
    let bind = choose|bind: &str|
        bind@ == toml.api.bind@ && #[trigger] load::gives_address(hosted_api_bind, bind, api_bind);
    assert(call_ensures(hosted_api_bind, (bind,), api_bind));
    if let Some(routing) = inferred {
        let name = choose|name: &str|
            providers::may_route(llm.providers, name@) && #[trigger] providers::gives(
                defaults_for_provider,
                name,
                routing,
            );
        lemma_first_configured_is_there(providers::priority(), llm.providers);
        assert(call_ensures(defaults_for_provider, (name,), routing));
    }
}

} // verus!
