//! The whole configuration, and how it is put together from a file or from the
//! environment alone.
use crate::config::adapters;
use crate::config::agent;
use crate::config::agent::{
    AgentConfig, AgentView, CronDef, CronView, DefaultsConfig, DefaultsView, ModuleDefaults,
    ModuleDefaultsView, ResolvedAgentConfig, ResolvedAgentView, SandboxConfig, SandboxView,
};
use crate::config::binding;
use crate::config::binding::{Binding, BindingView};
use crate::config::error;
use crate::config::error::{ConfigError, ConfigErrorView, Double};
use crate::config::llm_load;
use crate::config::mcp;
use crate::config::messaging::{MessagingConfig, MessagingView};
use crate::config::messaging_load;
use crate::config::path;
use crate::config::provider::{LlmConfig, LlmView};
use crate::config::providers;
use crate::config::resolve;
use crate::config::resolve::ResolveContext;
use crate::config::settings;
use crate::config::settings::{
    ApiConfig, ApiView, BrowserConfig, BrowserView, ChannelConfig, CoalesceConfig,
    CompactionConfig, CortexConfig, IngestionConfig, MemoryPersistenceConfig, MetricsConfig,
    MetricsView, OpenCodeConfig, ProjectsConfig, TelemetryConfig, TelemetryView, WarmupConfig,
    WorkerLogMode,
};
use crate::config::toml_schema::{
    TomlAgentConfig, TomlBinding, TomlChannelConfig, TomlCoalesceConfig, TomlCompactionConfig,
    TomlConfig, TomlCronDef, TomlDefaultsConfig, TomlGroupDef, TomlHumanDef, TomlIngestionConfig,
    TomlLinkDef, TomlMemoryPersistenceConfig, TomlTelemetryConfig, TomlWarmupConfig,
};
use crate::llm::routing::{RoutingConfig, RoutingView};
use crate::string_map;
use crate::string_map::StringMap;
use crate::text;
use crate::views;
use vstd::prelude::*;

verus! {

/// A link definition from config, connecting two nodes (agents or humans).
#[derive(Debug, PartialEq, Eq)]
pub struct LinkDef {
    pub from: String,
    pub to: String,
    pub direction: String,
    pub kind: String,
}

/// The view of a [`LinkDef`].
#[verifier::ext_equal]
pub struct LinkView {
    pub from: Seq<char>,
    pub to: Seq<char>,
    pub direction: Seq<char>,
    pub kind: Seq<char>,
}

impl View for LinkDef {
    type V = LinkView;

    open spec fn view(&self) -> LinkView {
        LinkView {
            from: self.from@,
            to: self.to@,
            direction: self.direction@,
            kind: self.kind@,
        }
    }
}

/// An org-level human definition.
#[derive(Debug, PartialEq, Eq)]
pub struct HumanDef {
    pub id: String,
    pub display_name: Option<String>,
    pub role: Option<String>,
    pub bio: Option<String>,
    /// Rich long-form context about this person, from the HUMAN.md in their directory.
    pub description: Option<String>,
    /// Platform user IDs for correlating inbound messages to this human.
    pub discord_id: Option<String>,
    pub telegram_id: Option<String>,
    pub slack_id: Option<String>,
    pub email: Option<String>,
}

/// The view of a [`HumanDef`].
#[verifier::ext_equal]
pub struct HumanView {
    pub id: Seq<char>,
    pub display_name: Option<Seq<char>>,
    pub role: Option<Seq<char>>,
    pub bio: Option<Seq<char>>,
    pub description: Option<Seq<char>>,
    pub discord_id: Option<Seq<char>>,
    pub telegram_id: Option<Seq<char>>,
    pub slack_id: Option<Seq<char>>,
    pub email: Option<Seq<char>>,
}

impl View for HumanDef {
    type V = HumanView;

    open spec fn view(&self) -> HumanView {
        HumanView {
            id: self.id@,
            display_name: text::view_of(self.display_name),
            role: text::view_of(self.role),
            bio: text::view_of(self.bio),
            description: text::view_of(self.description),
            discord_id: text::view_of(self.discord_id),
            telegram_id: text::view_of(self.telegram_id),
            slack_id: text::view_of(self.slack_id),
            email: text::view_of(self.email),
        }
    }
}

/// A visual group definition for the topology UI.
#[derive(Debug, PartialEq, Eq)]
pub struct GroupDef {
    pub name: String,
    pub agent_ids: Vec<String>,
    pub color: Option<String>,
}

/// The view of a [`GroupDef`].
#[verifier::ext_equal]
pub struct GroupView {
    pub name: Seq<char>,
    pub agent_ids: Seq<Seq<char>>,
    pub color: Option<Seq<char>>,
}

impl View for GroupDef {
    type V = GroupView;

    open spec fn view(&self) -> GroupView {
        GroupView {
            name: self.name@,
            agent_ids: text::views(self.agent_ids@),
            color: text::view_of(self.color),
        }
    }
}

/// Top-level Spacebot configuration.
#[derive(PartialEq, Eq)]
pub struct Config {
    /// Instance root directory (~/.spacebot or SPACEBOT_DIR).
    pub instance_dir: String,
    /// LLM provider credentials (shared across all agents).
    pub llm: LlmConfig,
    /// Default settings inherited by all agents.
    pub defaults: DefaultsConfig,
    /// Agent definitions.
    pub agents: Vec<AgentConfig>,
    /// Agent communication graph links.
    pub links: Vec<LinkDef>,
    /// Visual grouping of agents in the topology UI.
    pub groups: Vec<GroupDef>,
    /// Org-level humans (real people, shown in topology graph).
    pub humans: Vec<HumanDef>,
    /// Messaging platform credentials.
    pub messaging: MessagingConfig,
    /// Routing bindings (maps platform conversations to agents).
    pub bindings: Vec<Binding>,
    /// HTTP API server configuration.
    pub api: ApiConfig,
    /// Prometheus metrics endpoint configuration.
    pub metrics: MetricsConfig,
    /// OpenTelemetry export configuration.
    pub telemetry: TelemetryConfig,
}

/// The view of a [`Config`].
#[verifier::ext_equal]
pub struct ConfigView {
    pub instance_dir: Seq<char>,
    pub llm: LlmView,
    pub defaults: DefaultsView,
    pub agents: Seq<AgentView>,
    pub links: Seq<LinkView>,
    pub groups: Seq<GroupView>,
    pub humans: Seq<HumanView>,
    pub messaging: MessagingView,
    pub bindings: Seq<BindingView>,
    pub api: ApiView,
    pub metrics: MetricsView,
    pub telemetry: TelemetryView,
}

impl View for Config {
    type V = ConfigView;

    open spec fn view(&self) -> ConfigView {
        ConfigView {
            instance_dir: self.instance_dir@,
            llm: self.llm@,
            defaults: self.defaults@,
            agents: views::list(self.agents@),
            links: views::list(self.links@),
            groups: views::list(self.groups@),
            humans: views::list(self.humans@),
            messaging: self.messaging@,
            bindings: views::list(self.bindings@),
            api: self.api@,
            metrics: self.metrics@,
            telemetry: self.telemetry@,
        }
    }
}

/// What a configuration is loaded in.
#[derive(Debug, PartialEq, Eq)]
pub struct Surroundings {
    /// The environment and the stored secrets.
    pub context: ResolveContext,
    /// The text of each HUMAN.md that can be read, by the id of the human.
    pub human_texts: StringMap<String>,
    /// What other modules start with.
    pub modules: ModuleDefaults,
}

// ---------------------------------------------------------------------------
// Defaults
// ---------------------------------------------------------------------------

/// The default settings that a file gives over a base, with the cortex settings and
/// the servers that it gives. Without a routing section, routing is that of the
/// providers, where there are any.
pub open spec fn defaults_over(
    context: ResolveContext,
    toml: TomlDefaultsConfig,
    inferred: Option<RoutingView>,
    cortex: Option<CortexConfig>,
    servers: Seq<mcp::McpView>,
    base: DefaultsView,
    instance_dir: Seq<char>,
) -> DefaultsView {
    let browser_base = BrowserView {
        chrome_cache_dir: path::joined(instance_dir, "chrome_cache"@),
        ..base.browser
    };
    DefaultsView {
        routing: routing_section(toml.routing, inferred, base.routing),
        max_concurrent_branches: toml.max_concurrent_branches.unwrap_or(
            base.max_concurrent_branches,
        ),
        max_concurrent_workers: toml.max_concurrent_workers.unwrap_or(
            base.max_concurrent_workers,
        ),
        max_turns: toml.max_turns.unwrap_or(base.max_turns),
        branch_max_turns: toml.branch_max_turns.unwrap_or(base.branch_max_turns),
        context_window: toml.context_window.unwrap_or(base.context_window),
        compaction: CompactionConfig::section(toml.compaction, base.compaction),
        memory_persistence: MemoryPersistenceConfig::section(
            toml.memory_persistence,
            base.memory_persistence,
        ),
        coalesce: CoalesceConfig::section(toml.coalesce, base.coalesce),
        ingestion: IngestionConfig::section(toml.ingestion, base.ingestion),
        cortex: agent::or_default(cortex, base.cortex),
        warmup: WarmupConfig::section(toml.warmup, base.warmup),
        browser: BrowserConfig::section(toml.browser, browser_base),
        channel: ChannelConfig::section(toml.channel, base.channel),
        mcp: servers,
        brave_search_key: resolve::or_else(
            resolve::resolved_option(context, toml.brave_search_key),
            context.var("BRAVE_SEARCH_API_KEY"@),
        ),
        cron_timezone: resolve::resolved_option(context, toml.cron_timezone),
        user_timezone: resolve::resolved_option(context, toml.user_timezone),
        history_backfill_count: base.history_backfill_count,
        cron: Seq::empty(),
        opencode: OpenCodeConfig::section(context, toml.opencode, base.opencode),
        worker_log_mode: log_mode(toml.worker_log_mode, base.worker_log_mode),
        projects: ProjectsConfig::section(toml.projects, base.projects),
    }
}

/// The default settings that a file gives, or why they are refused.
pub open spec fn defaults_of_file(
    context: ResolveContext,
    toml: TomlDefaultsConfig,
    inferred: Option<RoutingView>,
    modules: ModuleDefaultsView,
    instance_dir: Seq<char>,
) -> Result<DefaultsView, ConfigErrorView> {
    let base = DefaultsConfig::initial(modules);
    match mcp::mcp_servers(toml.mcp@) {
        Err(refusal) => Err(refusal),
        Ok(servers) => match cortex_over(toml.cortex, base.cortex) {
            Err(refusal) => Err(refusal),
            Ok(cortex) => Ok(
                defaults_over(context, toml, inferred, cortex, servers, base, instance_dir),
            ),
        },
    }
}

/// Routing of the file over the one at the start; without it that of the providers.
pub open spec fn routing_section(
    toml: Option<crate::config::toml_schema::TomlRoutingConfig>,
    inferred: Option<RoutingView>,
    base: RoutingView,
) -> RoutingView {
    match toml {
        Some(t) => providers::routing_over(t, base),
        None => agent::or_default(inferred, base),
    }
}

/// The named log mode; the other where the name is missing or unknown.
pub open spec fn log_mode(name: Option<String>, other: WorkerLogMode) -> WorkerLogMode {
    match name {
        Some(n) => agent::or_default(settings::worker_log_mode_named(n@), other),
        None => other,
    }
}

/// Cortex settings of a section over a base, where there is such a section.
pub open spec fn cortex_over(
    toml: Option<crate::config::toml_schema::TomlCortexConfig>,
    base: CortexConfig,
) -> Result<Option<CortexConfig>, ConfigErrorView> {
    match toml {
        Some(t) => match CortexConfig::resolution(t, base) {
            Ok(cortex) => Ok(Some(cortex)),
            Err(refusal) => Err(refusal),
        },
        None => Ok(None),
    }
}

/// Reads cortex settings.
fn read_cortex(
    toml: Option<crate::config::toml_schema::TomlCortexConfig>,
    base: CortexConfig,
) -> (result: Result<Option<CortexConfig>, ConfigError>)
    ensures
        match result {
            Ok(cortex) => cortex_over(toml, base) == Ok::<_, ConfigErrorView>(cortex),
            Err(refusal) => cortex_over(toml, base) == Err::<Option<CortexConfig>, _>(refusal@),
        },
{
    match toml {
        Some(t) => match CortexConfig::resolve(t, base) {
            Ok(cortex) => Ok(Some(cortex)),
            Err(refusal) => Err(refusal),
        },
        None => Ok(None),
    }
}

/// The values of a section of the file over a base, where there is such a section.
fn compaction_over(
    toml: Option<TomlCompactionConfig>,
    base: CompactionConfig,
) -> (config: Option<CompactionConfig>)
    ensures
        config == (match toml {
            Some(t) => Some(CompactionConfig::overridden(t, base)),
            None => None,
        }),
{
    match toml {
        Some(t) => Some(CompactionConfig::override_with(t, base)),
        None => None,
    }
}

/// The values of a section of the file over a base, where there is such a section.
fn memory_persistence_over(
    toml: Option<TomlMemoryPersistenceConfig>,
    base: MemoryPersistenceConfig,
) -> (config: Option<MemoryPersistenceConfig>)
    ensures
        config == (match toml {
            Some(t) => Some(MemoryPersistenceConfig::overridden(t, base)),
            None => None,
        }),
{
    match toml {
        Some(t) => Some(MemoryPersistenceConfig::override_with(t, base)),
        None => None,
    }
}

/// The values of a section of the file over a base, where there is such a section.
fn coalesce_over(
    toml: Option<TomlCoalesceConfig>,
    base: CoalesceConfig,
) -> (config: Option<CoalesceConfig>)
    ensures
        config == (match toml {
            Some(t) => Some(CoalesceConfig::overridden(t, base)),
            None => None,
        }),
{
    match toml {
        Some(t) => Some(CoalesceConfig::override_with(t, base)),
        None => None,
    }
}

/// The values of a section of the file over a base, where there is such a section.
fn ingestion_over(
    toml: Option<TomlIngestionConfig>,
    base: IngestionConfig,
) -> (config: Option<IngestionConfig>)
    ensures
        config == (match toml {
            Some(t) => Some(IngestionConfig::overridden(t, base)),
            None => None,
        }),
{
    match toml {
        Some(t) => Some(IngestionConfig::override_with(t, base)),
        None => None,
    }
}

/// The values of a section of the file over a base, where there is such a section.
fn warmup_over(toml: Option<TomlWarmupConfig>, base: WarmupConfig) -> (config: Option<WarmupConfig>)
    ensures
        config == (match toml {
            Some(t) => Some(WarmupConfig::overridden(t, base)),
            None => None,
        }),
{
    match toml {
        Some(t) => Some(WarmupConfig::override_with(t, base)),
        None => None,
    }
}

/// The values of a section of the file over a base, where there is such a section.
fn channel_over(
    toml: Option<TomlChannelConfig>,
    base: ChannelConfig,
) -> (config: Option<ChannelConfig>)
    ensures
        config == (match toml {
            Some(t) => Some(ChannelConfig::overridden(t, base)),
            None => None,
        }),
{
    match toml {
        Some(t) => Some(ChannelConfig::override_with(t, base)),
        None => None,
    }
}

/// The view of loaded defaults.
pub open spec fn defaults_result(result: Result<DefaultsConfig, ConfigError>) -> Result<
    DefaultsView,
    ConfigErrorView,
> {
    match result {
        Ok(defaults) => Ok(defaults@),
        Err(refusal) => Err(refusal@),
    }
}

/// The named log mode, or the other.
fn read_log_mode(name: &Option<String>, other: WorkerLogMode) -> (mode: WorkerLogMode)
    ensures
        mode == log_mode(*name, other),
{
    match name {
        Some(n) => match WorkerLogMode::from_name(n.as_str()) {
            Some(mode) => mode,
            None => other,
        },
        None => other,
    }
}

/// Routing from a file over the routing at the start, or that of the providers.
fn read_routing(
    toml: Option<crate::config::toml_schema::TomlRoutingConfig>,
    inferred: Option<RoutingConfig>,
    base: RoutingConfig,
) -> (routing: RoutingConfig)
    ensures
        routing@ == routing_section(toml, views::optional(inferred), base@),
{
    match toml {
        Some(t) => providers::resolve_routing(Some(t), &base),
        None => match inferred {
            Some(routing) => routing,
            None => base,
        },
    }
}

/// Reads the default settings of a file over a base.
#[verifier::rlimit(30)]
fn override_defaults(
    context: &ResolveContext,
    toml: TomlDefaultsConfig,
    inferred: Option<RoutingConfig>,
    cortex: Option<CortexConfig>,
    servers: Vec<mcp::McpServerConfig>,
    base: DefaultsConfig,
    instance_dir: &str,
) -> (defaults: DefaultsConfig)
    ensures
        defaults@ == defaults_over(
            *context,
            toml,
            views::optional(inferred),
            cortex,
            views::list(servers@),
            base@,
            instance_dir@,
        ),
{
    let mut browser_base = base.browser;
    browser_base.chrome_cache_dir = path::join(instance_dir, "chrome_cache");
    let defaults = DefaultsConfig {
        routing: read_routing(toml.routing, inferred, base.routing),
        max_concurrent_branches: toml.max_concurrent_branches.unwrap_or(
            base.max_concurrent_branches,
        ),
        max_concurrent_workers: toml.max_concurrent_workers.unwrap_or(base.max_concurrent_workers),
        max_turns: toml.max_turns.unwrap_or(base.max_turns),
        branch_max_turns: toml.branch_max_turns.unwrap_or(base.branch_max_turns),
        context_window: toml.context_window.unwrap_or(base.context_window),
        compaction: CompactionConfig::read(toml.compaction, base.compaction),
        memory_persistence: MemoryPersistenceConfig::read(
            toml.memory_persistence,
            base.memory_persistence,
        ),
        coalesce: CoalesceConfig::read(toml.coalesce, base.coalesce),
        ingestion: IngestionConfig::read(toml.ingestion, base.ingestion),
        cortex: cortex.unwrap_or(base.cortex),
        warmup: WarmupConfig::read(toml.warmup, base.warmup),
        browser: BrowserConfig::read(toml.browser, browser_base),
        channel: ChannelConfig::read(toml.channel, base.channel),
        mcp: servers,
        brave_search_key: resolve::file_then_env(
            context,
            &toml.brave_search_key,
            "BRAVE_SEARCH_API_KEY",
        ),
        cron_timezone: resolve::resolve_option(context, &toml.cron_timezone),
        user_timezone: resolve::resolve_option(context, &toml.user_timezone),
        history_backfill_count: base.history_backfill_count,
        cron: Vec::new(),
        opencode: OpenCodeConfig::read(context, toml.opencode, base.opencode),
        worker_log_mode: read_log_mode(&toml.worker_log_mode, base.worker_log_mode),
        projects: ProjectsConfig::read(toml.projects, base.projects),
    };
    proof {
        assert(defaults@.cron =~= Seq::empty());
    }
    defaults
}

/// Reads the default settings of a file.
pub fn defaults_from_toml(
    context: &ResolveContext,
    mut toml: TomlDefaultsConfig,
    inferred: Option<RoutingConfig>,
    modules: ModuleDefaults,
    instance_dir: &str,
) -> (result: Result<DefaultsConfig, ConfigError>)
    ensures
        defaults_result(result) == defaults_of_file(
            *context,
            toml,
            views::optional(inferred),
            modules@,
            instance_dir@,
        ),
{
    let mut entries: Vec<crate::config::toml_schema::TomlMcpServerConfig> = Vec::new();
    core::mem::swap(&mut entries, &mut toml.mcp);
    let servers = match mcp::parse_mcp_servers(entries) {
        Ok(servers) => servers,
        Err(refusal) => {
            return Err(refusal);
        },
    };
    let base = DefaultsConfig::starting(modules);
    let cortex = match read_cortex(toml.cortex.take(), base.cortex) {
        Ok(cortex) => cortex,
        Err(refusal) => {
            return Err(refusal);
        },
    };
    Ok(override_defaults(context, toml, inferred, cortex, servers, base, instance_dir))
}

// ---------------------------------------------------------------------------
// Agents
// ---------------------------------------------------------------------------

/// A cron job of the file: hourly unless it says otherwise, and active at all hours
/// unless both ends are given.
pub open spec fn job_of_file(toml: TomlCronDef) -> CronView {
    CronView {
        id: toml.id@,
        prompt: toml.prompt@,
        cron_expr: text::view_of(toml.cron_expr),
        interval_secs: toml.interval_secs.unwrap_or(3600),
        delivery_target: toml.delivery_target@,
        active_hours: match (toml.active_start_hour, toml.active_end_hour) {
            (Some(start), Some(end)) => Some((start, end)),
            _ => None,
        },
        enabled: toml.enabled,
        run_once: toml.run_once,
        timeout_secs: toml.timeout_secs,
    }
}

/// Reads a cron job of the file.
pub fn job_from_toml(toml: TomlCronDef) -> (job: CronDef)
    ensures
        job@ == job_of_file(toml),
{
    CronDef {
        id: toml.id,
        prompt: toml.prompt,
        cron_expr: toml.cron_expr,
        interval_secs: toml.interval_secs.unwrap_or(3600),
        delivery_target: toml.delivery_target,
        active_hours: match (toml.active_start_hour, toml.active_end_hour) {
            (Some(start), Some(end)) => Some((start, end)),
            _ => None,
        },
        enabled: toml.enabled,
        run_once: toml.run_once,
        timeout_secs: toml.timeout_secs,
    }
}

/// Reads the cron jobs of the file.
fn jobs_from_toml(raw: Vec<TomlCronDef>) -> (list: Vec<CronDef>)
    ensures
        views::list(list@) == raw@.map_values(|item: TomlCronDef| job_of_file(item)),
{
    let ghost all = raw@;
    let mut list: Vec<CronDef> = Vec::new();
    for item in it: raw.into_iter()
        invariant
            it.seq() == all,
            list@.len() == it.index(),
            forall|j: int| 0 <= j < it.index() ==> (#[trigger] list@[j])@ == job_of_file(all[j]),
    {
        list.push(job_from_toml(item));
    }
    proof {
        assert(views::list(list@) =~= all.map_values(|item: TomlCronDef| job_of_file(item)));
    }
    list
}

/// The servers of an agent's section, where it has any.
pub open spec fn own_servers(
    raw: Option<Vec<crate::config::toml_schema::TomlMcpServerConfig>>,
) -> Result<Option<Seq<mcp::McpView>>, ConfigErrorView> {
    match raw {
        Some(list) => match mcp::mcp_servers(list@) {
            Ok(servers) => Ok(Some(servers)),
            Err(refusal) => Err(refusal),
        },
        None => Ok(None),
    }
}

/// An agent of the file over the default settings, or why it is refused.
pub open spec fn agent_of_file(
    context: ResolveContext,
    toml: TomlAgentConfig,
    defaults: DefaultsView,
) -> Result<AgentView, ConfigErrorView> {
    match cortex_over(toml.cortex, defaults.cortex) {
        Err(refusal) => Err(refusal),
        Ok(cortex) => match own_servers(toml.mcp) {
            Err(refusal) => Err(refusal),
            Ok(servers) => Ok(
                AgentView {
                    id: toml.id@,
                    default: toml.default,
                    display_name: text::view_of(toml.display_name),
                    role: text::view_of(toml.role),
                    gradient_start: text::view_of(toml.gradient_start),
                    gradient_end: text::view_of(toml.gradient_end),
                    workspace: text::view_of(toml.workspace),
                    routing: match toml.routing {
                        Some(t) => Some(providers::routing_over(t, defaults.routing)),
                        None => None,
                    },
                    max_concurrent_branches: toml.max_concurrent_branches,
                    max_concurrent_workers: toml.max_concurrent_workers,
                    max_turns: toml.max_turns,
                    branch_max_turns: toml.branch_max_turns,
                    context_window: toml.context_window,
                    compaction: match toml.compaction {
                        Some(t) => Some(CompactionConfig::overridden(t, defaults.compaction)),
                        None => None,
                    },
                    memory_persistence: match toml.memory_persistence {
                        Some(t) => Some(
                            MemoryPersistenceConfig::overridden(t, defaults.memory_persistence),
                        ),
                        None => None,
                    },
                    coalesce: match toml.coalesce {
                        Some(t) => Some(CoalesceConfig::overridden(t, defaults.coalesce)),
                        None => None,
                    },
                    ingestion: match toml.ingestion {
                        Some(t) => Some(IngestionConfig::overridden(t, defaults.ingestion)),
                        None => None,
                    },
                    cortex,
                    warmup: match toml.warmup {
                        Some(t) => Some(WarmupConfig::overridden(t, defaults.warmup)),
                        None => None,
                    },
                    browser: match toml.browser {
                        Some(t) => Some(BrowserConfig::overridden(t, defaults.browser)),
                        None => None,
                    },
                    channel: match toml.channel {
                        Some(t) => Some(ChannelConfig::overridden(t, defaults.channel)),
                        None => None,
                    },
                    mcp: servers,
                    brave_search_key: resolve::resolved_option(context, toml.brave_search_key),
                    cron_timezone: resolve::resolved_option(context, toml.cron_timezone),
                    user_timezone: resolve::resolved_option(context, toml.user_timezone),
                    sandbox: views::optional(toml.sandbox),
                    projects: match toml.projects {
                        Some(t) => Some(ProjectsConfig::overridden(t, defaults.projects)),
                        None => None,
                    },
                    cron: toml.cron@.map_values(|item: TomlCronDef| job_of_file(item)),
                },
            ),
        },
    }
}

/// The view of a loaded agent.
pub open spec fn agent_result(result: Result<AgentConfig, ConfigError>) -> Result<
    AgentView,
    ConfigErrorView,
> {
    match result {
        Ok(agent) => Ok(agent@),
        Err(refusal) => Err(refusal@),
    }
}

/// Reads the servers of an agent's section.
fn read_servers(raw: Option<Vec<crate::config::toml_schema::TomlMcpServerConfig>>) -> (result:
    Result<Option<Vec<mcp::McpServerConfig>>, ConfigError>)
    ensures
        match result {
            Ok(servers) => own_servers(raw) == Ok::<_, ConfigErrorView>(
                views::optional_list(servers),
            ),
            Err(refusal) => own_servers(raw) == Err::<Option<Seq<mcp::McpView>>, _>(refusal@),
        },
{
    match raw {
        Some(list) => match mcp::parse_mcp_servers(list) {
            Ok(servers) => Ok(Some(servers)),
            Err(refusal) => Err(refusal),
        },
        None => Ok(None),
    }
}

/// Routing of an agent's section over the default one.
fn agent_routing(
    toml: Option<crate::config::toml_schema::TomlRoutingConfig>,
    base: &RoutingConfig,
) -> (routing: Option<RoutingConfig>)
    ensures
        views::optional(routing) == (match toml {
            Some(t) => Some(providers::routing_over(t, base@)),
            None => None,
        }),
{
    match toml {
        Some(t) => Some(providers::resolve_routing(Some(t), base)),
        None => None,
    }
}

/// Browser settings of an agent's section over the default ones.
fn agent_browser(
    toml: Option<crate::config::toml_schema::TomlBrowserConfig>,
    base: &BrowserConfig,
) -> (browser: Option<BrowserConfig>)
    ensures
        views::optional(browser) == (match toml {
            Some(t) => Some(BrowserConfig::overridden(t, base@)),
            None => None,
        }),
{
    match toml {
        Some(t) => Some(BrowserConfig::override_with(t, base)),
        None => None,
    }
}

/// Project settings of an agent's section over the default ones.
fn agent_projects(
    toml: Option<crate::config::toml_schema::TomlProjectsConfig>,
    base: &ProjectsConfig,
) -> (projects: Option<ProjectsConfig>)
    ensures
        views::optional(projects) == (match toml {
            Some(t) => Some(ProjectsConfig::overridden(t, base@)),
            None => None,
        }),
{
    match toml {
        Some(t) => Some(ProjectsConfig::override_with(t, base)),
        None => None,
    }
}

/// Reads an agent of the file over the default settings.
pub fn agent_from_toml(
    context: &ResolveContext,
    toml: TomlAgentConfig,
    defaults: &DefaultsConfig,
) -> (result: Result<AgentConfig, ConfigError>)
    ensures
        agent_result(result) == agent_of_file(*context, toml, defaults@),
{
    let cortex = match read_cortex(toml.cortex, defaults.cortex) {
        Ok(cortex) => cortex,
        Err(refusal) => {
            return Err(refusal);
        },
    };
    let servers = match read_servers(toml.mcp) {
        Ok(servers) => servers,
        Err(refusal) => {
            return Err(refusal);
        },
    };
    Ok(
        AgentConfig {
            id: toml.id,
            default: toml.default,
            display_name: toml.display_name,
            role: toml.role,
            gradient_start: toml.gradient_start,
            gradient_end: toml.gradient_end,
            workspace: toml.workspace,
            routing: agent_routing(toml.routing, &defaults.routing),
            max_concurrent_branches: toml.max_concurrent_branches,
            max_concurrent_workers: toml.max_concurrent_workers,
            max_turns: toml.max_turns,
            branch_max_turns: toml.branch_max_turns,
            context_window: toml.context_window,
            compaction: compaction_over(toml.compaction, defaults.compaction),
            memory_persistence: memory_persistence_over(
                toml.memory_persistence,
                defaults.memory_persistence,
            ),
            coalesce: coalesce_over(toml.coalesce, defaults.coalesce),
            ingestion: ingestion_over(toml.ingestion, defaults.ingestion),
            cortex,
            warmup: warmup_over(toml.warmup, defaults.warmup),
            browser: agent_browser(toml.browser, &defaults.browser),
            channel: channel_over(toml.channel, defaults.channel),
            mcp: servers,
            brave_search_key: resolve::resolve_option(context, &toml.brave_search_key),
            cron_timezone: resolve::resolve_option(context, &toml.cron_timezone),
            user_timezone: resolve::resolve_option(context, &toml.user_timezone),
            sandbox: toml.sandbox,
            projects: agent_projects(toml.projects, &defaults.projects),
            cron: jobs_from_toml(toml.cron),
        },
    )
}

/// The agents of the file; the first refused one refuses them all.
pub open spec fn agents_of_file(
    context: ResolveContext,
    list: Seq<TomlAgentConfig>,
    defaults: DefaultsView,
) -> Result<Seq<AgentView>, ConfigErrorView>
    decreases list.len(),
{
    if list.len() == 0 {
        Ok(Seq::empty())
    } else {
        match agents_of_file(context, list.drop_last(), defaults) {
            Err(refusal) => Err(refusal),
            Ok(agents) => match agent_of_file(context, list.last(), defaults) {
                Err(refusal) => Err(refusal),
                Ok(agent) => Ok(agents.push(agent)),
            },
        }
    }
}

/// A refused agent refuses every longer list.
proof fn lemma_agent_refusal_stays(
    context: ResolveContext,
    list: Seq<TomlAgentConfig>,
    defaults: DefaultsView,
    n: int,
)
    requires
        0 <= n <= list.len(),
        agents_of_file(context, list.subrange(0, n), defaults) is Err,
    ensures
        agents_of_file(context, list, defaults) == agents_of_file(
            context,
            list.subrange(0, n),
            defaults,
        ),
    decreases list.len(),
{
    if n == list.len() {
        assert(list.subrange(0, n) =~= list);
    } else {
        assert(list.drop_last().subrange(0, n) =~= list.subrange(0, n));
        lemma_agent_refusal_stays(context, list.drop_last(), defaults, n);
    }
}

/// The view of loaded agents.
pub open spec fn agents_result(result: Result<Vec<AgentConfig>, ConfigError>) -> Result<
    Seq<AgentView>,
    ConfigErrorView,
> {
    match result {
        Ok(agents) => Ok(views::list(agents@)),
        Err(refusal) => Err(refusal@),
    }
}

/// Reads the agents of the file.
pub fn agents_from_toml(
    context: &ResolveContext,
    list: Vec<TomlAgentConfig>,
    defaults: &DefaultsConfig,
) -> (result: Result<Vec<AgentConfig>, ConfigError>)
    ensures
        agents_result(result) == agents_of_file(*context, list@, defaults@),
{
    let ghost all = list@;
    let mut agents: Vec<AgentConfig> = Vec::new();
    proof {
        assert(all.subrange(0, 0) =~= Seq::empty());
        assert(views::list(agents@) =~= Seq::empty());
    }
    for entry in it: list.into_iter()
        invariant
            it.seq() == all,
            agents_of_file(*context, all.subrange(0, it.index() as int), defaults@) == Ok::<
                _,
                ConfigErrorView,
            >(views::list(agents@)),
    {
        let ghost i = it.index() as int;
        proof {
            let next = all.subrange(0, i + 1);
            assert(next.drop_last() =~= all.subrange(0, i));
            assert(next.last() == entry);
        }
        match agent_from_toml(context, entry, defaults) {
            Ok(agent) => {
                proof {
                    assert(views::list(agents@.push(agent)) =~= views::list(agents@).push(agent@));
                }
                agents.push(agent);
            },
            Err(refusal) => {
                proof {
                    lemma_agent_refusal_stays(*context, all, defaults@, i + 1);
                }
                return Err(refusal);
            },
        }
    }
    proof {
        assert(all.subrange(0, all.len() as int) =~= all);
    }
    Ok(agents)
}

/// Some agent of the list is marked as the default one.
pub open spec fn has_default(agents: Seq<AgentView>) -> bool {
    exists|i: int| 0 <= i < agents.len() && (#[trigger] agents[i]).default
}

/// The agents of an instance: one named `main` where none is defined, and the first
/// one as the default where none is marked.
pub open spec fn completed_agents(agents: Seq<AgentView>) -> Seq<AgentView> {
    if agents.len() == 0 {
        seq![AgentConfig::bare("main"@, true)]
    } else if has_default(agents) {
        agents
    } else {
        agents.update(0, AgentView { default: true, ..agents[0] })
    }
}

/// Completes the agents of an instance.
pub fn complete_agents(own: Vec<AgentConfig>) -> (completed: Vec<AgentConfig>)
    ensures
        views::list(completed@) == completed_agents(views::list(own@)),
{
    let mut agents = own;
    if agents.len() == 0 {
        agents.push(AgentConfig::main());
        proof {
            assert(views::list(agents@) =~= seq![AgentConfig::bare("main"@, true)]);
        }
        return agents;
    }
    let ghost list = views::list(agents@);
    let mut i: usize = 0;
    while i < agents.len()
        invariant
            i <= agents@.len(),
            list == views::list(agents@),
            list == views::list(own@),
            forall|j: int| 0 <= j < i ==> !(#[trigger] list[j]).default,
        decreases agents@.len() - i,
    {
        assert(list[i as int] == agents@[i as int]@);
        if agents[i].default {
            assert(list[i as int].default);
            return agents;
        }
        i += 1;
    }
    agents[0].default = true;
    proof {
        assert(views::list(agents@) =~= list.update(0, AgentView { default: true, ..list[0] }));
    }
    agents
}

/// An instance has an agent, and one that is marked as the default one.
pub proof fn law_an_instance_has_a_default_agent(agents: Seq<AgentView>)
    ensures
        completed_agents(agents).len() > 0,
        has_default(completed_agents(agents)),
{
    let completed = completed_agents(agents);
    if agents.len() == 0 {
        assert(completed[0].default);
    } else if !has_default(agents) {
        assert(completed[0].default);
    }
}

// ---------------------------------------------------------------------------
// Bindings, links, groups and humans
// ---------------------------------------------------------------------------

/// A binding of the file.
pub open spec fn binding_of_file(toml: TomlBinding) -> BindingView {
    BindingView {
        agent_id: toml.agent_id@,
        channel: toml.channel@,
        adapter: binding::normalized_adapter(text::view_of(toml.adapter)),
        guild_id: text::view_of(toml.guild_id),
        workspace_id: text::view_of(toml.workspace_id),
        chat_id: text::view_of(toml.chat_id),
        channel_ids: text::views(toml.channel_ids@),
        require_mention: toml.require_mention,
        dm_allowed_users: text::views(toml.dm_allowed_users@),
    }
}

/// Reads a binding of the file.
pub fn binding_from_toml(toml: TomlBinding) -> (binding: Binding)
    ensures
        binding@ == binding_of_file(toml),
{
    Binding {
        agent_id: toml.agent_id,
        channel: toml.channel,
        adapter: binding::normalize_adapter(toml.adapter),
        guild_id: toml.guild_id,
        workspace_id: toml.workspace_id,
        chat_id: toml.chat_id,
        channel_ids: toml.channel_ids,
        require_mention: toml.require_mention,
        dm_allowed_users: toml.dm_allowed_users,
    }
}

/// Reads the bindings of the file.
fn bindings_from_toml(raw: Vec<TomlBinding>) -> (list: Vec<Binding>)
    ensures
        views::list(list@) == raw@.map_values(|item: TomlBinding| binding_of_file(item)),
{
    let ghost all = raw@;
    let mut list: Vec<Binding> = Vec::new();
    for item in it: raw.into_iter()
        invariant
            it.seq() == all,
            list@.len() == it.index(),
            forall|j: int|
                0 <= j < it.index() ==> (#[trigger] list@[j])@ == binding_of_file(all[j]),
    {
        list.push(binding_from_toml(item));
    }
    proof {
        assert(views::list(list@) =~= all.map_values(|item: TomlBinding| binding_of_file(item)));
    }
    list
}

/// A link of the file. The older `relationship` counts where `kind` is the usual one.
pub open spec fn link_of_file(toml: TomlLinkDef) -> LinkView {
    LinkView {
        from: toml.from@,
        to: toml.to@,
        direction: toml.direction@,
        kind: if toml.kind@ == "peer"@ {
            providers::text_or(toml.relationship, toml.kind@)
        } else {
            toml.kind@
        },
    }
}

/// Reads a link of the file.
pub fn link_from_toml(toml: TomlLinkDef) -> (link: LinkDef)
    ensures
        link@ == link_of_file(toml),
{
    let kind = if text::same(toml.kind.as_str(), "peer") {
        match toml.relationship {
            Some(relationship) => relationship,
            None => toml.kind,
        }
    } else {
        toml.kind
    };
    LinkDef { from: toml.from, to: toml.to, direction: toml.direction, kind }
}

/// Reads the links of the file.
fn links_from_toml(raw: Vec<TomlLinkDef>) -> (list: Vec<LinkDef>)
    ensures
        views::list(list@) == raw@.map_values(|item: TomlLinkDef| link_of_file(item)),
{
    let ghost all = raw@;
    let mut list: Vec<LinkDef> = Vec::new();
    for item in it: raw.into_iter()
        invariant
            it.seq() == all,
            list@.len() == it.index(),
            forall|j: int| 0 <= j < it.index() ==> (#[trigger] list@[j])@ == link_of_file(all[j]),
    {
        list.push(link_from_toml(item));
    }
    proof {
        assert(views::list(list@) =~= all.map_values(|item: TomlLinkDef| link_of_file(item)));
    }
    list
}

/// A group of the file.
pub open spec fn group_of_file(toml: TomlGroupDef) -> GroupView {
    GroupView {
        name: toml.name@,
        agent_ids: text::views(toml.agent_ids@),
        color: text::view_of(toml.color),
    }
}

/// Reads the groups of the file.
fn groups_from_toml(raw: Vec<TomlGroupDef>) -> (list: Vec<GroupDef>)
    ensures
        views::list(list@) == raw@.map_values(|item: TomlGroupDef| group_of_file(item)),
{
    let ghost all = raw@;
    let mut list: Vec<GroupDef> = Vec::new();
    for item in it: raw.into_iter()
        invariant
            it.seq() == all,
            list@.len() == it.index(),
            forall|j: int| 0 <= j < it.index() ==> (#[trigger] list@[j])@ == group_of_file(all[j]),
    {
        list.push(GroupDef { name: item.name, agent_ids: item.agent_ids, color: item.color });
    }
    proof {
        assert(views::list(list@) =~= all.map_values(|item: TomlGroupDef| group_of_file(item)));
    }
    list
}

/// Where the text about a human is kept.
pub open spec fn human_text_path(instance_dir: Seq<char>, id: Seq<char>) -> Seq<char> {
    path::joined(path::joined(path::joined(instance_dir, "humans"@), id), "HUMAN.md"@)
}

/// Where the text about a human is kept.
pub fn human_md_path(instance_dir: &str, id: &str) -> (path: String)
    ensures
        path@ == human_text_path(instance_dir@, id@),
{
    let humans = path::join(instance_dir, "humans");
    let dir = path::join(humans.as_str(), id);
    path::join(dir.as_str(), "HUMAN.md")
}

/// The text about a human, where there is one and it is not blank.
pub open spec fn human_text(texts: StringMap<String>, id: Seq<char>) -> Option<Seq<char>> {
    match resolve::lookup(texts, id) {
        Some(content) => if text::is_blank(content) {
            None
        } else {
            Some(content)
        },
        None => None,
    }
}

/// The text about a human, where there is one and it is not blank.
pub fn load_human_md(texts: &StringMap<String>, id: &str) -> (description: Option<String>)
    ensures
        text::view_of(description) == human_text(*texts, id@),
{
    match texts.get_owned(id) {
        Some(content) => if text::is_blank_text(content.as_str()) {
            None
        } else {
            Some(content)
        },
        None => None,
    }
}

/// A human of the file.
pub open spec fn human_of_file(texts: StringMap<String>, toml: TomlHumanDef) -> HumanView {
    HumanView {
        id: toml.id@,
        display_name: text::view_of(toml.display_name),
        role: text::view_of(toml.role),
        bio: text::view_of(toml.bio),
        description: human_text(texts, toml.id@),
        discord_id: text::view_of(toml.discord_id),
        telegram_id: text::view_of(toml.telegram_id),
        slack_id: text::view_of(toml.slack_id),
        email: text::view_of(toml.email),
    }
}

/// Reads a human of the file.
pub fn human_from_toml(texts: &StringMap<String>, toml: TomlHumanDef) -> (human: HumanDef)
    ensures
        human@ == human_of_file(*texts, toml),
{
    let description = load_human_md(texts, toml.id.as_str());
    HumanDef {
        id: toml.id,
        display_name: toml.display_name,
        role: toml.role,
        bio: toml.bio,
        description,
        discord_id: toml.discord_id,
        telegram_id: toml.telegram_id,
        slack_id: toml.slack_id,
        email: toml.email,
    }
}

/// Reads the humans of the file.
fn humans_from_toml(texts: &StringMap<String>, raw: Vec<TomlHumanDef>) -> (list: Vec<HumanDef>)
    ensures
        views::list(list@) == raw@.map_values(|item: TomlHumanDef| human_of_file(*texts, item)),
{
    let ghost all = raw@;
    let mut list: Vec<HumanDef> = Vec::new();
    for item in it: raw.into_iter()
        invariant
            it.seq() == all,
            list@.len() == it.index(),
            forall|j: int|
                0 <= j < it.index() ==> (#[trigger] list@[j])@ == human_of_file(*texts, all[j]),
    {
        list.push(human_from_toml(texts, item));
    }
    proof {
        assert(views::list(list@) =~= all.map_values(
            |item: TomlHumanDef| human_of_file(*texts, item),
        ));
    }
    list
}

/// The administrator, who is there where no human is defined.
pub open spec fn administrator(texts: StringMap<String>) -> HumanView {
    HumanView {
        id: "admin"@,
        display_name: None,
        role: None,
        bio: None,
        description: human_text(texts, "admin"@),
        discord_id: None,
        telegram_id: None,
        slack_id: None,
        email: None,
    }
}

/// The administrator, who is there where no human is defined.
fn make_administrator(texts: &StringMap<String>) -> (human: HumanDef)
    ensures
        human@ == administrator(*texts),
{
    HumanDef {
        id: "admin".to_owned(),
        display_name: None,
        role: None,
        bio: None,
        description: load_human_md(texts, "admin"),
        discord_id: None,
        telegram_id: None,
        slack_id: None,
        email: None,
    }
}

/// The link from the administrator to an agent.
pub open spec fn administrator_link(agent_id: Seq<char>) -> LinkView {
    LinkView {
        from: "admin"@,
        to: agent_id,
        direction: "one_way"@,
        kind: "hierarchical"@,
    }
}

/// The link from the administrator to an agent.
fn make_administrator_link(agent_id: &str) -> (link: LinkDef)
    ensures
        link@ == administrator_link(agent_id@),
{
    LinkDef {
        from: "admin".to_owned(),
        to: agent_id.to_owned(),
        direction: "one_way".to_owned(),
        kind: "hierarchical".to_owned(),
    }
}

/// The administrator, linked to an agent.
pub(crate) fn administrator_and_link(texts: &StringMap<String>, agent_id: &str) -> (both: (
    Vec<LinkDef>,
    Vec<HumanDef>,
))
    ensures
        views::list(both.0@) == seq![administrator_link(agent_id@)],
        views::list(both.1@) == seq![administrator(*texts)],
{
    let mut links: Vec<LinkDef> = Vec::new();
    links.push(make_administrator_link(agent_id));
    let mut humans: Vec<HumanDef> = Vec::new();
    humans.push(make_administrator(texts));
    proof {
        assert(views::list(links@) =~= seq![administrator_link(agent_id@)]);
        assert(views::list(humans@) =~= seq![administrator(*texts)]);
    }
    (links, humans)
}

/// The humans of an instance.
pub open spec fn completed_humans(
    texts: StringMap<String>,
    humans: Seq<HumanView>,
) -> Seq<HumanView> {
    if humans.len() == 0 {
        seq![administrator(texts)]
    } else {
        humans
    }
}

/// The default agent of the list.
pub open spec fn default_agent(agents: Seq<AgentView>) -> Option<AgentView>
    decreases agents.len(),
{
    if agents.len() == 0 {
        None
    } else if agents[0].default {
        Some(agents[0])
    } else {
        default_agent(agents.drop_first())
    }
}

/// The links of an instance: where neither humans nor links are defined, the
/// administrator is linked to the default agent.
pub open spec fn completed_links(
    links: Seq<LinkView>,
    no_humans: bool,
    agents: Seq<AgentView>,
) -> Seq<LinkView> {
    if no_humans && links.len() == 0 {
        match default_agent(agents) {
            Some(agent) => seq![administrator_link(agent.id)],
            None => links,
        }
    } else {
        links
    }
}

/// Where the default agent of the list is.
fn find_default_agent(agents: &Vec<AgentConfig>) -> (found: Option<usize>)
    ensures
        match found {
            Some(i) => i < agents@.len() && default_agent(views::list(agents@)) == Some(
                agents@[i as int]@,
            ),
            None => default_agent(views::list(agents@)) is None,
        },
{
    let ghost all = views::list(agents@);
    proof {
        assert(all.skip(0) =~= all);
    }
    let mut i: usize = 0;
    while i < agents.len()
        invariant
            i <= agents@.len(),
            all == views::list(agents@),
            default_agent(all) == default_agent(all.skip(i as int)),
        decreases agents@.len() - i,
    {
        proof {
            assert(all.skip(i as int)[0] == agents@[i as int]@);
            assert(all.skip(i as int).drop_first() =~= all.skip(i as int + 1));
        }
        if agents[i].default {
            return Some(i);
        }
        i += 1;
    }
    None
}

/// Completes the links of an instance.
fn complete_links(links: Vec<LinkDef>, no_humans: bool, agents: &Vec<AgentConfig>) -> (completed:
    Vec<LinkDef>)
    ensures
        views::list(completed@) == completed_links(
            views::list(links@),
            no_humans,
            views::list(agents@),
        ),
{
    let mut links = links;
    if no_humans && links.len() == 0 {
        if let Some(i) = find_default_agent(agents) {
            let link = make_administrator_link(agents[i].id.as_str());
            links.push(link);
            proof {
                assert(views::list(links@) =~= seq![administrator_link(agents@[i as int].id@)]);
            }
        }
    }
    links
}

// ---------------------------------------------------------------------------
// Telemetry
// ---------------------------------------------------------------------------

/// The headers with those of one more entry, or why it is refused. An empty entry
/// counts for nothing.
pub open spec fn with_header(headers: Map<Seq<char>, Seq<char>>, entry: Seq<char>) -> Result<
    Map<Seq<char>, Seq<char>>,
    ConfigErrorView,
> {
    let bare = text::trimmed(entry);
    if bare.len() == 0 {
        Ok(headers)
    } else {
        match text::cut(bare, "="@) {
            None => Err(
                ConfigErrorView::Invalid(
                    "invalid OTEL_EXPORTER_OTLP_HEADERS entry '"@ + bare
                        + "', expected key=value"@,
                ),
            ),
            Some((key, value)) => if text::trimmed(key).len() == 0 {
                Err(
                    ConfigErrorView::Invalid(
                        "invalid OTEL_EXPORTER_OTLP_HEADERS entry: empty header name"@,
                    ),
                )
            } else {
                Ok(headers.insert(text::trimmed(key), text::trimmed(value)))
            },
        }
    }
}

/// The headers of a list of entries; the first refused entry refuses them all.
pub open spec fn headers_of(entries: Seq<Seq<char>>) -> Result<
    Map<Seq<char>, Seq<char>>,
    ConfigErrorView,
>
    decreases entries.len(),
{
    if entries.len() == 0 {
        Ok(Map::empty())
    } else {
        match headers_of(entries.drop_last()) {
            Err(refusal) => Err(refusal),
            Ok(headers) => with_header(headers, entries.last()),
        }
    }
}

/// The headers of a text in which commas separate entries of the form key=value.
pub open spec fn otlp_headers(raw: Option<Seq<char>>) -> Result<
    Map<Seq<char>, Seq<char>>,
    ConfigErrorView,
> {
    match raw {
        Some(value) => if text::trimmed(value).len() == 0 {
            Ok(Map::empty())
        } else {
            headers_of(text::pieces(text::trimmed(value), ','))
        },
        None => Ok(Map::empty()),
    }
}

/// A refused entry refuses every longer list.
proof fn lemma_header_refusal_stays(entries: Seq<Seq<char>>, n: int)
    requires
        0 <= n <= entries.len(),
        headers_of(entries.subrange(0, n)) is Err,
    ensures
        headers_of(entries) == headers_of(entries.subrange(0, n)),
    decreases entries.len(),
{
    if n == entries.len() {
        assert(entries.subrange(0, n) =~= entries);
    } else {
        assert(entries.drop_last().subrange(0, n) =~= entries.subrange(0, n));
        lemma_header_refusal_stays(entries.drop_last(), n);
    }
}

/// The view of parsed headers.
pub open spec fn headers_result(result: Result<StringMap<String>, ConfigError>) -> Result<
    Map<Seq<char>, Seq<char>>,
    ConfigErrorView,
> {
    match result {
        Ok(headers) => Ok(views::entries(headers@)),
        Err(refusal) => Err(refusal@),
    }
}

/// Takes in the headers of one entry.
fn add_header(headers: &mut StringMap<String>, entry: &str) -> (result: Result<(), ConfigError>)
    ensures
        match result {
            Ok(_) => with_header(views::entries(old(headers)@), entry@) == Ok::<
                _,
                ConfigErrorView,
            >(views::entries(final(headers)@)),
            Err(refusal) => with_header(views::entries(old(headers)@), entry@) == Err::<
                Map<Seq<char>, Seq<char>>,
                _,
            >(refusal@),
        },
{
    let bare = text::trim(entry);
    if text::chars_of(bare.as_str()).len() == 0 {
        return Ok(());
    }
    match text::split_once(bare.as_str(), "=") {
        None => Err(
            ConfigError::Invalid(
                error::quoted(
                    "invalid OTEL_EXPORTER_OTLP_HEADERS entry '",
                    bare.as_str(),
                    "', expected key=value",
                ),
            ),
        ),
        Some((key, value)) => {
            let key = text::trim(key.as_str());
            let value = text::trim(value.as_str());
            if text::chars_of(key.as_str()).len() == 0 {
                return Err(
                    ConfigError::Invalid(
                        "invalid OTEL_EXPORTER_OTLP_HEADERS entry: empty header name".to_owned(),
                    ),
                );
            }
            let ghost before = headers@;
            headers.insert(key, value);
            proof {
                assert(views::entries(headers@) =~= views::entries(before).insert(key@, value@));
            }
            Ok(())
        },
    }
}

/// Reads the headers of a text in which commas separate entries of the form
/// key=value.
pub fn parse_otlp_headers(value: Option<String>) -> (result: Result<
    StringMap<String>,
    ConfigError,
>)
    ensures
        headers_result(result) == otlp_headers(text::view_of(value)),
{
    let mut headers: StringMap<String> = StringMap::new();
    proof {
        assert(views::entries(headers@) =~= Map::empty());
    }
    let raw = match value {
        Some(raw) => text::trim(raw.as_str()),
        None => {
            return Ok(headers);
        },
    };
    if text::chars_of(raw.as_str()).len() == 0 {
        return Ok(headers);
    }
    let entries = text::split_char(raw.as_str(), ',');
    let ghost all = text::views(entries@);
    proof {
        assert(all.subrange(0, 0) =~= Seq::empty());
    }
    let mut i: usize = 0;
    while i < entries.len()
        invariant
            i <= entries@.len(),
            all == text::views(entries@),
            otlp_headers(text::view_of(value)) == headers_of(all),
            headers_of(all.subrange(0, i as int)) == Ok::<_, ConfigErrorView>(
                views::entries(headers@),
            ),
        decreases entries@.len() - i,
    {
        proof {
            let next = all.subrange(0, i as int + 1);
            assert(next.drop_last() =~= all.subrange(0, i as int));
            assert(next.last() == entries@[i as int]@);
        }
        match add_header(&mut headers, entries[i].as_str()) {
            Ok(_) => {},
            Err(refusal) => {
                proof {
                    lemma_header_refusal_stays(all, i as int + 1);
                }
                return Err(refusal);
            },
        }
        i += 1;
    }
    proof {
        assert(all.subrange(0, all.len() as int) =~= all);
    }
    Ok(headers)
}

/// Telemetry settings. The endpoint of the file falls back to the environment's; headers
/// and the name of the service come from the environment before they come from the file.
pub open spec fn telemetry_of(
    context: ResolveContext,
    endpoint: Option<Seq<char>>,
    headers: Option<Seq<char>>,
    service_name: Option<Seq<char>>,
    sample_rate: Option<Double>,
) -> Result<TelemetryView, ConfigErrorView> {
    match otlp_headers(resolve::or_else(context.var("OTEL_EXPORTER_OTLP_HEADERS"@), headers)) {
        Err(refusal) => Err(refusal),
        Ok(parsed) => Ok(
            TelemetryView {
                otlp_endpoint: resolve::or_else(
                    endpoint,
                    context.var("OTEL_EXPORTER_OTLP_ENDPOINT"@),
                ),
                otlp_headers: parsed,
                service_name: agent::or_default(
                    resolve::or_else(context.var("OTEL_SERVICE_NAME"@), service_name),
                    "spacebot"@,
                ),
                sample_rate: sample_rate.unwrap_or(Double { bits: 0x3ff0_0000_0000_0000 }),
            },
        ),
    }
}

/// The variable of the environment, or else the value.
fn env_or(context: &ResolveContext, name: &str, value: Option<String>) -> (chosen: Option<String>)
    ensures
        text::view_of(chosen) == resolve::or_else(context.var(name@), text::view_of(value)),
{
    match context.env_var(name) {
        Some(v) => Some(v),
        None => value,
    }
}

/// The view of loaded telemetry settings.
pub open spec fn telemetry_result(result: Result<TelemetryConfig, ConfigError>) -> Result<
    TelemetryView,
    ConfigErrorView,
> {
    match result {
        Ok(telemetry) => Ok(telemetry@),
        Err(refusal) => Err(refusal@),
    }
}

/// Reads telemetry settings. The endpoint of the file falls back to the environment's;
/// headers and the name of the service come from the environment first.
pub fn telemetry_from_toml(context: &ResolveContext, toml: TomlTelemetryConfig) -> (result: Result<
    TelemetryConfig,
    ConfigError,
>)
    ensures
        telemetry_result(result) == telemetry_of(
            *context,
            text::view_of(toml.otlp_endpoint),
            text::view_of(toml.otlp_headers),
            text::view_of(toml.service_name),
            toml.sample_rate,
        ),
{
    let otlp_endpoint = match toml.otlp_endpoint {
        Some(endpoint) => Some(endpoint),
        None => context.env_var("OTEL_EXPORTER_OTLP_ENDPOINT"),
    };
    let otlp_headers = match parse_otlp_headers(
        env_or(context, "OTEL_EXPORTER_OTLP_HEADERS", toml.otlp_headers),
    ) {
        Ok(headers) => headers,
        Err(refusal) => {
            return Err(refusal);
        },
    };
    let service_name = match env_or(context, "OTEL_SERVICE_NAME", toml.service_name) {
        Some(name) => name,
        None => "spacebot".to_owned(),
    };
    Ok(
        TelemetryConfig {
            otlp_endpoint,
            otlp_headers,
            service_name,
            sample_rate: toml.sample_rate.unwrap_or(Double { bits: 0x3ff0_0000_0000_0000 }),
        },
    )
}

// ---------------------------------------------------------------------------
// The whole configuration
// ---------------------------------------------------------------------------

/// The configuration that a file gives, or why it is refused, with the providers it
/// gives, the routing taken from them, and the address that the HTTP API is bound to.
pub open spec fn config_of_file(
    toml: TomlConfig,
    instance_dir: Seq<char>,
    surroundings: Surroundings,
    llm: LlmView,
    inferred: Option<RoutingView>,
    api_bind: Seq<char>,
) -> Result<ConfigView, ConfigErrorView> {
    let context = surroundings.context;
    match defaults_of_file(
        context,
        toml.defaults,
        inferred,
        surroundings.modules@,
        instance_dir,
    ) {
        Err(refusal) => Err(refusal),
        Ok(defaults) => match agents_of_file(context, toml.agents@, defaults) {
            Err(refusal) => Err(refusal),
            Ok(own_agents) => {
                let agents = completed_agents(own_agents);
                let messaging = messaging_load::messaging(context, toml.messaging);
                let bindings = toml.bindings@.map_values(|item: TomlBinding| binding_of_file(item));
                let links = toml.links@.map_values(|item: TomlLinkDef| link_of_file(item));
                let humans = toml.humans@.map_values(
                    |item: TomlHumanDef| human_of_file(surroundings.human_texts, item),
                );
                match adapters::adapters_check(messaging, bindings) {
                    Err(refusal) => Err(refusal),
                    Ok(_) => match telemetry_of(
                        context,
                        text::view_of(toml.telemetry.otlp_endpoint),
                        text::view_of(toml.telemetry.otlp_headers),
                        text::view_of(toml.telemetry.service_name),
                        toml.telemetry.sample_rate,
                    ) {
                        Err(refusal) => Err(refusal),
                        Ok(telemetry) => Ok(
                            ConfigView {
                                instance_dir,
                                llm,
                                defaults,
                                agents,
                                links: completed_links(links, humans.len() == 0, agents),
                                groups: toml.groups@.map_values(
                                    |item: TomlGroupDef| group_of_file(item),
                                ),
                                humans: completed_humans(surroundings.human_texts, humans),
                                messaging,
                                bindings,
                                api: ApiView {
                                    enabled: toml.api.enabled,
                                    port: toml.api.port,
                                    bind: api_bind,
                                    auth_token: resolve::resolved_option(
                                        context,
                                        toml.api.auth_token,
                                    ),
                                },
                                metrics: MetricsView {
                                    enabled: toml.metrics.enabled,
                                    port: toml.metrics.port,
                                    bind: toml.metrics.bind@,
                                },
                                telemetry,
                            },
                        ),
                    },
                }
            },
        },
    }
}

/// The view of a loaded configuration.
pub open spec fn config_result(result: Result<Config, ConfigError>) -> Result<
    ConfigView,
    ConfigErrorView,
> {
    match result {
        Ok(config) => Ok(config@),
        Err(refusal) => Err(refusal@),
    }
}

/// A routing that may have been taken from the providers.
pub open spec fn may_infer<F: Fn(&str) -> RoutingConfig>(
    llm: LlmView,
    defaults_for_provider: F,
    inferred: Option<RoutingConfig>,
) -> bool {
    match inferred {
        Some(routing) => providers::is_default_routing(
            llm.providers,
            defaults_for_provider,
            routing,
        ),
        None => llm.providers == Map::<Seq<char>, crate::config::provider::ProviderView>::empty(),
    }
}

/// The address is what the function gives for an address.
pub open spec fn gives_address<G: Fn(&str) -> String>(
    hosted_api_bind: G,
    bind: &str,
    address: String,
) -> bool {
    call_ensures(hosted_api_bind, (bind,), address)
}

/// The address is what the function gives for a configured one.
pub open spec fn is_hosted_address<G: Fn(&str) -> String>(
    hosted_api_bind: G,
    configured: Seq<char>,
    address: String,
) -> bool {
    exists|bind: &str|
        bind@ == configured && #[trigger] gives_address(hosted_api_bind, bind, address)
}

/// Finds the address that the HTTP API is to be bound to.
pub(crate) fn host_address<G: Fn(&str) -> String>(hosted_api_bind: &G, configured: &str) -> (
address: String)
    requires
        forall|bind: &str| #[trigger] call_requires(*hosted_api_bind, (bind,)),
    ensures
        is_hosted_address(*hosted_api_bind, configured@, address),
{
    let address = hosted_api_bind(configured);
    proof {
        assert(gives_address(*hosted_api_bind, configured, address));
    }
    address
}

/// The configuration of a file with some routing taken from the providers, and with the
/// address that the host has for the one in the file.
pub open spec fn is_config_of_file<F: Fn(&str) -> RoutingConfig, G: Fn(&str) -> String>(
    toml: TomlConfig,
    instance_dir: Seq<char>,
    surroundings: Surroundings,
    llm: LlmView,
    defaults_for_provider: F,
    hosted_api_bind: G,
    inferred: Option<RoutingConfig>,
    api_bind: String,
    result: Result<ConfigView, ConfigErrorView>,
) -> bool {
    &&& may_infer(llm, defaults_for_provider, inferred)
    &&& is_hosted_address(hosted_api_bind, toml.api.bind@, api_bind)
    &&& result == config_of_file(
        toml,
        instance_dir,
        surroundings,
        llm,
        views::optional(inferred),
        api_bind@,
    )
}

/// Takes the routing of the providers.
pub(crate) fn infer_routing<F: Fn(&str) -> RoutingConfig>(
    llm: &LlmConfig,
    defaults_for_provider: &F,
) -> (inferred: Option<RoutingConfig>)
    requires
        forall|name: &str| #[trigger] call_requires(*defaults_for_provider, (name,)),
    ensures
        may_infer(llm@, *defaults_for_provider, inferred),
{
    let inferred = providers::infer_routing_from_providers(&llm.providers, defaults_for_provider);
    proof {
        if inferred is Some {
            let routing = inferred->0;
            let name = choose|name: &str|
                providers::may_route(llm.providers@, name@) && #[trigger] providers::gives(
                    *defaults_for_provider,
                    name,
                    routing,
                );
            providers::lemma_may_route_over_views(llm.providers@, name@);
            assert(providers::may_route(llm@.providers, name@) && providers::gives(
                *defaults_for_provider,
                name,
                routing,
            ));
        } else {
            assert(llm@.providers =~= Map::<
                Seq<char>,
                crate::config::provider::ProviderView,
            >::empty());
        }
    }
    inferred
}

impl Config {
    /// Get the default agent ID.
    pub fn default_agent_id(&self) -> (id: &str)
        ensures
            id@ == (match default_agent(self@.agents) {
                Some(agent) => agent.id,
                None => "main"@,
            }),
    {
        match find_default_agent(&self.agents) {
            Some(i) => self.agents[i].id.as_str(),
            None => "main",
        }
    }

    /// Resolve all agent configs against defaults.
    pub fn resolve_agents(
        &self,
        context: &ResolveContext,
        default_sandbox: &SandboxConfig,
    ) -> (resolved: Vec<ResolvedAgentConfig>)
        ensures
            views::list(resolved@) == self@.agents.map_values(
                |agent: AgentView|
                    agent.resolved(
                        *context,
                        self@.instance_dir,
                        self@.defaults,
                        default_sandbox@,
                    ),
            ),
    {
        let mut resolved: Vec<ResolvedAgentConfig> = Vec::new();
        let mut i: usize = 0;
        while i < self.agents.len()
            invariant
                i <= self.agents@.len(),
                resolved@.len() == i,
                forall|j: int|
                    0 <= j < i ==> (#[trigger] resolved@[j])@ == self.agents@[j]@.resolved(
                        *context,
                        self@.instance_dir,
                        self@.defaults,
                        default_sandbox@,
                    ),
            decreases self.agents@.len() - i,
        {
            resolved.push(
                self.agents[i].resolve(
                    context,
                    self.instance_dir.as_str(),
                    &self.defaults,
                    default_sandbox,
                ),
            );
            i += 1;
        }
        proof {
            assert(views::list(resolved@) =~= self@.agents.map_values(
                |agent: AgentView|
                    agent.resolved(
                        *context,
                        self@.instance_dir,
                        self@.defaults,
                        default_sandbox@,
                    ),
            ));
        }
        resolved
    }

    /// Path to instance-level skills directory.
    pub fn skills_dir(&self) -> (path: String)
        ensures
            path@ == path::joined(self@.instance_dir, "skills"@),
    {
        path::join(self.instance_dir.as_str(), "skills")
    }

    /// Puts a configuration together from a file, the providers that it gives, the
    /// routing taken from them, and the address that the HTTP API is bound to.
    pub fn from_sections(
        toml: TomlConfig,
        instance_dir: String,
        surroundings: Surroundings,
        llm: LlmConfig,
        inferred: Option<RoutingConfig>,
        api_bind: String,
    ) -> (result: Result<Config, ConfigError>)
        ensures
            config_result(result) == config_of_file(
                toml,
                instance_dir@,
                surroundings,
                llm@,
                views::optional(inferred),
                api_bind@,
            ),
    {
        let context = &surroundings.context;
        let defaults = match defaults_from_toml(
            context,
            toml.defaults,
            inferred,
            surroundings.modules,
            instance_dir.as_str(),
        ) {
            Ok(defaults) => defaults,
            Err(refusal) => {
                return Err(refusal);
            },
        };
        let own_agents = match agents_from_toml(context, toml.agents, &defaults) {
            Ok(agents) => agents,
            Err(refusal) => {
                return Err(refusal);
            },
        };
        let agents = complete_agents(own_agents);
        let messaging = messaging_load::messaging_from_toml(context, toml.messaging);
        let bindings = bindings_from_toml(toml.bindings);
        adapters::validate_named_messaging_adapters(&messaging, &bindings)?;
        let api = ApiConfig {
            enabled: toml.api.enabled,
            port: toml.api.port,
            bind: api_bind,
            auth_token: resolve::resolve_option(context, &toml.api.auth_token),
        };
        let metrics = MetricsConfig {
            enabled: toml.metrics.enabled,
            port: toml.metrics.port,
            bind: toml.metrics.bind,
        };
        let telemetry = match telemetry_from_toml(context, toml.telemetry) {
            Ok(telemetry) => telemetry,
            Err(refusal) => {
                return Err(refusal);
            },
        };
        let own_links = links_from_toml(toml.links);
        let groups = groups_from_toml(toml.groups);
        let mut humans = humans_from_toml(&surroundings.human_texts, toml.humans);
        let no_humans = humans.len() == 0;
        if no_humans {
            humans.push(make_administrator(&surroundings.human_texts));
            proof {
                assert(views::list(humans@) =~= seq![administrator(surroundings.human_texts)]);
            }
        }
        let links = complete_links(own_links, no_humans, &agents);
        Ok(
            Config {
                instance_dir,
                llm,
                defaults,
                agents,
                links,
                groups,
                humans,
                messaging,
                bindings,
                api,
                metrics,
                telemetry,
            },
        )
    }

    /// Puts a configuration together from a file. Routing without a section of its own
    /// is what `defaults_for_provider` gives for a configured provider, and the HTTP API is
    /// bound to what `hosted_api_bind` gives for the address in the file.
    pub fn from_toml<F: Fn(&str) -> RoutingConfig, G: Fn(&str) -> String>(
        mut toml: TomlConfig,
        instance_dir: String,
        surroundings: Surroundings,
        defaults_for_provider: &F,
        hosted_api_bind: &G,
    ) -> (result: Result<Config, ConfigError>)
        requires
            forall|name: &str| #[trigger] call_requires(*defaults_for_provider, (name,)),
            forall|bind: &str| #[trigger] call_requires(*hosted_api_bind, (bind,)),
        ensures
            match llm_load::llm_of_file(surroundings.context, toml.llm) {
                Err(refusal) => config_result(result) == Err::<ConfigView, _>(refusal),
                Ok(llm) => exists|inferred: Option<RoutingConfig>, api_bind: String| #[trigger]
                    is_config_of_file(
                        toml,
                        instance_dir@,
                        surroundings,
                        llm,
                        *defaults_for_provider,
                        *hosted_api_bind,
                        inferred,
                        api_bind,
                        config_result(result),
                    ),
            },
            result matches Ok(config) ==> is_in_order(toml, config@)
                && llm_load::keys_have_no_capitals(config@.llm.providers),
    {
        let ghost given = toml;
        let mut section = empty_llm();
        core::mem::swap(&mut section, &mut toml.llm);
        let llm = match llm_load::llm_from_toml(&surroundings.context, section) {
            Ok(llm) => llm,
            Err(refusal) => {
                return Err(refusal);
            },
        };
        let inferred = infer_routing(&llm, defaults_for_provider);
        let api_bind = host_address(hosted_api_bind, toml.api.bind.as_str());
        let result = Config::from_sections(
            toml,
            instance_dir,
            surroundings,
            llm,
            inferred,
            api_bind,
        );
        proof {
            assert(is_config_of_file(
                given,
                instance_dir@,
                surroundings,
                llm@,
                *defaults_for_provider,
                *hosted_api_bind,
                inferred,
                api_bind,
                config_result(result),
            ));
            if result is Ok {
                law_a_loaded_configuration_is_in_order(
                    given,
                    instance_dir@,
                    surroundings,
                    llm@,
                    views::optional(inferred),
                    api_bind@,
                    result->Ok_0@,
                );
            }
        }
        result
    }
}

/// The cortex settings that an agent has of its own pass the maintenance bounds.
pub open spec fn own_cortex_is_in_bounds(agent: AgentView) -> bool {
    agent.cortex matches Some(cortex) ==> cortex.maintenance_check() is Ok
}

/// The agents of a file have cortex settings that pass the maintenance bounds.
proof fn lemma_agents_are_in_bounds(
    context: ResolveContext,
    list: Seq<TomlAgentConfig>,
    defaults: DefaultsView,
    k: int,
)
    requires
        agents_of_file(context, list, defaults) is Ok,
        0 <= k < agents_of_file(context, list, defaults)->Ok_0.len(),
    ensures
        own_cortex_is_in_bounds(agents_of_file(context, list, defaults)->Ok_0[k]),
    decreases list.len(),
{
    if list.len() > 0 {
        let before = agents_of_file(context, list.drop_last(), defaults)->Ok_0;
        if k < before.len() {
            lemma_agents_are_in_bounds(context, list.drop_last(), defaults, k);
        }
    }
}

/// A list with a default agent has a first one.
pub proof fn lemma_default_agent_is_found(agents: Seq<AgentView>)
    requires
        has_default(agents),
    ensures
        default_agent(agents) matches Some(agent) && agent.default && agents.contains(agent),
    decreases agents.len(),
{
    let at = choose|i: int| 0 <= i < agents.len() && (#[trigger] agents[i]).default;
    if agents[0].default {
        assert(agents.contains(agents[0]));
    } else {
        let rest = agents.drop_first();
        assert(rest[at - 1] == agents[at]);
        lemma_default_agent_is_found(rest);
        let agent = default_agent(rest)->0;
        let i = rest.index_of(agent);
        assert(agents[i + 1] == agent);
    }
}

/// What holds of every configuration that a file gives: it has an agent that is the
/// default one, and a human; all cortex settings pass the maintenance bounds; providers
/// stand under ids in lower case, and those of the file have ids that they may have; the
/// adapters of bindings are normal, and are there.
pub open spec fn is_in_order(toml: TomlConfig, config: ConfigView) -> bool {
    &&& default_agent(config.agents) matches Some(agent) && agent.default
        && config.agents.contains(agent)
    &&& config.humans.len() > 0
    &&& config.defaults.cortex.maintenance_check() is Ok
    &&& forall|k: int|
        0 <= k < config.agents.len() ==> own_cortex_is_in_bounds(#[trigger] config.agents[k])
    &&& forall|id: Seq<char>| #[trigger]
        config.llm.providers.contains_key(id) ==> llm_load::is_lower_case_id(
            toml.llm.providers@,
            id,
        )
    &&& forall|i: int|
        0 <= i < toml.llm.providers@.len() ==> llm_load::is_file_id(
            (#[trigger] toml.llm.providers@[i]).0@,
        )
    &&& forall|i: int|
        0 <= i < config.bindings.len() ==> binding::is_normal_adapter(
            (#[trigger] config.bindings[i]).adapter,
        )
    &&& adapters::adapters_check(config.messaging, config.bindings) is Ok
}

/// A configuration that is put together from a file is in order.
pub proof fn law_a_loaded_configuration_is_in_order(
    toml: TomlConfig,
    instance_dir: Seq<char>,
    surroundings: Surroundings,
    llm: LlmView,
    inferred: Option<RoutingView>,
    api_bind: Seq<char>,
    config: ConfigView,
)
    requires
        llm_load::llm_of_file(surroundings.context, toml.llm) == Ok::<LlmView, ConfigErrorView>(
            llm,
        ),
        config_of_file(toml, instance_dir, surroundings, llm, inferred, api_bind) == Ok::<
            ConfigView,
            ConfigErrorView,
        >(config),
    ensures
        is_in_order(toml, config),
{
    let context = surroundings.context;
    let defaults = config.defaults;
    let own = agents_of_file(context, toml.agents@, defaults)->Ok_0;
    law_an_instance_has_a_default_agent(own);
    lemma_default_agent_is_found(config.agents);
    settings::lemma_initial_cortex_is_in_bounds();
    assert forall|k: int| 0 <= k < config.agents.len() implies own_cortex_is_in_bounds(
        #[trigger] config.agents[k],
    ) by {
        if k < own.len() {
            lemma_agents_are_in_bounds(context, toml.agents@, defaults, k);
        }
    }
    assert forall|id: Seq<char>| #[trigger]
        config.llm.providers.contains_key(id) implies llm_load::is_lower_case_id(
        toml.llm.providers@,
        id,
    ) by {
        llm_load::lemma_provider_keys(context, toml.llm, id);
    }
    assert forall|i: int| 0 <= i < toml.llm.providers@.len() implies llm_load::is_file_id(
        (#[trigger] toml.llm.providers@[i]).0@,
    ) by {
        llm_load::lemma_file_ids(toml.llm.providers@, i);
    }
    assert forall|i: int| 0 <= i < config.bindings.len() implies binding::is_normal_adapter(
        (#[trigger] config.bindings[i]).adapter,
    ) by {
        binding::lemma_normalized_is_normal(text::view_of(toml.bindings@[i].adapter));
    }
}

/// A section without credentials or providers.
fn empty_llm() -> (section: crate::config::toml_schema::TomlLlmConfig)
    ensures
        section.anthropic_key is None,
        section.openai_key is None,
        section.openrouter_key is None,
        section.kilo_key is None,
        section.zhipu_key is None,
        section.groq_key is None,
        section.together_key is None,
        section.fireworks_key is None,
        section.deepseek_key is None,
        section.xai_key is None,
        section.mistral_key is None,
        section.gemini_key is None,
        section.ollama_key is None,
        section.ollama_base_url is None,
        section.opencode_zen_key is None,
        section.opencode_go_key is None,
        section.nvidia_key is None,
        section.minimax_key is None,
        section.minimax_cn_key is None,
        section.moonshot_key is None,
        section.zai_coding_plan_key is None,
        section.github_copilot_key is None,
        section.providers@.len() == 0,
{
    crate::config::toml_schema::TomlLlmConfig {
        anthropic_key: None,
        openai_key: None,
        openrouter_key: None,
        kilo_key: None,
        zhipu_key: None,
        groq_key: None,
        together_key: None,
        fireworks_key: None,
        deepseek_key: None,
        xai_key: None,
        mistral_key: None,
        gemini_key: None,
        ollama_key: None,
        ollama_base_url: None,
        opencode_zen_key: None,
        opencode_go_key: None,
        nvidia_key: None,
        minimax_key: None,
        minimax_cn_key: None,
        moonshot_key: None,
        zai_coding_plan_key: None,
        github_copilot_key: None,
        providers: Vec::new(),
    }
}

} // verus!
