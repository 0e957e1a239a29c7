//! Agents: their settings, and how those are made out of the defaults.
use crate::config::mcp;
use crate::config::mcp::{McpServerConfig, McpView};
use crate::config::path;
use crate::config::resolve;
use crate::config::resolve::ResolveContext;
use crate::config::settings::{
    BrowserConfig, BrowserView, ChannelConfig, CoalesceConfig, CompactionConfig, CortexConfig,
    IngestionConfig, MemoryPersistenceConfig, OpenCodeConfig, OpenCodePermissions, OpenCodeView,
    PermissionsView, ProjectsConfig, ProjectsView, WarmupConfig, WorkerLogMode,
};
use crate::json::{Json, JsonView};
use crate::llm::routing::{RoutingConfig, RoutingView};
use crate::text;
use crate::views;
use vstd::prelude::*;

verus! {

/// A cron job definition from config.
#[derive(Debug, PartialEq, Eq)]
pub struct CronDef {
    pub id: String,
    pub prompt: String,
    /// Optional cron expression (wall-clock schedule) in standard 5-field format.
    /// When set, this takes precedence over `interval_secs`.
    pub cron_expr: Option<String>,
    pub interval_secs: u64,
    /// Delivery target in "adapter:target" format (e.g. "discord:123456789").
    pub delivery_target: String,
    /// Optional active hours window (start_hour, end_hour) in 24h format.
    pub active_hours: Option<(u8, u8)>,
    pub enabled: bool,
    pub run_once: bool,
    /// Maximum wall-clock seconds to wait for the job to complete.
    /// `None` uses the default of 120 seconds.
    pub timeout_secs: Option<u64>,
}

/// The view of a [`CronDef`].
#[verifier::ext_equal]
pub struct CronView {
    pub id: Seq<char>,
    pub prompt: Seq<char>,
    pub cron_expr: Option<Seq<char>>,
    pub interval_secs: u64,
    pub delivery_target: Seq<char>,
    pub active_hours: Option<(u8, u8)>,
    pub enabled: bool,
    pub run_once: bool,
    pub timeout_secs: Option<u64>,
}

impl View for CronDef {
    type V = CronView;

    open spec fn view(&self) -> CronView {
        CronView {
            id: self.id@,
            prompt: self.prompt@,
            cron_expr: text::view_of(self.cron_expr),
            interval_secs: self.interval_secs,
            delivery_target: self.delivery_target@,
            active_hours: self.active_hours,
            enabled: self.enabled,
            run_once: self.run_once,
            timeout_secs: self.timeout_secs,
        }
    }
}

/// Sandbox configuration for process containment, as it is written.
#[derive(Debug, PartialEq, Eq)]
pub struct SandboxConfig {
    pub settings: Json,
}

/// The view of a [`SandboxConfig`].
#[verifier::ext_equal]
pub struct SandboxView {
    pub settings: JsonView,
}

impl View for SandboxConfig {
    type V = SandboxView;

    open spec fn view(&self) -> SandboxView {
        SandboxView {
            settings: self.settings@,
        }
    }
}

/// What other modules start with.
#[derive(Debug, PartialEq, Eq)]
pub struct ModuleDefaults {
    /// Routing without any provider.
    pub routing: RoutingConfig,
    /// What OpenCode may do.
    pub permissions: OpenCodePermissions,
    pub worker_log_mode: WorkerLogMode,
}

/// The view of a [`ModuleDefaults`].
#[verifier::ext_equal]
pub struct ModuleDefaultsView {
    pub routing: RoutingView,
    pub permissions: PermissionsView,
    pub worker_log_mode: WorkerLogMode,
}

impl View for ModuleDefaults {
    type V = ModuleDefaultsView;

    open spec fn view(&self) -> ModuleDefaultsView {
        ModuleDefaultsView {
            routing: self.routing@,
            permissions: self.permissions@,
            worker_log_mode: self.worker_log_mode,
        }
    }
}

/// Defaults inherited by all agents. Individual agents can override any field.
#[derive(PartialEq, Eq)]
pub struct DefaultsConfig {
    pub routing: RoutingConfig,
    pub max_concurrent_branches: usize,
    pub max_concurrent_workers: usize,
    pub max_turns: usize,
    pub branch_max_turns: usize,
    pub context_window: usize,
    pub compaction: CompactionConfig,
    pub memory_persistence: MemoryPersistenceConfig,
    pub coalesce: CoalesceConfig,
    pub ingestion: IngestionConfig,
    pub cortex: CortexConfig,
    pub warmup: WarmupConfig,
    pub browser: BrowserConfig,
    pub channel: ChannelConfig,
    pub mcp: Vec<McpServerConfig>,
    /// Brave Search API key for web search tool.
    pub brave_search_key: Option<String>,
    /// Default timezone used when evaluating cron active hours.
    pub cron_timezone: Option<String>,
    /// Default timezone for channel/worker temporal context.
    pub user_timezone: Option<String>,
    pub history_backfill_count: usize,
    pub cron: Vec<CronDef>,
    pub opencode: OpenCodeConfig,
    pub worker_log_mode: WorkerLogMode,
    /// Projects workspace management defaults.
    pub projects: ProjectsConfig,
}

/// The view of a [`DefaultsConfig`].
#[verifier::ext_equal]
pub struct DefaultsView {
    pub routing: RoutingView,
    pub max_concurrent_branches: usize,
    pub max_concurrent_workers: usize,
    pub max_turns: usize,
    pub branch_max_turns: usize,
    pub context_window: usize,
    pub compaction: CompactionConfig,
    pub memory_persistence: MemoryPersistenceConfig,
    pub coalesce: CoalesceConfig,
    pub ingestion: IngestionConfig,
    pub cortex: CortexConfig,
    pub warmup: WarmupConfig,
    pub browser: BrowserView,
    pub channel: ChannelConfig,
    pub mcp: Seq<McpView>,
    pub brave_search_key: Option<Seq<char>>,
    pub cron_timezone: Option<Seq<char>>,
    pub user_timezone: Option<Seq<char>>,
    pub history_backfill_count: usize,
    pub cron: Seq<CronView>,
    pub opencode: OpenCodeView,
    pub worker_log_mode: WorkerLogMode,
    pub projects: ProjectsView,
}

impl View for DefaultsConfig {
    type V = DefaultsView;

    open spec fn view(&self) -> DefaultsView {
        DefaultsView {
            routing: self.routing@,
            max_concurrent_branches: self.max_concurrent_branches,
            max_concurrent_workers: self.max_concurrent_workers,
            max_turns: self.max_turns,
            branch_max_turns: self.branch_max_turns,
            context_window: self.context_window,
            compaction: self.compaction,
            memory_persistence: self.memory_persistence,
            coalesce: self.coalesce,
            ingestion: self.ingestion,
            cortex: self.cortex,
            warmup: self.warmup,
            browser: self.browser@,
            channel: self.channel,
            mcp: views::list(self.mcp@),
            brave_search_key: text::view_of(self.brave_search_key),
            cron_timezone: text::view_of(self.cron_timezone),
            user_timezone: text::view_of(self.user_timezone),
            history_backfill_count: self.history_backfill_count,
            cron: views::list(self.cron@),
            opencode: self.opencode@,
            worker_log_mode: self.worker_log_mode,
            projects: self.projects@,
        }
    }
}

/// Per-agent configuration (raw, before resolution with defaults).
#[derive(Debug, PartialEq, Eq)]
pub struct AgentConfig {
    pub id: String,
    pub default: bool,
    /// User-defined display name for the agent (shown in UI).
    pub display_name: Option<String>,
    /// User-defined role description (e.g. "handles tier 1 support").
    pub role: Option<String>,
    /// Custom gradient start color.
    pub gradient_start: Option<String>,
    /// Custom gradient end color.
    pub gradient_end: Option<String>,
    /// Custom workspace path. If None, resolved to instance_dir/agents/{id}/workspace.
    pub workspace: Option<String>,
    /// Per-agent routing overrides. None inherits from defaults.
    pub routing: Option<RoutingConfig>,
    pub max_concurrent_branches: Option<usize>,
    pub max_concurrent_workers: Option<usize>,
    pub max_turns: Option<usize>,
    pub branch_max_turns: Option<usize>,
    pub context_window: Option<usize>,
    pub compaction: Option<CompactionConfig>,
    pub memory_persistence: Option<MemoryPersistenceConfig>,
    pub coalesce: Option<CoalesceConfig>,
    pub ingestion: Option<IngestionConfig>,
    pub cortex: Option<CortexConfig>,
    pub warmup: Option<WarmupConfig>,
    pub browser: Option<BrowserConfig>,
    pub channel: Option<ChannelConfig>,
    pub mcp: Option<Vec<McpServerConfig>>,
    /// Per-agent Brave Search API key override. None inherits from defaults.
    pub brave_search_key: Option<String>,
    /// Optional timezone override for cron active-hours evaluation.
    pub cron_timezone: Option<String>,
    /// Optional timezone override for channel/worker temporal context.
    pub user_timezone: Option<String>,
    pub sandbox: Option<SandboxConfig>,
    /// Projects workspace management overrides.
    pub projects: Option<ProjectsConfig>,
    /// Cron job definitions for this agent.
    pub cron: Vec<CronDef>,
}

/// The view of an [`AgentConfig`].
#[verifier::ext_equal]
pub struct AgentView {
    pub id: Seq<char>,
    pub default: bool,
    pub display_name: Option<Seq<char>>,
    pub role: Option<Seq<char>>,
    pub gradient_start: Option<Seq<char>>,
    pub gradient_end: Option<Seq<char>>,
    pub workspace: Option<Seq<char>>,
    pub routing: Option<RoutingView>,
    pub max_concurrent_branches: Option<usize>,
    pub max_concurrent_workers: Option<usize>,
    pub max_turns: Option<usize>,
    pub branch_max_turns: Option<usize>,
    pub context_window: Option<usize>,
    pub compaction: Option<CompactionConfig>,
    pub memory_persistence: Option<MemoryPersistenceConfig>,
    pub coalesce: Option<CoalesceConfig>,
    pub ingestion: Option<IngestionConfig>,
    pub cortex: Option<CortexConfig>,
    pub warmup: Option<WarmupConfig>,
    pub browser: Option<BrowserView>,
    pub channel: Option<ChannelConfig>,
    pub mcp: Option<Seq<McpView>>,
    pub brave_search_key: Option<Seq<char>>,
    pub cron_timezone: Option<Seq<char>>,
    pub user_timezone: Option<Seq<char>>,
    pub sandbox: Option<SandboxView>,
    pub projects: Option<ProjectsView>,
    pub cron: Seq<CronView>,
}

impl View for AgentConfig {
    type V = AgentView;

    open spec fn view(&self) -> AgentView {
        AgentView {
            id: self.id@,
            default: self.default,
            display_name: text::view_of(self.display_name),
            role: text::view_of(self.role),
            gradient_start: text::view_of(self.gradient_start),
            gradient_end: text::view_of(self.gradient_end),
            workspace: text::view_of(self.workspace),
            routing: views::optional(self.routing),
            max_concurrent_branches: self.max_concurrent_branches,
            max_concurrent_workers: self.max_concurrent_workers,
            max_turns: self.max_turns,
            branch_max_turns: self.branch_max_turns,
            context_window: self.context_window,
            compaction: self.compaction,
            memory_persistence: self.memory_persistence,
            coalesce: self.coalesce,
            ingestion: self.ingestion,
            cortex: self.cortex,
            warmup: self.warmup,
            browser: views::optional(self.browser),
            channel: self.channel,
            mcp: views::optional_list(self.mcp),
            brave_search_key: text::view_of(self.brave_search_key),
            cron_timezone: text::view_of(self.cron_timezone),
            user_timezone: text::view_of(self.user_timezone),
            sandbox: views::optional(self.sandbox),
            projects: views::optional(self.projects),
            cron: views::list(self.cron@),
        }
    }
}

/// Fully resolved agent config (merged with defaults, paths resolved).
#[derive(Debug, PartialEq, Eq)]
pub struct ResolvedAgentConfig {
    pub id: String,
    pub display_name: Option<String>,
    pub role: Option<String>,
    pub gradient_start: Option<String>,
    pub gradient_end: Option<String>,
    pub workspace: String,
    /// Agent root directory (parent of workspace). Identity files live here, outside
    /// the workspace sandbox.
    pub identity_dir: String,
    pub data_dir: String,
    pub archives_dir: String,
    pub routing: RoutingConfig,
    pub max_concurrent_branches: usize,
    pub max_concurrent_workers: usize,
    pub max_turns: usize,
    pub branch_max_turns: usize,
    pub context_window: usize,
    pub compaction: CompactionConfig,
    pub memory_persistence: MemoryPersistenceConfig,
    pub coalesce: CoalesceConfig,
    pub ingestion: IngestionConfig,
    pub cortex: CortexConfig,
    pub warmup: WarmupConfig,
    pub browser: BrowserConfig,
    pub channel: ChannelConfig,
    pub mcp: Vec<McpServerConfig>,
    pub brave_search_key: Option<String>,
    pub cron_timezone: Option<String>,
    pub user_timezone: Option<String>,
    pub sandbox: SandboxConfig,
    pub projects: ProjectsConfig,
    /// Number of messages to fetch from the platform when a new channel is created.
    pub history_backfill_count: usize,
    pub cron: Vec<CronDef>,
}

/// The view of a [`ResolvedAgentConfig`].
#[verifier::ext_equal]
pub struct ResolvedAgentView {
    pub id: Seq<char>,
    pub display_name: Option<Seq<char>>,
    pub role: Option<Seq<char>>,
    pub gradient_start: Option<Seq<char>>,
    pub gradient_end: Option<Seq<char>>,
    pub workspace: Seq<char>,
    pub identity_dir: Seq<char>,
    pub data_dir: Seq<char>,
    pub archives_dir: Seq<char>,
    pub routing: RoutingView,
    pub max_concurrent_branches: usize,
    pub max_concurrent_workers: usize,
    pub max_turns: usize,
    pub branch_max_turns: usize,
    pub context_window: usize,
    pub compaction: CompactionConfig,
    pub memory_persistence: MemoryPersistenceConfig,
    pub coalesce: CoalesceConfig,
    pub ingestion: IngestionConfig,
    pub cortex: CortexConfig,
    pub warmup: WarmupConfig,
    pub browser: BrowserView,
    pub channel: ChannelConfig,
    pub mcp: Seq<McpView>,
    pub brave_search_key: Option<Seq<char>>,
    pub cron_timezone: Option<Seq<char>>,
    pub user_timezone: Option<Seq<char>>,
    pub sandbox: SandboxView,
    pub projects: ProjectsView,
    pub history_backfill_count: usize,
    pub cron: Seq<CronView>,
}

impl View for ResolvedAgentConfig {
    type V = ResolvedAgentView;

    open spec fn view(&self) -> ResolvedAgentView {
        ResolvedAgentView {
            id: self.id@,
            display_name: text::view_of(self.display_name),
            role: text::view_of(self.role),
            gradient_start: text::view_of(self.gradient_start),
            gradient_end: text::view_of(self.gradient_end),
            workspace: self.workspace@,
            identity_dir: self.identity_dir@,
            data_dir: self.data_dir@,
            archives_dir: self.archives_dir@,
            routing: self.routing@,
            max_concurrent_branches: self.max_concurrent_branches,
            max_concurrent_workers: self.max_concurrent_workers,
            max_turns: self.max_turns,
            branch_max_turns: self.branch_max_turns,
            context_window: self.context_window,
            compaction: self.compaction,
            memory_persistence: self.memory_persistence,
            coalesce: self.coalesce,
            ingestion: self.ingestion,
            cortex: self.cortex,
            warmup: self.warmup,
            browser: self.browser@,
            channel: self.channel,
            mcp: views::list(self.mcp@),
            brave_search_key: text::view_of(self.brave_search_key),
            cron_timezone: text::view_of(self.cron_timezone),
            user_timezone: text::view_of(self.user_timezone),
            sandbox: self.sandbox@,
            projects: self.projects@,
            history_backfill_count: self.history_backfill_count,
            cron: views::list(self.cron@),
        }
    }
}

impl CronDef {
    /// The same job again.
    pub fn duplicate(&self) -> (copy: CronDef)
        ensures
            copy@ == self@,
    {
        CronDef {
            id: self.id.clone(),
            prompt: self.prompt.clone(),
            cron_expr: self.cron_expr.clone(),
            interval_secs: self.interval_secs,
            delivery_target: self.delivery_target.clone(),
            active_hours: self.active_hours,
            enabled: self.enabled,
            run_once: self.run_once,
            timeout_secs: self.timeout_secs,
        }
    }
}

/// The same jobs again.
pub fn duplicate_jobs(jobs: &Vec<CronDef>) -> (copies: Vec<CronDef>)
    ensures
        views::list(copies@) == views::list(jobs@),
{
    let mut copies: Vec<CronDef> = Vec::new();
    let mut i: usize = 0;
    while i < jobs.len()
        invariant
            i <= jobs@.len(),
            copies@.len() == i,
            forall|j: int| 0 <= j < i ==> (#[trigger] copies@[j])@ == jobs@[j]@,
        decreases jobs@.len() - i,
    {
        copies.push(jobs[i].duplicate());
        i += 1;
    }
    proof {
        assert(views::list(copies@) =~= views::list(jobs@));
    }
    copies
}

impl SandboxConfig {
    /// The same sandbox again.
    pub fn duplicate(&self) -> (copy: SandboxConfig)
        ensures
            copy@ == self@,
    {
        SandboxConfig { settings: self.settings.duplicate() }
    }
}

impl DefaultsConfig {
    /// The values at the start.
    pub open spec fn initial(modules: ModuleDefaultsView) -> DefaultsView {
        DefaultsView {
            routing: modules.routing,
            max_concurrent_branches: 5,
            max_concurrent_workers: 5,
            max_turns: 5,
            branch_max_turns: 50,
            context_window: 128_000,
            compaction: CompactionConfig::initial(),
            memory_persistence: MemoryPersistenceConfig::initial(),
            coalesce: CoalesceConfig::initial(),
            ingestion: IngestionConfig::initial(),
            cortex: CortexConfig::initial(),
            warmup: WarmupConfig::initial(),
            browser: BrowserConfig::initial(),
            channel: ChannelConfig::initial(),
            mcp: Seq::empty(),
            brave_search_key: None,
            cron_timezone: None,
            user_timezone: None,
            history_backfill_count: 50,
            cron: Seq::empty(),
            opencode: OpenCodeConfig::initial(modules.permissions),
            worker_log_mode: modules.worker_log_mode,
            projects: ProjectsConfig::initial(),
        }
    }

    /// The values at the start.
    pub fn starting(modules: ModuleDefaults) -> (config: DefaultsConfig)
        ensures
            config@ == DefaultsConfig::initial(modules@),
    {
        let config = DefaultsConfig {
            routing: modules.routing,
            max_concurrent_branches: 5,
            max_concurrent_workers: 5,
            max_turns: 5,
            branch_max_turns: 50,
            context_window: 128_000,
            compaction: CompactionConfig::default(),
            memory_persistence: MemoryPersistenceConfig::default(),
            coalesce: CoalesceConfig::default(),
            ingestion: IngestionConfig::default(),
            cortex: CortexConfig::default(),
            warmup: WarmupConfig::default(),
            browser: BrowserConfig::default(),
            channel: ChannelConfig::default(),
            mcp: Vec::new(),
            brave_search_key: None,
            cron_timezone: None,
            user_timezone: None,
            history_backfill_count: 50,
            cron: Vec::new(),
            opencode: OpenCodeConfig::with_permissions(modules.permissions),
            worker_log_mode: modules.worker_log_mode,
            projects: ProjectsConfig::default(),
        };
        proof {
            assert(config@.mcp =~= Seq::empty());
            assert(config@.cron =~= Seq::empty());
        }
        config
    }
}

// ---------------------------------------------------------------------------
// Timezones
// ---------------------------------------------------------------------------

/// `chrono_tz` knows a timezone of that name.
pub uninterp spec fn is_known_timezone(name: Seq<char>) -> bool;

/// Whether `str::parse` finds a `chrono_tz::Tz` of that name. The timezones are those
/// that the crate was built with, so the answer depends on the name alone.
#[verifier::external_body]
pub(crate) fn is_timezone(name: &str) -> (yes: bool)
    ensures
        yes == is_known_timezone(name@),
{
    name.parse::<chrono_tz::Tz>().is_ok()
}

/// A timezone's name without surrounding whitespace; an empty one is none.
pub open spec fn normalized_timezone(value: Option<Seq<char>>) -> Option<Seq<char>> {
    match value {
        Some(v) => if text::trimmed(v).len() == 0 {
            None
        } else {
            Some(text::trimmed(v))
        },
        None => None,
    }
}

/// A timezone's name without surrounding whitespace; an empty one is none.
pub fn normalize_timezone(value: &str) -> (timezone: Option<String>)
    ensures
        text::view_of(timezone) == normalized_timezone(Some(value@)),
{
    let timezone = text::trim(value);
    if text::chars_of(timezone.as_str()).len() == 0 {
        return None;
    }
    Some(timezone)
}

/// The first of the candidates that names a known timezone.
pub open spec fn first_timezone(candidates: Seq<Option<Seq<char>>>) -> Option<Seq<char>>
    decreases candidates.len(),
{
    if candidates.len() == 0 {
        None
    } else {
        match normalized_timezone(candidates[0]) {
            Some(timezone) => if is_known_timezone(timezone) {
                Some(timezone)
            } else {
                first_timezone(candidates.drop_first())
            },
            None => first_timezone(candidates.drop_first()),
        }
    }
}

/// The candidate, where it names a known timezone.
fn known_timezone(candidate: Option<&str>) -> (timezone: Option<String>)
    ensures
        match normalized_timezone(crate::json::str_view(candidate)) {
            Some(name) => if is_known_timezone(name) {
                text::view_of(timezone) == Some(name)
            } else {
                timezone is None
            },
            None => timezone is None,
        },
{
    match candidate {
        Some(value) => match normalize_timezone(value) {
            Some(timezone) => if is_timezone(timezone.as_str()) {
                Some(timezone)
            } else {
                None
            },
            None => None,
        },
        None => None,
    }
}

/// The environment variable that names the timezone of cron jobs.
pub open spec fn cron_timezone_var() -> Seq<char> {
    "SPACEBOT_CRON_TIMEZONE"@
}

/// The environment variable that names the timezone of users.
pub open spec fn user_timezone_var() -> Seq<char> {
    "SPACEBOT_USER_TIMEZONE"@
}

/// The timezone of an agent's cron jobs: its own, the default one, or that of the
/// environment.
pub open spec fn cron_timezone(
    context: ResolveContext,
    agent: Option<Seq<char>>,
    default: Option<Seq<char>>,
) -> Option<Seq<char>> {
    first_timezone(seq![agent, default, context.var(cron_timezone_var())])
}

/// The timezone of an agent's users: its own, the default one, that of the
/// environment, or the fallback.
pub open spec fn user_timezone(
    context: ResolveContext,
    agent: Option<Seq<char>>,
    default: Option<Seq<char>>,
    fallback: Option<Seq<char>>,
) -> Option<Seq<char>> {
    first_timezone(seq![agent, default, context.var(user_timezone_var()), fallback])
}

/// The timezone of an agent's cron jobs.
pub fn resolve_cron_timezone(
    context: &ResolveContext,
    agent_timezone: Option<&str>,
    default_timezone: Option<&str>,
) -> (timezone: Option<String>)
    ensures
        text::view_of(timezone) == cron_timezone(
            *context,
            crate::json::str_view(agent_timezone),
            crate::json::str_view(default_timezone),
        ),
{
    let env_timezone = context.env_var("SPACEBOT_CRON_TIMEZONE");
    proof {
        reveal_with_fuel(first_timezone, 4);
        let all = seq![
            crate::json::str_view(agent_timezone),
            crate::json::str_view(default_timezone),
            text::view_of(env_timezone),
        ];
        assert(all.drop_first()[0] == all[1]);
        assert(all.drop_first().drop_first()[0] == all[2]);
    }
    if let Some(timezone) = known_timezone(agent_timezone) {
        return Some(timezone);
    }
    if let Some(timezone) = known_timezone(default_timezone) {
        return Some(timezone);
    }
    known_timezone(text::borrowed(&env_timezone))
}

/// The timezone of an agent's users.
pub fn resolve_user_timezone(
    context: &ResolveContext,
    agent_timezone: Option<&str>,
    default_timezone: Option<&str>,
    fallback_timezone: Option<&str>,
) -> (timezone: Option<String>)
    ensures
        text::view_of(timezone) == user_timezone(
            *context,
            crate::json::str_view(agent_timezone),
            crate::json::str_view(default_timezone),
            crate::json::str_view(fallback_timezone),
        ),
{
    let env_timezone = context.env_var("SPACEBOT_USER_TIMEZONE");
    proof {
        reveal_with_fuel(first_timezone, 5);
        let all = seq![
            crate::json::str_view(agent_timezone),
            crate::json::str_view(default_timezone),
            text::view_of(env_timezone),
            crate::json::str_view(fallback_timezone),
        ];
        assert(all.drop_first()[0] == all[1]);
        assert(all.drop_first().drop_first()[0] == all[2]);
        assert(all.drop_first().drop_first().drop_first()[0] == all[3]);
    }
    if let Some(timezone) = known_timezone(agent_timezone) {
        return Some(timezone);
    }
    if let Some(timezone) = known_timezone(default_timezone) {
        return Some(timezone);
    }
    if let Some(timezone) = known_timezone(text::borrowed(&env_timezone)) {
        return Some(timezone);
    }
    known_timezone(fallback_timezone)
}

/// A timezone that comes out is a known one.
pub proof fn law_resolved_timezone_is_known(candidates: Seq<Option<Seq<char>>>)
    ensures
        first_timezone(candidates) matches Some(timezone) ==> is_known_timezone(timezone),
    decreases candidates.len(),
{
    if candidates.len() > 0 {
        law_resolved_timezone_is_known(candidates.drop_first());
    }
}

// ---------------------------------------------------------------------------
// Resolution
// ---------------------------------------------------------------------------

/// The optional view where there is one, else the other.
pub open spec fn or_default<T>(value: Option<T>, other: T) -> T {
    match value {
        Some(v) => v,
        None => other,
    }
}

impl AgentView {
    /// The agent's directory.
    pub open spec fn root(self, instance_dir: Seq<char>) -> Seq<char> {
        path::joined(path::joined(instance_dir, "agents"@), self.id)
    }

    /// The agent's settings, with the defaults for what it leaves out, and its paths.
    pub open spec fn resolved(
        self,
        context: ResolveContext,
        instance_dir: Seq<char>,
        defaults: DefaultsView,
        default_sandbox: SandboxView,
    ) -> ResolvedAgentView {
        let agent = self;
        let root = self.root(instance_dir);
        let cron_zone = cron_timezone(context, self.cron_timezone, defaults.cron_timezone);
        ResolvedAgentView {
            id: self.id,
            display_name: self.display_name,
            role: self.role,
            gradient_start: self.gradient_start,
            gradient_end: self.gradient_end,
            workspace: or_default(self.workspace, path::joined(root, "workspace"@)),
            identity_dir: root,
            data_dir: path::joined(root, "data"@),
            archives_dir: path::joined(root, "archives"@),
            routing: or_default(self.routing, defaults.routing),
            max_concurrent_branches: agent.max_concurrent_branches.unwrap_or(
                defaults.max_concurrent_branches,
            ),
            max_concurrent_workers: agent.max_concurrent_workers.unwrap_or(
                defaults.max_concurrent_workers,
            ),
            max_turns: agent.max_turns.unwrap_or(defaults.max_turns),
            branch_max_turns: agent.branch_max_turns.unwrap_or(defaults.branch_max_turns),
            context_window: agent.context_window.unwrap_or(defaults.context_window),
            compaction: agent.compaction.unwrap_or(defaults.compaction),
            memory_persistence: agent.memory_persistence.unwrap_or(defaults.memory_persistence),
            coalesce: agent.coalesce.unwrap_or(defaults.coalesce),
            ingestion: agent.ingestion.unwrap_or(defaults.ingestion),
            cortex: agent.cortex.unwrap_or(defaults.cortex),
            warmup: agent.warmup.unwrap_or(defaults.warmup),
            browser: or_default(self.browser, defaults.browser),
            channel: self.channel.unwrap_or(defaults.channel),
            mcp: mcp::resolved_servers(defaults.mcp, self.mcp),
            brave_search_key: resolve::or_else(self.brave_search_key, defaults.brave_search_key),
            cron_timezone: cron_zone,
            user_timezone: user_timezone(
                context,
                self.user_timezone,
                defaults.user_timezone,
                cron_zone,
            ),
            sandbox: or_default(self.sandbox, default_sandbox),
            projects: or_default(self.projects, defaults.projects),
            history_backfill_count: defaults.history_backfill_count,
            cron: self.cron,
        }
    }
}

/// The path where there is one, else the part under a directory.
fn path_or(value: &Option<String>, dir: &str, part: &str) -> (path: String)
    ensures
        path@ == or_default(text::view_of(*value), path::joined(dir@, part@)),
{
    match value {
        Some(v) => v.clone(),
        None => path::join(dir, part),
    }
}

/// A copy of the key where there is one, else of the other.
fn key_or(value: &Option<String>, other: &Option<String>) -> (key: Option<String>)
    ensures
        text::view_of(key) == resolve::or_else(text::view_of(*value), text::view_of(*other)),
{
    match value {
        Some(v) => Some(v.clone()),
        None => other.clone(),
    }
}

/// A copy of the settings where there are any, else of the others.
fn routing_or(value: &Option<RoutingConfig>, other: &RoutingConfig) -> (chosen: RoutingConfig)
    ensures
        chosen@ == or_default(views::optional(*value), other@),
{
    match value {
        Some(v) => v.duplicate(),
        None => other.duplicate(),
    }
}

/// A copy of the settings where there are any, else of the others.
fn browser_or(value: &Option<BrowserConfig>, other: &BrowserConfig) -> (chosen: BrowserConfig)
    ensures
        chosen@ == or_default(views::optional(*value), other@),
{
    match value {
        Some(v) => v.duplicate(),
        None => other.duplicate(),
    }
}

/// A copy of the settings where there are any, else of the others.
fn sandbox_or(value: &Option<SandboxConfig>, other: &SandboxConfig) -> (chosen: SandboxConfig)
    ensures
        chosen@ == or_default(views::optional(*value), other@),
{
    match value {
        Some(v) => v.duplicate(),
        None => other.duplicate(),
    }
}

/// A copy of the settings where there are any, else of the others.
fn projects_or(value: &Option<ProjectsConfig>, other: &ProjectsConfig) -> (chosen: ProjectsConfig)
    ensures
        chosen@ == or_default(views::optional(*value), other@),
{
    match value {
        Some(v) => v.duplicate(),
        None => other.duplicate(),
    }
}

impl AgentConfig {
    /// Resolve this agent config against instance defaults and base paths.
    pub fn resolve(
        &self,
        context: &ResolveContext,
        instance_dir: &str,
        defaults: &DefaultsConfig,
        default_sandbox: &SandboxConfig,
    ) -> (resolved: ResolvedAgentConfig)
        ensures
            resolved@ == self@.resolved(*context, instance_dir@, defaults@, default_sandbox@),
    {
        let agents_dir = path::join(instance_dir, "agents");
        let agent_root = path::join(agents_dir.as_str(), self.id.as_str());
        let cron_zone = resolve_cron_timezone(
            context,
            text::borrowed(&self.cron_timezone),
            text::borrowed(&defaults.cron_timezone),
        );
        let user_zone = resolve_user_timezone(
            context,
            text::borrowed(&self.user_timezone),
            text::borrowed(&defaults.user_timezone),
            text::borrowed(&cron_zone),
        );
        let workspace = path_or(&self.workspace, agent_root.as_str(), "workspace");
        let data_dir = path::join(agent_root.as_str(), "data");
        let archives_dir = path::join(agent_root.as_str(), "archives");
        ResolvedAgentConfig {
            id: self.id.clone(),
            display_name: self.display_name.clone(),
            role: self.role.clone(),
            gradient_start: self.gradient_start.clone(),
            gradient_end: self.gradient_end.clone(),
            workspace,
            identity_dir: agent_root,
            data_dir,
            archives_dir,
            routing: routing_or(&self.routing, &defaults.routing),
            max_concurrent_branches: self.max_concurrent_branches.unwrap_or(
                defaults.max_concurrent_branches,
            ),
            max_concurrent_workers: self.max_concurrent_workers.unwrap_or(
                defaults.max_concurrent_workers,
            ),
            max_turns: self.max_turns.unwrap_or(defaults.max_turns),
            branch_max_turns: self.branch_max_turns.unwrap_or(defaults.branch_max_turns),
            context_window: self.context_window.unwrap_or(defaults.context_window),
            compaction: self.compaction.unwrap_or(defaults.compaction),
            memory_persistence: self.memory_persistence.unwrap_or(defaults.memory_persistence),
            coalesce: self.coalesce.unwrap_or(defaults.coalesce),
            ingestion: self.ingestion.unwrap_or(defaults.ingestion),
            cortex: self.cortex.unwrap_or(defaults.cortex),
            warmup: self.warmup.unwrap_or(defaults.warmup),
            browser: browser_or(&self.browser, &defaults.browser),
            channel: self.channel.unwrap_or(defaults.channel),
            mcp: mcp::resolve_mcp_configs(&defaults.mcp, &self.mcp),
            brave_search_key: key_or(&self.brave_search_key, &defaults.brave_search_key),
            cron_timezone: cron_zone,
            user_timezone: user_zone,
            sandbox: sandbox_or(&self.sandbox, default_sandbox),
            projects: projects_or(&self.projects, &defaults.projects),
            history_backfill_count: defaults.history_backfill_count,
            cron: duplicate_jobs(&self.cron),
        }
    }

    /// The agent with nothing set but its name.
    pub open spec fn bare(id: Seq<char>, default: bool) -> AgentView {
        AgentView {
            id,
            default,
            display_name: None,
            role: None,
            gradient_start: None,
            gradient_end: None,
            workspace: None,
            routing: None,
            max_concurrent_branches: None,
            max_concurrent_workers: None,
            max_turns: None,
            branch_max_turns: None,
            context_window: None,
            compaction: None,
            memory_persistence: None,
            coalesce: None,
            ingestion: None,
            cortex: None,
            warmup: None,
            browser: None,
            channel: None,
            mcp: None,
            brave_search_key: None,
            cron_timezone: None,
            user_timezone: None,
            sandbox: None,
            projects: None,
            cron: Seq::empty(),
        }
    }

    /// The default agent of an instance that defines none.
    pub fn main() -> (agent: AgentConfig)
        ensures
            agent@ == AgentConfig::bare("main"@, true),
    {
        let agent = AgentConfig {
            id: "main".to_owned(),
            default: true,
            display_name: None,
            role: None,
            gradient_start: None,
            gradient_end: None,
            workspace: None,
            routing: None,
            max_concurrent_branches: None,
            max_concurrent_workers: None,
            max_turns: None,
            branch_max_turns: None,
            context_window: None,
            compaction: None,
            memory_persistence: None,
            coalesce: None,
            ingestion: None,
            cortex: None,
            warmup: None,
            browser: None,
            channel: None,
            mcp: None,
            brave_search_key: None,
            cron_timezone: None,
            user_timezone: None,
            sandbox: None,
            projects: None,
            cron: Vec::new(),
        };
        proof {
            assert(agent@.cron =~= Seq::empty());
        }
        agent
    }
}

impl ResolvedAgentConfig {
    /// Where the agent's SQLite database is.
    pub fn sqlite_path(&self) -> (path: String)
        ensures
            path@ == path::joined(self.data_dir@, "spacebot.db"@),
    {
        path::join(self.data_dir.as_str(), "spacebot.db")
    }

    /// Where the agent's LanceDB database is.
    pub fn lancedb_path(&self) -> (path: String)
        ensures
            path@ == path::joined(self.data_dir@, "lancedb"@),
    {
        path::join(self.data_dir.as_str(), "lancedb")
    }

    /// Where the agent's redb database is.
    pub fn redb_path(&self) -> (path: String)
        ensures
            path@ == path::joined(self.data_dir@, "config.redb"@),
    {
        path::join(self.data_dir.as_str(), "config.redb")
    }

    /// Number of messages to fetch from the platform when a new channel is created.
    pub fn history_backfill_count(&self) -> (count: usize)
        ensures
            count == self.history_backfill_count,
    {
        self.history_backfill_count
    }

    /// Resolved screenshot directory, falling back to data_dir/screenshots.
    pub fn screenshot_dir(&self) -> (path: String)
        ensures
            path@ == or_default(
                self@.browser.screenshot_dir,
                path::joined(self.data_dir@, "screenshots"@),
            ),
    {
        match &self.browser.screenshot_dir {
            Some(dir) => dir.clone(),
            None => path::join(self.data_dir.as_str(), "screenshots"),
        }
    }

    /// Directory for worker execution logs written on failure.
    pub fn logs_dir(&self) -> (path: String)
        ensures
            path@ == path::joined(self.data_dir@, "logs"@),
    {
        path::join(self.data_dir.as_str(), "logs")
    }

    /// Path to agent workspace skills directory.
    pub fn skills_dir(&self) -> (path: String)
        ensures
            path@ == path::joined(self.workspace@, "skills"@),
    {
        path::join(self.workspace.as_str(), "skills")
    }

    /// Path to the memory ingestion directory where users drop files.
    pub fn ingest_dir(&self) -> (path: String)
        ensures
            path@ == path::joined(self.workspace@, "ingest"@),
    {
        path::join(self.workspace.as_str(), "ingest")
    }

    /// Path to the saved attachments directory for persisted channel files.
    pub fn saved_dir(&self) -> (path: String)
        ensures
            path@ == path::joined(self.workspace@, "saved"@),
    {
        path::join(self.workspace.as_str(), "saved")
    }
}

} // verus!
