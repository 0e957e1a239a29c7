//! The settings of an agent, section by section: their values at the start, and how
//! a section of the configuration file changes them.
use crate::config::error;
use crate::config::error::{ConfigError, ConfigErrorView, Double, Single};
use crate::config::providers;
use crate::config::resolve;
use crate::config::resolve::ResolveContext;
use crate::config::toml_schema::{
    TomlBrowserConfig, TomlChannelConfig, TomlCoalesceConfig, TomlCompactionConfig,
    TomlCortexConfig, TomlIngestionConfig, TomlMemoryPersistenceConfig, TomlOpenCodeConfig,
    TomlOpenCodePermissions, TomlProjectsConfig, TomlWarmupConfig,
};
use crate::string_map::StringMap;
use crate::text;
use crate::views;
use vstd::prelude::*;

verus! {

/// Compaction threshold configuration.
#[derive(Debug, Clone, Copy, PartialEq, Eq, Structural)]
pub struct CompactionConfig {
    /// At the start 0.80.
    pub background_threshold: Single,
    /// At the start 0.85.
    pub aggressive_threshold: Single,
    /// At the start 0.95.
    pub emergency_threshold: Single,
}

impl CompactionConfig {
    /// The values at the start.
    pub open spec fn initial() -> CompactionConfig {
        CompactionConfig {
            background_threshold: Single { bits: 0x3f4ccccd },
            aggressive_threshold: Single { bits: 0x3f59999a },
            emergency_threshold: Single { bits: 0x3f733333 },
        }
    }

    /// The values that a section of the file gives, over a base for what it leaves out.
    pub open spec fn overridden(
        toml: TomlCompactionConfig,
        base: CompactionConfig,
    ) -> CompactionConfig {
        CompactionConfig {
            background_threshold: toml.background_threshold.unwrap_or(base.background_threshold),
            aggressive_threshold: toml.aggressive_threshold.unwrap_or(base.aggressive_threshold),
            emergency_threshold: toml.emergency_threshold.unwrap_or(base.emergency_threshold),
        }
    }

    /// Takes the values of a section of the file, and from the base what it leaves out.
    pub fn override_with(
        toml: TomlCompactionConfig,
        base: CompactionConfig,
    ) -> (config: CompactionConfig)
        ensures
            config == CompactionConfig::overridden(toml, base),
    {
        CompactionConfig {
            background_threshold: toml.background_threshold.unwrap_or(base.background_threshold),
            aggressive_threshold: toml.aggressive_threshold.unwrap_or(base.aggressive_threshold),
            emergency_threshold: toml.emergency_threshold.unwrap_or(base.emergency_threshold),
        }
    }

    /// The values that an optional section of the file gives; without it the base.
    pub open spec fn section(
        toml: Option<TomlCompactionConfig>,
        base: CompactionConfig,
    ) -> CompactionConfig {
        match toml {
            Some(t) => CompactionConfig::overridden(t, base),
            None => base,
        }
    }

    /// Takes the values of an optional section of the file.
    pub fn read(
        toml: Option<TomlCompactionConfig>,
        base: CompactionConfig,
    ) -> (config: CompactionConfig)
        ensures
            config == CompactionConfig::section(toml, base),
    {
        match toml {
            Some(t) => CompactionConfig::override_with(t, base),
            None => base,
        }
    }
}

impl Default for CompactionConfig {
    fn default() -> (config: CompactionConfig)
        ensures
            config == CompactionConfig::initial(),
    {
        CompactionConfig {
            background_threshold: Single { bits: 0x3f4ccccd },
            aggressive_threshold: Single { bits: 0x3f59999a },
            emergency_threshold: Single { bits: 0x3f733333 },
        }
    }
}

/// Auto-branching memory persistence configuration.
///
/// Spawns a silent branch every N messages to recall existing memories and save
/// new ones from the recent conversation.
#[derive(Debug, Clone, Copy, PartialEq, Eq, Structural)]
pub struct MemoryPersistenceConfig {
    /// Whether auto memory persistence branches are enabled.
    pub enabled: bool,
    /// Number of user messages between automatic memory persistence branches.
    pub message_interval: usize,
}

impl MemoryPersistenceConfig {
    /// The values at the start.
    pub open spec fn initial() -> MemoryPersistenceConfig {
        MemoryPersistenceConfig {
            enabled: true,
            message_interval: 50,
        }
    }

    /// The values that a section of the file gives, over a base for what it leaves out.
    pub open spec fn overridden(
        toml: TomlMemoryPersistenceConfig,
        base: MemoryPersistenceConfig,
    ) -> MemoryPersistenceConfig {
        MemoryPersistenceConfig {
            enabled: toml.enabled.unwrap_or(base.enabled),
            message_interval: toml.message_interval.unwrap_or(base.message_interval),
        }
    }

    /// Takes the values of a section of the file, and from the base what it leaves out.
    pub fn override_with(
        toml: TomlMemoryPersistenceConfig,
        base: MemoryPersistenceConfig,
    ) -> (config: MemoryPersistenceConfig)
        ensures
            config == MemoryPersistenceConfig::overridden(toml, base),
    {
        MemoryPersistenceConfig {
            enabled: toml.enabled.unwrap_or(base.enabled),
            message_interval: toml.message_interval.unwrap_or(base.message_interval),
        }
    }

    /// The values that an optional section of the file gives; without it the base.
    pub open spec fn section(
        toml: Option<TomlMemoryPersistenceConfig>,
        base: MemoryPersistenceConfig,
    ) -> MemoryPersistenceConfig {
        match toml {
            Some(t) => MemoryPersistenceConfig::overridden(t, base),
            None => base,
        }
    }

    /// Takes the values of an optional section of the file.
    pub fn read(
        toml: Option<TomlMemoryPersistenceConfig>,
        base: MemoryPersistenceConfig,
    ) -> (config: MemoryPersistenceConfig)
        ensures
            config == MemoryPersistenceConfig::section(toml, base),
    {
        match toml {
            Some(t) => MemoryPersistenceConfig::override_with(t, base),
            None => base,
        }
    }
}

impl Default for MemoryPersistenceConfig {
    fn default() -> (config: MemoryPersistenceConfig)
        ensures
            config == MemoryPersistenceConfig::initial(),
    {
        MemoryPersistenceConfig {
            enabled: true,
            message_interval: 50,
        }
    }
}

/// Message coalescing configuration for handling rapid-fire messages.
#[derive(Debug, Clone, Copy, PartialEq, Eq, Structural)]
pub struct CoalesceConfig {
    /// Enable message coalescing for multi-user channels.
    pub enabled: bool,
    /// Initial debounce window after first message (milliseconds).
    pub debounce_ms: u64,
    /// Maximum time to wait before flushing regardless (milliseconds).
    pub max_wait_ms: u64,
    /// Min messages to trigger coalesce mode.
    pub min_messages: usize,
    /// Apply only to multi-user conversations (skip for DMs).
    pub multi_user_only: bool,
}

impl CoalesceConfig {
    /// The values at the start.
    pub open spec fn initial() -> CoalesceConfig {
        CoalesceConfig {
            enabled: true,
            debounce_ms: 1500,
            max_wait_ms: 5000,
            min_messages: 2,
            multi_user_only: true,
        }
    }

    /// The values that a section of the file gives, over a base for what it leaves out.
    pub open spec fn overridden(toml: TomlCoalesceConfig, base: CoalesceConfig) -> CoalesceConfig {
        CoalesceConfig {
            enabled: toml.enabled.unwrap_or(base.enabled),
            debounce_ms: toml.debounce_ms.unwrap_or(base.debounce_ms),
            max_wait_ms: toml.max_wait_ms.unwrap_or(base.max_wait_ms),
            min_messages: toml.min_messages.unwrap_or(base.min_messages),
            multi_user_only: toml.multi_user_only.unwrap_or(base.multi_user_only),
        }
    }

    /// Takes the values of a section of the file, and from the base what it leaves out.
    pub fn override_with(toml: TomlCoalesceConfig, base: CoalesceConfig) -> (config: CoalesceConfig)
        ensures
            config == CoalesceConfig::overridden(toml, base),
    {
        CoalesceConfig {
            enabled: toml.enabled.unwrap_or(base.enabled),
            debounce_ms: toml.debounce_ms.unwrap_or(base.debounce_ms),
            max_wait_ms: toml.max_wait_ms.unwrap_or(base.max_wait_ms),
            min_messages: toml.min_messages.unwrap_or(base.min_messages),
            multi_user_only: toml.multi_user_only.unwrap_or(base.multi_user_only),
        }
    }

    /// The values that an optional section of the file gives; without it the base.
    pub open spec fn section(
        toml: Option<TomlCoalesceConfig>,
        base: CoalesceConfig,
    ) -> CoalesceConfig {
        match toml {
            Some(t) => CoalesceConfig::overridden(t, base),
            None => base,
        }
    }

    /// Takes the values of an optional section of the file.
    pub fn read(toml: Option<TomlCoalesceConfig>, base: CoalesceConfig) -> (config: CoalesceConfig)
        ensures
            config == CoalesceConfig::section(toml, base),
    {
        match toml {
            Some(t) => CoalesceConfig::override_with(t, base),
            None => base,
        }
    }
}

impl Default for CoalesceConfig {
    fn default() -> (config: CoalesceConfig)
        ensures
            config == CoalesceConfig::initial(),
    {
        CoalesceConfig {
            enabled: true,
            debounce_ms: 1500,
            max_wait_ms: 5000,
            min_messages: 2,
            multi_user_only: true,
        }
    }
}

/// File-based memory ingestion configuration.
#[derive(Debug, Clone, Copy, PartialEq, Eq, Structural)]
pub struct IngestionConfig {
    /// Whether file-based memory ingestion is enabled.
    pub enabled: bool,
    /// How often to scan the ingest directory for new files, in seconds.
    pub poll_interval_secs: u64,
    /// Target chunk size in characters.
    pub chunk_size: usize,
}

impl IngestionConfig {
    /// The values at the start.
    pub open spec fn initial() -> IngestionConfig {
        IngestionConfig {
            enabled: true,
            poll_interval_secs: 30,
            chunk_size: 4000,
        }
    }

    /// The values that a section of the file gives, over a base for what it leaves out.
    pub open spec fn overridden(
        toml: TomlIngestionConfig,
        base: IngestionConfig,
    ) -> IngestionConfig {
        IngestionConfig {
            enabled: toml.enabled.unwrap_or(base.enabled),
            poll_interval_secs: toml.poll_interval_secs.unwrap_or(base.poll_interval_secs),
            chunk_size: toml.chunk_size.unwrap_or(base.chunk_size),
        }
    }

    /// Takes the values of a section of the file, and from the base what it leaves out.
    pub fn override_with(
        toml: TomlIngestionConfig,
        base: IngestionConfig,
    ) -> (config: IngestionConfig)
        ensures
            config == IngestionConfig::overridden(toml, base),
    {
        IngestionConfig {
            enabled: toml.enabled.unwrap_or(base.enabled),
            poll_interval_secs: toml.poll_interval_secs.unwrap_or(base.poll_interval_secs),
            chunk_size: toml.chunk_size.unwrap_or(base.chunk_size),
        }
    }

    /// The values that an optional section of the file gives; without it the base.
    pub open spec fn section(
        toml: Option<TomlIngestionConfig>,
        base: IngestionConfig,
    ) -> IngestionConfig {
        match toml {
            Some(t) => IngestionConfig::overridden(t, base),
            None => base,
        }
    }

    /// Takes the values of an optional section of the file.
    pub fn read(
        toml: Option<TomlIngestionConfig>,
        base: IngestionConfig,
    ) -> (config: IngestionConfig)
        ensures
            config == IngestionConfig::section(toml, base),
    {
        match toml {
            Some(t) => IngestionConfig::override_with(t, base),
            None => base,
        }
    }
}

impl Default for IngestionConfig {
    fn default() -> (config: IngestionConfig)
        ensures
            config == IngestionConfig::initial(),
    {
        IngestionConfig {
            enabled: true,
            poll_interval_secs: 30,
            chunk_size: 4000,
        }
    }
}

/// Warmup configuration.
#[derive(Debug, Clone, Copy, PartialEq, Eq, Structural)]
pub struct WarmupConfig {
    /// Enable background warmup passes.
    pub enabled: bool,
    /// Force-load the embedding model before first recall/write workloads.
    pub eager_embedding_load: bool,
    /// Interval in seconds between warmup refresh passes.
    pub refresh_secs: u64,
    /// Startup delay before the first warmup pass.
    pub startup_delay_secs: u64,
}

impl WarmupConfig {
    /// The values at the start.
    pub open spec fn initial() -> WarmupConfig {
        WarmupConfig {
            enabled: true,
            eager_embedding_load: true,
            refresh_secs: 900,
            startup_delay_secs: 5,
        }
    }

    /// The values that a section of the file gives, over a base for what it leaves out.
    pub open spec fn overridden(toml: TomlWarmupConfig, base: WarmupConfig) -> WarmupConfig {
        WarmupConfig {
            enabled: toml.enabled.unwrap_or(base.enabled),
            eager_embedding_load: toml.eager_embedding_load.unwrap_or(base.eager_embedding_load),
            refresh_secs: toml.refresh_secs.unwrap_or(base.refresh_secs),
            startup_delay_secs: toml.startup_delay_secs.unwrap_or(base.startup_delay_secs),
        }
    }

    /// Takes the values of a section of the file, and from the base what it leaves out.
    pub fn override_with(toml: TomlWarmupConfig, base: WarmupConfig) -> (config: WarmupConfig)
        ensures
            config == WarmupConfig::overridden(toml, base),
    {
        WarmupConfig {
            enabled: toml.enabled.unwrap_or(base.enabled),
            eager_embedding_load: toml.eager_embedding_load.unwrap_or(base.eager_embedding_load),
            refresh_secs: toml.refresh_secs.unwrap_or(base.refresh_secs),
            startup_delay_secs: toml.startup_delay_secs.unwrap_or(base.startup_delay_secs),
        }
    }

    /// The values that an optional section of the file gives; without it the base.
    pub open spec fn section(toml: Option<TomlWarmupConfig>, base: WarmupConfig) -> WarmupConfig {
        match toml {
            Some(t) => WarmupConfig::overridden(t, base),
            None => base,
        }
    }

    /// Takes the values of an optional section of the file.
    pub fn read(toml: Option<TomlWarmupConfig>, base: WarmupConfig) -> (config: WarmupConfig)
        ensures
            config == WarmupConfig::section(toml, base),
    {
        match toml {
            Some(t) => WarmupConfig::override_with(t, base),
            None => base,
        }
    }
}

impl Default for WarmupConfig {
    fn default() -> (config: WarmupConfig)
        ensures
            config == WarmupConfig::initial(),
    {
        WarmupConfig {
            enabled: true,
            eager_embedding_load: true,
            refresh_secs: 900,
            startup_delay_secs: 5,
        }
    }
}

/// Channel behavior configuration.
#[derive(Debug, Clone, Copy, PartialEq, Eq, Structural)]
pub struct ChannelConfig {
    /// When true, unsolicited chat messages are ignored unless command/mention/reply.
    pub listen_only_mode: bool,
    /// When true, file attachments received in the channel are saved and tracked so
    /// that they can be recalled on later turns.
    pub save_attachments: bool,
}

impl ChannelConfig {
    /// The values at the start.
    pub open spec fn initial() -> ChannelConfig {
        ChannelConfig {
            listen_only_mode: false,
            save_attachments: false,
        }
    }

    /// The values that a section of the file gives, over a base for what it leaves out.
    pub open spec fn overridden(toml: TomlChannelConfig, base: ChannelConfig) -> ChannelConfig {
        ChannelConfig {
            listen_only_mode: toml.listen_only_mode.unwrap_or(base.listen_only_mode),
            save_attachments: toml.save_attachments.unwrap_or(base.save_attachments),
        }
    }

    /// Takes the values of a section of the file, and from the base what it leaves out.
    pub fn override_with(toml: TomlChannelConfig, base: ChannelConfig) -> (config: ChannelConfig)
        ensures
            config == ChannelConfig::overridden(toml, base),
    {
        ChannelConfig {
            listen_only_mode: toml.listen_only_mode.unwrap_or(base.listen_only_mode),
            save_attachments: toml.save_attachments.unwrap_or(base.save_attachments),
        }
    }

    /// The values that an optional section of the file gives; without it the base.
    pub open spec fn section(
        toml: Option<TomlChannelConfig>,
        base: ChannelConfig,
    ) -> ChannelConfig {
        match toml {
            Some(t) => ChannelConfig::overridden(t, base),
            None => base,
        }
    }

    /// Takes the values of an optional section of the file.
    pub fn read(toml: Option<TomlChannelConfig>, base: ChannelConfig) -> (config: ChannelConfig)
        ensures
            config == ChannelConfig::section(toml, base),
    {
        match toml {
            Some(t) => ChannelConfig::override_with(t, base),
            None => base,
        }
    }
}

impl Default for ChannelConfig {
    fn default() -> (config: ChannelConfig)
        ensures
            config == ChannelConfig::initial(),
    {
        ChannelConfig {
            listen_only_mode: false,
            save_attachments: false,
        }
    }
}

/// Cortex configuration.
#[derive(Debug, Clone, Copy, PartialEq, Eq, Structural)]
pub struct CortexConfig {
    pub tick_interval_secs: u64,
    pub worker_timeout_secs: u64,
    pub branch_timeout_secs: u64,
    pub detached_worker_timeout_retry_limit: u8,
    pub supervisor_kill_budget_per_tick: usize,
    pub circuit_breaker_threshold: u8,
    /// Interval in seconds between memory bulletin refreshes.
    pub bulletin_interval_secs: u64,
    /// Target word count for the memory bulletin.
    pub bulletin_max_words: usize,
    /// Max LLM turns for bulletin generation.
    pub bulletin_max_turns: usize,
    /// Interval in seconds between memory maintenance passes.
    pub maintenance_interval_secs: u64,
    /// Per-day decay applied to memory importance during maintenance. At the start 0.05.
    pub maintenance_decay_rate: Single,
    /// Minimum importance score for non-identity memories to avoid pruning. At the
    /// start 0.1.
    pub maintenance_prune_threshold: Single,
    /// Minimum age in days before a memory becomes prune-eligible.
    pub maintenance_min_age_days: i64,
    /// Similarity threshold above which memories are merged as near-duplicates. At the
    /// start 0.95.
    pub maintenance_merge_similarity_threshold: Single,
    /// Interval in seconds between association passes.
    pub association_interval_secs: u64,
    /// Minimum cosine similarity to create a RelatedTo edge. At the start 0.85.
    pub association_similarity_threshold: Single,
    /// Minimum cosine similarity to create an Updates edge (near-duplicate). At the
    /// start 0.95.
    pub association_updates_threshold: Single,
    /// Max associations to create per pass (rate limit).
    pub association_max_per_pass: usize,
}

impl CortexConfig {
    /// The values at the start.
    pub open spec fn initial() -> CortexConfig {
        CortexConfig {
            tick_interval_secs: 30,
            worker_timeout_secs: 600,
            branch_timeout_secs: 60,
            detached_worker_timeout_retry_limit: 2,
            supervisor_kill_budget_per_tick: 8,
            circuit_breaker_threshold: 3,
            bulletin_interval_secs: 3600,
            bulletin_max_words: 1500,
            bulletin_max_turns: 15,
            maintenance_interval_secs: 3600,
            maintenance_decay_rate: Single { bits: 0x3d4ccccd },
            maintenance_prune_threshold: Single { bits: 0x3dcccccd },
            maintenance_min_age_days: 30,
            maintenance_merge_similarity_threshold: Single { bits: 0x3f733333 },
            association_interval_secs: 300,
            association_similarity_threshold: Single { bits: 0x3f59999a },
            association_updates_threshold: Single { bits: 0x3f733333 },
            association_max_per_pass: 100,
        }
    }

    /// The values that a section of the file gives, over a base for what it leaves out.
    pub open spec fn overridden(toml: TomlCortexConfig, base: CortexConfig) -> CortexConfig {
        CortexConfig {
            tick_interval_secs: toml.tick_interval_secs.unwrap_or(base.tick_interval_secs),
            worker_timeout_secs: toml.worker_timeout_secs.unwrap_or(base.worker_timeout_secs),
            branch_timeout_secs: toml.branch_timeout_secs.unwrap_or(base.branch_timeout_secs),
            detached_worker_timeout_retry_limit: toml.detached_worker_timeout_retry_limit.unwrap_or(
                base.detached_worker_timeout_retry_limit,
            ),
            supervisor_kill_budget_per_tick: toml.supervisor_kill_budget_per_tick.unwrap_or(
                base.supervisor_kill_budget_per_tick,
            ),
            circuit_breaker_threshold: toml.circuit_breaker_threshold.unwrap_or(
                base.circuit_breaker_threshold,
            ),
            bulletin_interval_secs: toml.bulletin_interval_secs.unwrap_or(
                base.bulletin_interval_secs,
            ),
            bulletin_max_words: toml.bulletin_max_words.unwrap_or(base.bulletin_max_words),
            bulletin_max_turns: toml.bulletin_max_turns.unwrap_or(base.bulletin_max_turns),
            maintenance_interval_secs: toml.maintenance_interval_secs.unwrap_or(
                base.maintenance_interval_secs,
            ),
            maintenance_decay_rate: toml.maintenance_decay_rate.unwrap_or(
                base.maintenance_decay_rate,
            ),
            maintenance_prune_threshold: toml.maintenance_prune_threshold.unwrap_or(
                base.maintenance_prune_threshold,
            ),
            maintenance_min_age_days: toml.maintenance_min_age_days.unwrap_or(
                base.maintenance_min_age_days,
            ),
            maintenance_merge_similarity_threshold: toml.maintenance_merge_similarity_threshold.unwrap_or(
                base.maintenance_merge_similarity_threshold,
            ),
            association_interval_secs: toml.association_interval_secs.unwrap_or(
                base.association_interval_secs,
            ),
            association_similarity_threshold: toml.association_similarity_threshold.unwrap_or(
                base.association_similarity_threshold,
            ),
            association_updates_threshold: toml.association_updates_threshold.unwrap_or(
                base.association_updates_threshold,
            ),
            association_max_per_pass: toml.association_max_per_pass.unwrap_or(
                base.association_max_per_pass,
            ),
        }
    }

    /// Takes the values of a section of the file, and from the base what it leaves out.
    pub fn override_with(toml: TomlCortexConfig, base: CortexConfig) -> (config: CortexConfig)
        ensures
            config == CortexConfig::overridden(toml, base),
    {
        CortexConfig {
            tick_interval_secs: toml.tick_interval_secs.unwrap_or(base.tick_interval_secs),
            worker_timeout_secs: toml.worker_timeout_secs.unwrap_or(base.worker_timeout_secs),
            branch_timeout_secs: toml.branch_timeout_secs.unwrap_or(base.branch_timeout_secs),
            detached_worker_timeout_retry_limit: toml.detached_worker_timeout_retry_limit.unwrap_or(
                base.detached_worker_timeout_retry_limit,
            ),
            supervisor_kill_budget_per_tick: toml.supervisor_kill_budget_per_tick.unwrap_or(
                base.supervisor_kill_budget_per_tick,
            ),
            circuit_breaker_threshold: toml.circuit_breaker_threshold.unwrap_or(
                base.circuit_breaker_threshold,
            ),
            bulletin_interval_secs: toml.bulletin_interval_secs.unwrap_or(
                base.bulletin_interval_secs,
            ),
            bulletin_max_words: toml.bulletin_max_words.unwrap_or(base.bulletin_max_words),
            bulletin_max_turns: toml.bulletin_max_turns.unwrap_or(base.bulletin_max_turns),
            maintenance_interval_secs: toml.maintenance_interval_secs.unwrap_or(
                base.maintenance_interval_secs,
            ),
            maintenance_decay_rate: toml.maintenance_decay_rate.unwrap_or(
                base.maintenance_decay_rate,
            ),
            maintenance_prune_threshold: toml.maintenance_prune_threshold.unwrap_or(
                base.maintenance_prune_threshold,
            ),
            maintenance_min_age_days: toml.maintenance_min_age_days.unwrap_or(
                base.maintenance_min_age_days,
            ),
            maintenance_merge_similarity_threshold: toml.maintenance_merge_similarity_threshold.unwrap_or(
                base.maintenance_merge_similarity_threshold,
            ),
            association_interval_secs: toml.association_interval_secs.unwrap_or(
                base.association_interval_secs,
            ),
            association_similarity_threshold: toml.association_similarity_threshold.unwrap_or(
                base.association_similarity_threshold,
            ),
            association_updates_threshold: toml.association_updates_threshold.unwrap_or(
                base.association_updates_threshold,
            ),
            association_max_per_pass: toml.association_max_per_pass.unwrap_or(
                base.association_max_per_pass,
            ),
        }
    }

    /// The values that an optional section of the file gives; without it the base.
    pub open spec fn section(toml: Option<TomlCortexConfig>, base: CortexConfig) -> CortexConfig {
        match toml {
            Some(t) => CortexConfig::overridden(t, base),
            None => base,
        }
    }

    /// Takes the values of an optional section of the file.
    pub fn read(toml: Option<TomlCortexConfig>, base: CortexConfig) -> (config: CortexConfig)
        ensures
            config == CortexConfig::section(toml, base),
    {
        match toml {
            Some(t) => CortexConfig::override_with(t, base),
            None => base,
        }
    }
}

impl Default for CortexConfig {
    fn default() -> (config: CortexConfig)
        ensures
            config == CortexConfig::initial(),
    {
        CortexConfig {
            tick_interval_secs: 30,
            worker_timeout_secs: 600,
            branch_timeout_secs: 60,
            detached_worker_timeout_retry_limit: 2,
            supervisor_kill_budget_per_tick: 8,
            circuit_breaker_threshold: 3,
            bulletin_interval_secs: 3600,
            bulletin_max_words: 1500,
            bulletin_max_turns: 15,
            maintenance_interval_secs: 3600,
            maintenance_decay_rate: Single { bits: 0x3d4ccccd },
            maintenance_prune_threshold: Single { bits: 0x3dcccccd },
            maintenance_min_age_days: 30,
            maintenance_merge_similarity_threshold: Single { bits: 0x3f733333 },
            association_interval_secs: 300,
            association_similarity_threshold: Single { bits: 0x3f59999a },
            association_updates_threshold: Single { bits: 0x3f733333 },
            association_max_per_pass: 100,
        }
    }
}

/// The number is not negative, not above one, and a number at all. Single-precision
/// patterns from zero to that of one are in order; the one pattern beside them is
/// that of minus zero.
pub open spec fn in_unit_interval(value: Single) -> bool {
    value.bits <= 0x3f80_0000 || value.bits == 0x8000_0000
}

/// What is wrong with a named number that has to be between zero and one.
pub open spec fn unit_interval_check(name: Seq<char>, value: Single) -> Result<
    (),
    ConfigErrorView,
> {
    if in_unit_interval(value) {
        Ok(())
    } else {
        Err(ConfigErrorView::NotInUnitInterval { name, value })
    }
}

/// Checks that a named number is between zero and one.
pub fn validate_unit_interval_f32(name: &str, value: Single) -> (result: Result<(), ConfigError>)
    ensures
        error::unit_result(result) == unit_interval_check(name@, value),
{
    if value.bits <= 0x3f80_0000 || value.bits == 0x8000_0000 {
        Ok(())
    } else {
        Err(ConfigError::NotInUnitInterval { name: name.to_owned(), value })
    }
}

impl CortexConfig {
    /// The first of the maintenance bounds that does not hold.
    pub open spec fn maintenance_check(self) -> Result<(), ConfigErrorView> {
        if !in_unit_interval(self.maintenance_decay_rate) {
            Err(
                ConfigErrorView::NotInUnitInterval {
                    name: "maintenance_decay_rate"@,
                    value: self.maintenance_decay_rate,
                },
            )
        } else if !in_unit_interval(self.maintenance_prune_threshold) {
            Err(
                ConfigErrorView::NotInUnitInterval {
                    name: "maintenance_prune_threshold"@,
                    value: self.maintenance_prune_threshold,
                },
            )
        } else if !in_unit_interval(self.maintenance_merge_similarity_threshold) {
            Err(
                ConfigErrorView::NotInUnitInterval {
                    name: "maintenance_merge_similarity_threshold"@,
                    value: self.maintenance_merge_similarity_threshold,
                },
            )
        } else if self.maintenance_min_age_days < 0 {
            Err(
                ConfigErrorView::Invalid(
                    "maintenance_min_age_days must be >= 0, got "@ + text::signed_decimal(
                        self.maintenance_min_age_days as int,
                    ),
                ),
            )
        } else if self.maintenance_interval_secs == 0 {
            Err(ConfigErrorView::Invalid("maintenance_interval_secs must be >= 1"@))
        } else {
            Ok(())
        }
    }

    /// Validate maintenance tuning bounds used by pruning/merge logic.
    pub fn validate_maintenance_bounds(&self) -> (result: Result<(), ConfigError>)
        ensures
            error::unit_result(result) == self.maintenance_check(),
    {
        validate_unit_interval_f32("maintenance_decay_rate", self.maintenance_decay_rate)?;
        validate_unit_interval_f32(
            "maintenance_prune_threshold",
            self.maintenance_prune_threshold,
        )?;
        validate_unit_interval_f32(
            "maintenance_merge_similarity_threshold",
            self.maintenance_merge_similarity_threshold,
        )?;
        if self.maintenance_min_age_days < 0 {
            let days = text::signed_decimal_of(self.maintenance_min_age_days);
            return Err(
                ConfigError::Invalid(
                    text::concat("maintenance_min_age_days must be >= 0, got ", days.as_str()),
                ),
            );
        }
        if self.maintenance_interval_secs == 0 {
            return Err(ConfigError::Invalid("maintenance_interval_secs must be >= 1".to_owned()));
        }
        Ok(())
    }

    /// The cortex settings that a section of the file gives over a base, or why they
    /// are refused. The maintenance interval is looked at first.
    pub open spec fn resolution(overrides: TomlCortexConfig, defaults: CortexConfig) -> Result<
        CortexConfig,
        ConfigErrorView,
    > {
        let config = CortexConfig::overridden(overrides, defaults);
        if config.maintenance_interval_secs < 1 {
            Err(ConfigErrorView::Invalid("maintenance_interval_secs must be >= 1"@))
        } else {
            match config.maintenance_check() {
                Ok(_) => Ok(config),
                Err(refusal) => Err(refusal),
            }
        }
    }

    /// Takes the cortex settings of a section of the file over a base, and checks them.
    pub fn resolve(overrides: TomlCortexConfig, defaults: CortexConfig) -> (result: Result<
        CortexConfig,
        ConfigError,
    >)
        ensures
            cortex_result(result) == CortexConfig::resolution(overrides, defaults),
    {
        let config = CortexConfig::override_with(overrides, defaults);
        if config.maintenance_interval_secs < 1 {
            return Err(ConfigError::Invalid("maintenance_interval_secs must be >= 1".to_owned()));
        }
        config.validate_maintenance_bounds()?;
        Ok(config)
    }
}

/// The view of resolved cortex settings.
pub open spec fn cortex_result(result: Result<CortexConfig, ConfigError>) -> Result<
    CortexConfig,
    ConfigErrorView,
> {
    match result {
        Ok(config) => Ok(config),
        Err(refusal) => Err(refusal@),
    }
}

/// Settings that come out of a section of the file have passed the maintenance
/// bounds.
pub proof fn law_resolved_cortex_is_in_bounds(
    overrides: TomlCortexConfig,
    defaults: CortexConfig,
    config: CortexConfig,
)
    requires
        CortexConfig::resolution(overrides, defaults) == Ok::<CortexConfig, ConfigErrorView>(
            config,
        ),
    ensures
        config.maintenance_check() == Ok::<(), ConfigErrorView>(()),
        config.maintenance_interval_secs >= 1,
        config.maintenance_min_age_days >= 0,
{
}

/// The settings at the start pass the maintenance bounds.
pub proof fn lemma_initial_cortex_is_in_bounds()
    ensures
        CortexConfig::initial().maintenance_check() == Ok::<(), ConfigErrorView>(()),
{
}

// ---------------------------------------------------------------------------
// Browser
// ---------------------------------------------------------------------------

/// What happens when a worker explicitly calls "close" on the browser.
#[derive(Debug, Clone, Copy, PartialEq, Eq, Structural)]
pub enum ClosePolicy {
    /// Kill the browser process and reset all state (current default behavior).
    CloseBrowser,
    /// Close all tabs but leave the browser process running.
    CloseTabs,
    /// Disconnect from the browser without touching tabs or the process.
    Detach,
}

impl Default for ClosePolicy {
    fn default() -> (policy: ClosePolicy)
        ensures
            policy == ClosePolicy::CloseBrowser,
    {
        ClosePolicy::CloseBrowser
    }
}

impl ClosePolicy {
    /// The name of the policy in the configuration file.
    pub open spec fn name(self) -> Seq<char> {
        match self {
            ClosePolicy::CloseBrowser => "close_browser"@,
            ClosePolicy::CloseTabs => "close_tabs"@,
            ClosePolicy::Detach => "detach"@,
        }
    }

    /// The name of the policy in the configuration file.
    pub fn as_str(self) -> (name: &'static str)
        ensures
            name@ == self.name(),
    {
        match self {
            ClosePolicy::CloseBrowser => "close_browser",
            ClosePolicy::CloseTabs => "close_tabs",
            ClosePolicy::Detach => "detach",
        }
    }
}

/// The policy of a name.
pub open spec fn close_policy_named(name: Option<Seq<char>>) -> Option<ClosePolicy> {
    match name {
        Some(n) => if n == "close_browser"@ {
            Some(ClosePolicy::CloseBrowser)
        } else if n == "close_tabs"@ {
            Some(ClosePolicy::CloseTabs)
        } else if n == "detach"@ {
            Some(ClosePolicy::Detach)
        } else {
            None
        },
        None => None,
    }
}

/// The policy of a name; none for an unknown name.
pub fn parse_close_policy(value: Option<&str>) -> (policy: Option<ClosePolicy>)
    ensures
        policy == close_policy_named(crate::json::str_view(value)),
{
    match value {
        Some(name) => if text::same(name, "close_browser") {
            Some(ClosePolicy::CloseBrowser)
        } else if text::same(name, "close_tabs") {
            Some(ClosePolicy::CloseTabs)
        } else if text::same(name, "detach") {
            Some(ClosePolicy::Detach)
        } else {
            None
        },
        None => None,
    }
}

/// Reading a policy's name gives the policy back.
pub proof fn law_close_policy_name_reads_back(policy: ClosePolicy)
    ensures
        close_policy_named(Some(policy.name())) == Some(policy),
{
    reveal_strlit("close_browser");
    reveal_strlit("close_tabs");
    reveal_strlit("detach");
    assert("close_browser"@.len() == 13);
    assert("close_tabs"@.len() == 10);
    assert("detach"@.len() == 6);
}

/// The policy in force: the named one, else `Detach` where sessions persist, so that
/// tabs and cookies survive across workers, else the fallback.
pub open spec fn close_policy_in_force(
    explicit: Option<Seq<char>>,
    persist_session: bool,
    fallback: ClosePolicy,
) -> ClosePolicy {
    match close_policy_named(explicit) {
        Some(policy) => policy,
        None => if persist_session {
            ClosePolicy::Detach
        } else {
            fallback
        },
    }
}

/// Resolve the effective close policy.
pub fn resolve_close_policy(
    explicit: Option<&str>,
    persist_session: bool,
    fallback: ClosePolicy,
) -> (policy: ClosePolicy)
    ensures
        policy == close_policy_in_force(crate::json::str_view(explicit), persist_session, fallback),
{
    match parse_close_policy(explicit) {
        Some(policy) => policy,
        None => if persist_session {
            ClosePolicy::Detach
        } else {
            fallback
        },
    }
}

/// Browser automation configuration for workers.
#[derive(Debug, PartialEq, Eq)]
pub struct BrowserConfig {
    /// Whether browser tools are available to workers.
    pub enabled: bool,
    /// Run Chrome in headless mode.
    pub headless: bool,
    /// Allow JavaScript evaluation via the browser tool.
    pub evaluate_enabled: bool,
    /// Custom Chrome/Chromium executable path.
    pub executable_path: Option<String>,
    /// Directory for storing screenshots and other browser artifacts.
    pub screenshot_dir: Option<String>,
    /// Keep the browser alive across worker lifetimes.
    pub persist_session: bool,
    /// Controls what happens when a worker calls "close" or finishes.
    pub close_policy: ClosePolicy,
    /// Directory for caching a fetcher-downloaded Chromium binary.
    pub chrome_cache_dir: String,
}

/// The view of a [`BrowserConfig`].
#[verifier::ext_equal]
pub struct BrowserView {
    pub enabled: bool,
    pub headless: bool,
    pub evaluate_enabled: bool,
    pub executable_path: Option<Seq<char>>,
    pub screenshot_dir: Option<Seq<char>>,
    pub persist_session: bool,
    pub close_policy: ClosePolicy,
    pub chrome_cache_dir: Seq<char>,
}

impl View for BrowserConfig {
    type V = BrowserView;

    open spec fn view(&self) -> BrowserView {
        BrowserView {
            enabled: self.enabled,
            headless: self.headless,
            evaluate_enabled: self.evaluate_enabled,
            executable_path: text::view_of(self.executable_path),
            screenshot_dir: text::view_of(self.screenshot_dir),
            persist_session: self.persist_session,
            close_policy: self.close_policy,
            chrome_cache_dir: self.chrome_cache_dir@,
        }
    }
}

impl BrowserConfig {
    /// The values at the start.
    pub open spec fn initial() -> BrowserView {
        BrowserView {
            enabled: true,
            headless: true,
            evaluate_enabled: false,
            executable_path: None,
            screenshot_dir: None,
            persist_session: false,
            close_policy: ClosePolicy::CloseBrowser,
            chrome_cache_dir: "chrome_cache"@,
        }
    }

    /// The values that a section of the file gives, over a base for what it leaves out.
    pub open spec fn overridden(toml: TomlBrowserConfig, base: BrowserView) -> BrowserView {
        let persist_session = toml.persist_session.unwrap_or(base.persist_session);
        BrowserView {
            enabled: toml.enabled.unwrap_or(base.enabled),
            headless: toml.headless.unwrap_or(base.headless),
            evaluate_enabled: toml.evaluate_enabled.unwrap_or(base.evaluate_enabled),
            executable_path: resolve::or_else(
                text::view_of(toml.executable_path),
                base.executable_path,
            ),
            screenshot_dir: resolve::or_else(
                text::view_of(toml.screenshot_dir),
                base.screenshot_dir,
            ),
            persist_session,
            close_policy: close_policy_in_force(
                text::view_of(toml.close_policy),
                persist_session,
                base.close_policy,
            ),
            chrome_cache_dir: base.chrome_cache_dir,
        }
    }

    /// Takes the values of a section of the file, and from the base what it leaves out.
    pub fn override_with(toml: TomlBrowserConfig, base: &BrowserConfig) -> (config: BrowserConfig)
        ensures
            config@ == BrowserConfig::overridden(toml, base@),
    {
        let persist_session = toml.persist_session.unwrap_or(base.persist_session);
        let close_policy = match &toml.close_policy {
            Some(name) => resolve_close_policy(
                Some(name.as_str()),
                persist_session,
                base.close_policy,
            ),
            None => resolve_close_policy(None, persist_session, base.close_policy),
        };
        BrowserConfig {
            enabled: toml.enabled.unwrap_or(base.enabled),
            headless: toml.headless.unwrap_or(base.headless),
            evaluate_enabled: toml.evaluate_enabled.unwrap_or(base.evaluate_enabled),
            executable_path: text_or_copy(toml.executable_path, &base.executable_path),
            screenshot_dir: text_or_copy(toml.screenshot_dir, &base.screenshot_dir),
            persist_session,
            close_policy,
            chrome_cache_dir: base.chrome_cache_dir.clone(),
        }
    }

    /// The values that an optional section of the file gives; without it the base.
    pub open spec fn section(toml: Option<TomlBrowserConfig>, base: BrowserView) -> BrowserView {
        match toml {
            Some(t) => BrowserConfig::overridden(t, base),
            None => base,
        }
    }

    /// Takes the values of an optional section of the file.
    pub fn read(toml: Option<TomlBrowserConfig>, base: BrowserConfig) -> (config: BrowserConfig)
        ensures
            config@ == BrowserConfig::section(toml, base@),
    {
        match toml {
            Some(t) => BrowserConfig::override_with(t, &base),
            None => base,
        }
    }

    /// The same settings again.
    pub fn duplicate(&self) -> (copy: BrowserConfig)
        ensures
            copy@ == self@,
    {
        BrowserConfig {
            enabled: self.enabled,
            headless: self.headless,
            evaluate_enabled: self.evaluate_enabled,
            executable_path: self.executable_path.clone(),
            screenshot_dir: self.screenshot_dir.clone(),
            persist_session: self.persist_session,
            close_policy: self.close_policy,
            chrome_cache_dir: self.chrome_cache_dir.clone(),
        }
    }
}

/// The text where there is one, else a copy of the other.
pub(crate) fn text_or_copy(value: Option<String>, other: &Option<String>) -> (result: Option<
    String,
>)
    ensures
        text::view_of(result) == resolve::or_else(text::view_of(value), text::view_of(*other)),
{
    match value {
        Some(v) => Some(v),
        None => other.clone(),
    }
}

impl Default for BrowserConfig {
    fn default() -> (config: BrowserConfig)
        ensures
            config@ == BrowserConfig::initial(),
    {
        BrowserConfig {
            enabled: true,
            headless: true,
            evaluate_enabled: false,
            executable_path: None,
            screenshot_dir: None,
            persist_session: false,
            close_policy: ClosePolicy::CloseBrowser,
            chrome_cache_dir: "chrome_cache".to_owned(),
        }
    }
}

// ---------------------------------------------------------------------------
// OpenCode
// ---------------------------------------------------------------------------

/// What OpenCode may do without asking.
#[derive(Debug, PartialEq, Eq)]
pub struct OpenCodePermissions {
    pub edit: String,
    pub bash: String,
    pub webfetch: String,
}

/// The view of an [`OpenCodePermissions`].
#[verifier::ext_equal]
pub struct PermissionsView {
    pub edit: Seq<char>,
    pub bash: Seq<char>,
    pub webfetch: Seq<char>,
}

impl View for OpenCodePermissions {
    type V = PermissionsView;

    open spec fn view(&self) -> PermissionsView {
        PermissionsView {
            edit: self.edit@,
            bash: self.bash@,
            webfetch: self.webfetch@,
        }
    }
}

/// OpenCode subprocess worker configuration.
#[derive(Debug, PartialEq, Eq)]
pub struct OpenCodeConfig {
    /// Whether OpenCode workers are available.
    pub enabled: bool,
    /// Path to the OpenCode binary.
    pub path: String,
    /// Maximum concurrent OpenCode server processes.
    pub max_servers: usize,
    /// Timeout in seconds waiting for a server to become healthy.
    pub server_startup_timeout_secs: u64,
    /// Maximum restart attempts before giving up on a server.
    pub max_restart_retries: u32,
    /// Permission settings passed to OpenCode's config.
    pub permissions: OpenCodePermissions,
}

/// The view of an [`OpenCodeConfig`].
#[verifier::ext_equal]
pub struct OpenCodeView {
    pub enabled: bool,
    pub path: Seq<char>,
    pub max_servers: usize,
    pub server_startup_timeout_secs: u64,
    pub max_restart_retries: u32,
    pub permissions: PermissionsView,
}

impl View for OpenCodeConfig {
    type V = OpenCodeView;

    open spec fn view(&self) -> OpenCodeView {
        OpenCodeView {
            enabled: self.enabled,
            path: self.path@,
            max_servers: self.max_servers,
            server_startup_timeout_secs: self.server_startup_timeout_secs,
            max_restart_retries: self.max_restart_retries,
            permissions: self.permissions@,
        }
    }
}

impl OpenCodePermissions {
    /// The permissions that a section of the file gives, over a base.
    pub open spec fn overridden(
        toml: TomlOpenCodePermissions,
        base: PermissionsView,
    ) -> PermissionsView {
        PermissionsView {
            edit: providers::text_or(toml.edit, base.edit),
            bash: providers::text_or(toml.bash, base.bash),
            webfetch: providers::text_or(toml.webfetch, base.webfetch),
        }
    }
}

impl OpenCodeConfig {
    /// The values at the start, with the given permissions.
    pub open spec fn initial(permissions: PermissionsView) -> OpenCodeView {
        OpenCodeView {
            enabled: false,
            path: "opencode"@,
            max_servers: 5,
            server_startup_timeout_secs: 30,
            max_restart_retries: 5,
            permissions,
        }
    }

    /// The values at the start, with the given permissions.
    pub fn with_permissions(permissions: OpenCodePermissions) -> (config: OpenCodeConfig)
        ensures
            config@ == OpenCodeConfig::initial(permissions@),
    {
        OpenCodeConfig {
            enabled: false,
            path: "opencode".to_owned(),
            max_servers: 5,
            server_startup_timeout_secs: 30,
            max_restart_retries: 5,
            permissions,
        }
    }

    /// The values that a section of the file gives, over a base. The path may be a
    /// reference; one that stands for nothing gives way to the base.
    pub open spec fn overridden(
        context: ResolveContext,
        toml: TomlOpenCodeConfig,
        base: OpenCodeView,
    ) -> OpenCodeView {
        OpenCodeView {
            enabled: toml.enabled.unwrap_or(base.enabled),
            path: match resolve::resolved(context, providers::text_or(toml.path, base.path)) {
                Some(path) => path,
                None => base.path,
            },
            max_servers: toml.max_servers.unwrap_or(base.max_servers),
            server_startup_timeout_secs: toml.server_startup_timeout_secs.unwrap_or(
                base.server_startup_timeout_secs,
            ),
            max_restart_retries: toml.max_restart_retries.unwrap_or(base.max_restart_retries),
            permissions: match toml.permissions {
                Some(p) => OpenCodePermissions::overridden(p, base.permissions),
                None => base.permissions,
            },
        }
    }

    /// Takes the values of a section of the file, and from the base what it leaves out.
    pub fn override_with(
        context: &ResolveContext,
        toml: TomlOpenCodeConfig,
        base: OpenCodeConfig,
    ) -> (config: OpenCodeConfig)
        ensures
            config@ == OpenCodeConfig::overridden(*context, toml, base@),
    {
        let written = providers::own_or(toml.path, &base.path);
        let path = match resolve::resolve_env_value(context, written.as_str()) {
            Some(path) => path,
            None => base.path.clone(),
        };
        let permissions = match toml.permissions {
            Some(p) => OpenCodePermissions {
                edit: providers::own_or(p.edit, &base.permissions.edit),
                bash: providers::own_or(p.bash, &base.permissions.bash),
                webfetch: providers::own_or(p.webfetch, &base.permissions.webfetch),
            },
            None => base.permissions,
        };
        OpenCodeConfig {
            enabled: toml.enabled.unwrap_or(base.enabled),
            path,
            max_servers: toml.max_servers.unwrap_or(base.max_servers),
            server_startup_timeout_secs: toml.server_startup_timeout_secs.unwrap_or(
                base.server_startup_timeout_secs,
            ),
            max_restart_retries: toml.max_restart_retries.unwrap_or(base.max_restart_retries),
            permissions,
        }
    }
}

impl OpenCodeConfig {
    /// The values that an optional section of the file gives; without it the base.
    pub open spec fn section(
        context: ResolveContext,
        toml: Option<TomlOpenCodeConfig>,
        base: OpenCodeView,
    ) -> OpenCodeView {
        match toml {
            Some(t) => OpenCodeConfig::overridden(context, t, base),
            None => base,
        }
    }

    /// Takes the values of an optional section of the file.
    pub fn read(
        context: &ResolveContext,
        toml: Option<TomlOpenCodeConfig>,
        base: OpenCodeConfig,
    ) -> (config: OpenCodeConfig)
        ensures
            config@ == OpenCodeConfig::section(*context, toml, base@),
    {
        match toml {
            Some(t) => OpenCodeConfig::override_with(context, t, base),
            None => base,
        }
    }
}

// ---------------------------------------------------------------------------
// Projects
// ---------------------------------------------------------------------------

/// Projects configuration: defaults for project workspace management.
#[derive(Debug, PartialEq, Eq)]
pub struct ProjectsConfig {
    /// Whether to use git worktrees for feature branches.
    pub use_worktrees: bool,
    /// Worktree naming convention. Variables: {branch}, {feature}, {repo}.
    pub worktree_name_template: String,
    /// Whether the agent can create new worktrees autonomously.
    pub auto_create_worktrees: bool,
    /// Whether to auto-discover repos when a project is created.
    pub auto_discover_repos: bool,
    /// Whether to auto-discover existing worktrees.
    pub auto_discover_worktrees: bool,
    /// Maximum disk usage warning threshold in bytes.
    pub disk_usage_warning_threshold: u64,
}

/// The view of a [`ProjectsConfig`].
#[verifier::ext_equal]
pub struct ProjectsView {
    pub use_worktrees: bool,
    pub worktree_name_template: Seq<char>,
    pub auto_create_worktrees: bool,
    pub auto_discover_repos: bool,
    pub auto_discover_worktrees: bool,
    pub disk_usage_warning_threshold: u64,
}

impl View for ProjectsConfig {
    type V = ProjectsView;

    open spec fn view(&self) -> ProjectsView {
        ProjectsView {
            use_worktrees: self.use_worktrees,
            worktree_name_template: self.worktree_name_template@,
            auto_create_worktrees: self.auto_create_worktrees,
            auto_discover_repos: self.auto_discover_repos,
            auto_discover_worktrees: self.auto_discover_worktrees,
            disk_usage_warning_threshold: self.disk_usage_warning_threshold,
        }
    }
}

impl ProjectsConfig {
    /// The values at the start. The threshold is 50 GB.
    pub open spec fn initial() -> ProjectsView {
        ProjectsView {
            use_worktrees: true,
            worktree_name_template: "{branch}"@,
            auto_create_worktrees: false,
            auto_discover_repos: true,
            auto_discover_worktrees: true,
            disk_usage_warning_threshold: 53_687_091_200,
        }
    }

    /// The values that a section of the file gives, over a base for what it leaves out.
    pub open spec fn overridden(toml: TomlProjectsConfig, base: ProjectsView) -> ProjectsView {
        ProjectsView {
            use_worktrees: toml.use_worktrees.unwrap_or(base.use_worktrees),
            worktree_name_template: providers::text_or(
                toml.worktree_name_template,
                base.worktree_name_template,
            ),
            auto_create_worktrees: toml.auto_create_worktrees.unwrap_or(
                base.auto_create_worktrees,
            ),
            auto_discover_repos: toml.auto_discover_repos.unwrap_or(base.auto_discover_repos),
            auto_discover_worktrees: toml.auto_discover_worktrees.unwrap_or(
                base.auto_discover_worktrees,
            ),
            disk_usage_warning_threshold: toml.disk_usage_warning_threshold.unwrap_or(
                base.disk_usage_warning_threshold,
            ),
        }
    }

    /// Takes the values of a section of the file, and from the base what it leaves out.
    pub fn override_with(toml: TomlProjectsConfig, base: &ProjectsConfig) -> (config:
        ProjectsConfig)
        ensures
            config@ == ProjectsConfig::overridden(toml, base@),
    {
        ProjectsConfig {
            use_worktrees: toml.use_worktrees.unwrap_or(base.use_worktrees),
            worktree_name_template: providers::own_or(
                toml.worktree_name_template,
                &base.worktree_name_template,
            ),
            auto_create_worktrees: toml.auto_create_worktrees.unwrap_or(
                base.auto_create_worktrees,
            ),
            auto_discover_repos: toml.auto_discover_repos.unwrap_or(base.auto_discover_repos),
            auto_discover_worktrees: toml.auto_discover_worktrees.unwrap_or(
                base.auto_discover_worktrees,
            ),
            disk_usage_warning_threshold: toml.disk_usage_warning_threshold.unwrap_or(
                base.disk_usage_warning_threshold,
            ),
        }
    }

    /// The values that an optional section of the file gives; without it the base.
    pub open spec fn section(toml: Option<TomlProjectsConfig>, base: ProjectsView) -> ProjectsView {
        match toml {
            Some(t) => ProjectsConfig::overridden(t, base),
            None => base,
        }
    }

    /// Takes the values of an optional section of the file.
    pub fn read(toml: Option<TomlProjectsConfig>, base: ProjectsConfig) -> (config: ProjectsConfig)
        ensures
            config@ == ProjectsConfig::section(toml, base@),
    {
        match toml {
            Some(t) => ProjectsConfig::override_with(t, &base),
            None => base,
        }
    }

    /// The same settings again.
    pub fn duplicate(&self) -> (copy: ProjectsConfig)
        ensures
            copy@ == self@,
    {
        ProjectsConfig {
            use_worktrees: self.use_worktrees,
            worktree_name_template: self.worktree_name_template.clone(),
            auto_create_worktrees: self.auto_create_worktrees,
            auto_discover_repos: self.auto_discover_repos,
            auto_discover_worktrees: self.auto_discover_worktrees,
            disk_usage_warning_threshold: self.disk_usage_warning_threshold,
        }
    }
}

impl Default for ProjectsConfig {
    fn default() -> (config: ProjectsConfig)
        ensures
            config@ == ProjectsConfig::initial(),
    {
        ProjectsConfig {
            use_worktrees: true,
            worktree_name_template: "{branch}".to_owned(),
            auto_create_worktrees: false,
            auto_discover_repos: true,
            auto_discover_worktrees: true,
            disk_usage_warning_threshold: 53_687_091_200,
        }
    }
}

// ---------------------------------------------------------------------------
// Servers, telemetry and logs
// ---------------------------------------------------------------------------

/// HTTP API server configuration.
#[derive(Debug, PartialEq, Eq)]
pub struct ApiConfig {
    /// Whether the HTTP API server is enabled.
    pub enabled: bool,
    /// Port to bind the HTTP server on.
    pub port: u16,
    /// Address to bind the HTTP server on.
    pub bind: String,
    /// Token that callers have to send, where one is set.
    pub auth_token: Option<String>,
}

/// The view of an [`ApiConfig`].
#[verifier::ext_equal]
pub struct ApiView {
    pub enabled: bool,
    pub port: u16,
    pub bind: Seq<char>,
    pub auth_token: Option<Seq<char>>,
}

impl View for ApiConfig {
    type V = ApiView;

    open spec fn view(&self) -> ApiView {
        ApiView {
            enabled: self.enabled,
            port: self.port,
            bind: self.bind@,
            auth_token: text::view_of(self.auth_token),
        }
    }
}

impl Default for ApiConfig {
    fn default() -> (config: ApiConfig)
        ensures
            config@ == (ApiView {
                enabled: true,
                port: 19898,
                bind: "127.0.0.1"@,
                auth_token: None,
            }),
    {
        ApiConfig { enabled: true, port: 19898, bind: "127.0.0.1".to_owned(), auth_token: None }
    }
}

/// Prometheus metrics endpoint configuration.
#[derive(Debug, PartialEq, Eq)]
pub struct MetricsConfig {
    /// Whether the metrics endpoint is enabled.
    pub enabled: bool,
    /// Port to bind the metrics HTTP server on.
    pub port: u16,
    /// Address to bind the metrics HTTP server on.
    pub bind: String,
}

/// The view of a [`MetricsConfig`].
#[verifier::ext_equal]
pub struct MetricsView {
    pub enabled: bool,
    pub port: u16,
    pub bind: Seq<char>,
}

impl View for MetricsConfig {
    type V = MetricsView;

    open spec fn view(&self) -> MetricsView {
        MetricsView {
            enabled: self.enabled,
            port: self.port,
            bind: self.bind@,
        }
    }
}

impl Default for MetricsConfig {
    fn default() -> (config: MetricsConfig)
        ensures
            config@ == (MetricsView { enabled: false, port: 9090, bind: "0.0.0.0"@ }),
    {
        MetricsConfig { enabled: false, port: 9090, bind: "0.0.0.0".to_owned() }
    }
}

/// OpenTelemetry export configuration.
///
/// Without an endpoint, OTLP export is disabled.
#[derive(Debug, PartialEq, Eq)]
pub struct TelemetryConfig {
    /// OTLP HTTP endpoint, e.g. `http://localhost:4318`.
    /// Falls back to the `OTEL_EXPORTER_OTLP_ENDPOINT` environment variable.
    pub otlp_endpoint: Option<String>,
    /// Extra OTLP headers for the exporter (e.g. `Authorization`).
    pub otlp_headers: StringMap<String>,
    /// `service.name` resource attribute sent with every span.
    pub service_name: String,
    /// Trace sample rate in the range 0.0 to 1.0. At the start 1.0 (sample all).
    pub sample_rate: Double,
}

/// The view of a [`TelemetryConfig`].
#[verifier::ext_equal]
pub struct TelemetryView {
    pub otlp_endpoint: Option<Seq<char>>,
    pub otlp_headers: Map<Seq<char>, Seq<char>>,
    pub service_name: Seq<char>,
    pub sample_rate: Double,
}

impl View for TelemetryConfig {
    type V = TelemetryView;

    open spec fn view(&self) -> TelemetryView {
        TelemetryView {
            otlp_endpoint: text::view_of(self.otlp_endpoint),
            otlp_headers: views::entries(self.otlp_headers@),
            service_name: self.service_name@,
            sample_rate: self.sample_rate,
        }
    }
}

/// How much of a worker's run is written to its log.
#[derive(Debug, Clone, Copy, PartialEq, Eq, Structural)]
pub enum WorkerLogMode {
    ErrorsOnly,
    AllSeparate,
    AllCombined,
}

/// The log mode of a name.
pub open spec fn worker_log_mode_named(name: Seq<char>) -> Option<WorkerLogMode> {
    if name == "errors_only"@ {
        Some(WorkerLogMode::ErrorsOnly)
    } else if name == "all_separate"@ {
        Some(WorkerLogMode::AllSeparate)
    } else if name == "all_combined"@ {
        Some(WorkerLogMode::AllCombined)
    } else {
        None
    }
}

impl WorkerLogMode {
    /// The log mode of a name; none for an unknown name.
    pub fn from_name(name: &str) -> (mode: Option<WorkerLogMode>)
        ensures
            mode == worker_log_mode_named(name@),
    {
        if text::same(name, "errors_only") {
            Some(WorkerLogMode::ErrorsOnly)
        } else if text::same(name, "all_separate") {
            Some(WorkerLogMode::AllSeparate)
        } else if text::same(name, "all_combined") {
            Some(WorkerLogMode::AllCombined)
        } else {
            None
        }
    }
}

} // verus!
