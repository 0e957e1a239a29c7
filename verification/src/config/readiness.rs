//! Whether an agent is warm enough to be given work.
use crate::config::settings::WarmupConfig;
use vstd::prelude::*;

verus! {

/// Current warmup lifecycle state.
#[derive(Debug, Clone, Copy, PartialEq, Eq, Structural)]
pub enum WarmupState {
    Cold,
    Warming,
    Warm,
    Degraded,
}

/// Warmup runtime status snapshot for API and observability.
#[derive(Debug, PartialEq, Eq)]
pub struct WarmupStatus {
    pub state: WarmupState,
    pub embedding_ready: bool,
    pub last_refresh_unix_ms: Option<i64>,
    pub last_error: Option<String>,
    pub bulletin_age_secs: Option<u64>,
}

impl Default for WarmupStatus {
    fn default() -> (status: WarmupStatus)
        ensures
            status == (WarmupStatus {
                state: WarmupState::Cold,
                embedding_ready: false,
                last_refresh_unix_ms: None,
                last_error: None,
                bulletin_age_secs: None,
            }),
    {
        WarmupStatus {
            state: WarmupState::Cold,
            embedding_ready: false,
            last_refresh_unix_ms: None,
            last_error: None,
            bulletin_age_secs: None,
        }
    }
}

/// Why `ready_for_work` is currently false.
#[derive(Debug, Clone, Copy, PartialEq, Eq, Structural)]
pub enum WorkReadinessReason {
    StateNotWarm,
    EmbeddingNotReady,
    BulletinMissing,
    BulletinStale,
}

impl WorkReadinessReason {
    /// The name of the reason.
    pub open spec fn name(self) -> Seq<char> {
        match self {
            WorkReadinessReason::StateNotWarm => "state_not_warm"@,
            WorkReadinessReason::EmbeddingNotReady => "embedding_not_ready"@,
            WorkReadinessReason::BulletinMissing => "bulletin_missing"@,
            WorkReadinessReason::BulletinStale => "bulletin_stale"@,
        }
    }

    /// The name of the reason.
    pub fn as_str(self) -> (name: &'static str)
        ensures
            name@ == self.name(),
    {
        match self {
            WorkReadinessReason::StateNotWarm => "state_not_warm",
            WorkReadinessReason::EmbeddingNotReady => "embedding_not_ready",
            WorkReadinessReason::BulletinMissing => "bulletin_missing",
            WorkReadinessReason::BulletinStale => "bulletin_stale",
        }
    }
}

/// Derived readiness signal used to gate dispatch behavior.
#[derive(Debug, Clone, Copy, PartialEq, Eq, Structural)]
pub struct WorkReadiness {
    pub ready: bool,
    pub reason: Option<WorkReadinessReason>,
    pub warmup_state: WarmupState,
    pub embedding_ready: bool,
    pub bulletin_age_secs: Option<u64>,
    pub stale_after_secs: u64,
}

/// The age from which a bulletin is stale: twice the refresh interval, at least a
/// minute, and at most what a `u64` holds.
pub open spec fn stale_after(refresh_secs: u64) -> u64 {
    let doubled = if refresh_secs == 0 {
        2
    } else {
        refresh_secs * 2
    };
    if doubled > u64::MAX {
        u64::MAX
    } else if doubled < 60 {
        60
    } else {
        doubled as u64
    }
}

/// The age of the bulletin in whole seconds: since the last refresh where there was
/// one, else as reported. A refresh in the future has age zero.
pub open spec fn bulletin_age(status: WarmupStatus, now_unix_ms: i64) -> Option<u64> {
    match status.last_refresh_unix_ms {
        Some(refresh_ms) => Some(
            if now_unix_ms > refresh_ms {
                ((now_unix_ms - refresh_ms) / 1000) as u64
            } else {
                0
            },
        ),
        None => status.bulletin_age_secs,
    }
}

/// The first reason that keeps the agent from work.
pub open spec fn first_reason(
    warmup_config: WarmupConfig,
    status: WarmupStatus,
    now_unix_ms: i64,
) -> Option<WorkReadinessReason> {
    if status.state != WarmupState::Warm {
        Some(WorkReadinessReason::StateNotWarm)
    } else if warmup_config.eager_embedding_load && !status.embedding_ready {
        Some(WorkReadinessReason::EmbeddingNotReady)
    } else {
        match bulletin_age(status, now_unix_ms) {
            None => Some(WorkReadinessReason::BulletinMissing),
            Some(age) => if age > stale_after(warmup_config.refresh_secs) {
                Some(WorkReadinessReason::BulletinStale)
            } else {
                None
            },
        }
    }
}

/// Derives the readiness signal at a moment.
pub fn evaluate_work_readiness(
    warmup_config: WarmupConfig,
    status: WarmupStatus,
    now_unix_ms: i64,
) -> (readiness: WorkReadiness)
    requires
        status.last_refresh_unix_ms matches Some(refresh_ms) ==> now_unix_ms - refresh_ms
            <= i64::MAX,
    ensures
        readiness == (WorkReadiness {
            ready: first_reason(warmup_config, status, now_unix_ms) is None,
            reason: first_reason(warmup_config, status, now_unix_ms),
            warmup_state: status.state,
            embedding_ready: status.embedding_ready,
            bulletin_age_secs: bulletin_age(status, now_unix_ms),
            stale_after_secs: stale_after(warmup_config.refresh_secs),
        }),
{
    let interval: u64 = if warmup_config.refresh_secs == 0 {
        1
    } else {
        warmup_config.refresh_secs
    };
    let doubled: u64 = match interval.checked_mul(2) {
        Some(n) => n,
        None => u64::MAX,
    };
    let stale_after_secs: u64 = if doubled < 60 {
        60
    } else {
        doubled
    };
    let bulletin_age_secs: Option<u64> = match status.last_refresh_unix_ms {
        Some(refresh_ms) => if now_unix_ms > refresh_ms {
            Some(((now_unix_ms - refresh_ms) / 1000) as u64)
        } else {
            Some(0)
        },
        None => status.bulletin_age_secs,
    };
    let reason = if status.state != WarmupState::Warm {
        Some(WorkReadinessReason::StateNotWarm)
    } else if warmup_config.eager_embedding_load && !status.embedding_ready {
        Some(WorkReadinessReason::EmbeddingNotReady)
    } else {
        match bulletin_age_secs {
            None => Some(WorkReadinessReason::BulletinMissing),
            Some(age) => if age > stale_after_secs {
                Some(WorkReadinessReason::BulletinStale)
            } else {
                None
            },
        }
    };
    WorkReadiness {
        ready: reason.is_none(),
        reason,
        warmup_state: status.state,
        embedding_ready: status.embedding_ready,
        bulletin_age_secs,
        stale_after_secs,
    }
}

/// An agent is ready exactly where it is warm, its embeddings are loaded or need not
/// be, and it has a bulletin that is not stale.
pub proof fn law_ready_means_warm_loaded_and_fresh(
    warmup_config: WarmupConfig,
    status: WarmupStatus,
    now_unix_ms: i64,
)
    ensures
        first_reason(warmup_config, status, now_unix_ms) is None <==> {
            &&& status.state == WarmupState::Warm
            &&& warmup_config.eager_embedding_load ==> status.embedding_ready
            &&& bulletin_age(status, now_unix_ms) matches Some(age) && age <= stale_after(
                warmup_config.refresh_secs,
            )
        },
{
}

/// A bulletin does not go stale within a minute, nor before a refresh is overdue by
/// the length of one interval.
pub proof fn law_stale_bound(refresh_secs: u64)
    ensures
        stale_after(refresh_secs) >= 60,
        stale_after(refresh_secs) >= refresh_secs,
{
}

} // verus!
