//! Which model serves which kind of process.
use crate::string_map;
use crate::string_map::StringMap;
use vstd::prelude::*;

verus! {

/// The models of an agent's processes, what to fall back on, and how hard each
/// process thinks.
#[derive(Debug, PartialEq, Eq)]
pub struct RoutingConfig {
    pub channel: String,
    pub branch: String,
    pub worker: String,
    pub compactor: String,
    pub cortex: String,
    pub voice: String,
    pub task_overrides: StringMap<String>,
    pub fallbacks: StringMap<Vec<String>>,
    pub rate_limit_cooldown_secs: u64,
    pub channel_thinking_effort: String,
    pub branch_thinking_effort: String,
    pub worker_thinking_effort: String,
    pub compactor_thinking_effort: String,
    pub cortex_thinking_effort: String,
}

/// The view of a [`RoutingConfig`].
#[verifier::ext_equal]
pub struct RoutingView {
    pub channel: Seq<char>,
    pub branch: Seq<char>,
    pub worker: Seq<char>,
    pub compactor: Seq<char>,
    pub cortex: Seq<char>,
    pub voice: Seq<char>,
    pub task_overrides: Map<Seq<char>, String>,
    pub fallbacks: Map<Seq<char>, Seq<String>>,
    pub rate_limit_cooldown_secs: u64,
    pub channel_thinking_effort: Seq<char>,
    pub branch_thinking_effort: Seq<char>,
    pub worker_thinking_effort: Seq<char>,
    pub compactor_thinking_effort: Seq<char>,
    pub cortex_thinking_effort: Seq<char>,
}

impl View for RoutingConfig {
    type V = RoutingView;

    open spec fn view(&self) -> RoutingView {
        RoutingView {
            channel: self.channel@,
            branch: self.branch@,
            worker: self.worker@,
            compactor: self.compactor@,
            cortex: self.cortex@,
            voice: self.voice@,
            task_overrides: self.task_overrides@,
            fallbacks: string_map::list_views(self.fallbacks@),
            rate_limit_cooldown_secs: self.rate_limit_cooldown_secs,
            channel_thinking_effort: self.channel_thinking_effort@,
            branch_thinking_effort: self.branch_thinking_effort@,
            worker_thinking_effort: self.worker_thinking_effort@,
            compactor_thinking_effort: self.compactor_thinking_effort@,
            cortex_thinking_effort: self.cortex_thinking_effort@,
        }
    }
}

/// The view of an optional routing.
pub open spec fn routing_view(routing: Option<RoutingConfig>) -> Option<RoutingView> {
    match routing {
        Some(r) => Some(r@),
        None => None,
    }
}

impl RoutingConfig {
    /// The same routing again.
    pub fn duplicate(&self) -> (copy: RoutingConfig)
        ensures
            copy@ == self@,
    {
        RoutingConfig {
            channel: self.channel.clone(),
            branch: self.branch.clone(),
            worker: self.worker.clone(),
            compactor: self.compactor.clone(),
            cortex: self.cortex.clone(),
            voice: self.voice.clone(),
            task_overrides: self.task_overrides.duplicate(),
            fallbacks: self.fallbacks.duplicate_lists(),
            rate_limit_cooldown_secs: self.rate_limit_cooldown_secs,
            channel_thinking_effort: self.channel_thinking_effort.clone(),
            branch_thinking_effort: self.branch_thinking_effort.clone(),
            worker_thinking_effort: self.worker_thinking_effort.clone(),
            compactor_thinking_effort: self.compactor_thinking_effort.clone(),
            cortex_thinking_effort: self.cortex_thinking_effort.clone(),
        }
    }
}

} // verus!
