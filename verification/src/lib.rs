//! A health-aware dispatcher over a pool of chat-completion agents.
//!
//! The pool keeps one entry per configured agent: its identity (id, provider,
//! model) and a consecutive-failure counter with a per-entry ceiling.  A
//! dispatch round selects a valid entry uniformly at random, the caller runs
//! the network call outside the pool lock, and the outcome is recorded back
//! into the entry's counter.  An entry whose counter reaches its ceiling is
//! invalid and is never selected again until the counters are reset.

use vstd::prelude::*;

pub mod bigmodel;
pub mod datetime_tool;
pub mod error;
pub mod get_openrouter_model_list;
pub mod github_trending_tool;
pub mod rand_agent;
pub mod retry;
pub mod serpapi_tool;
pub mod simple_rand_builder;
pub mod text;

verus! {

/// Snapshot of one agent's identity and health counters.
#[derive(Debug)]
pub struct AgentInfo {
    pub id: i32,
    /// Provider label, e.g. "bigmodel" or "openai".
    pub provider: String,
    /// Model name, e.g. "glm-4-flash".
    pub model: String,
    /// Consecutive failures since the last success or reset.
    pub failure_count: u32,
    /// Ceiling: the entry is invalid once `failure_count` reaches it.
    pub max_failures: u32,
}

impl AgentInfo {
    /// An entry is valid while its counter is strictly below the ceiling.
    pub open spec fn spec_is_valid(&self) -> bool {
        self.failure_count < self.max_failures
    }

    /// The counter never passes the ceiling.
    pub open spec fn wf(&self) -> bool {
        self.failure_count <= self.max_failures
    }

    pub fn is_valid(&self) -> (r: bool)
        ensures
            r == self.spec_is_valid(),
    {
        self.failure_count < self.max_failures
    }
}

impl Clone for AgentInfo {
    fn clone(&self) -> (r: Self)
        ensures
            r == *self,
    {
        AgentInfo {
            id: self.id,
            provider: self.provider.clone(),
            model: self.model.clone(),
            failure_count: self.failure_count,
            max_failures: self.max_failures,
        }
    }
}

} // verus!
