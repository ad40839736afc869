//! A counter of running sub-agents with a concurrency limit.
use vstd::prelude::*;

verus! {

/// How many sub-agents run, and how many may.
#[derive(Debug)]
pub struct AgentManager {
    max_concurrent: usize,
    active_count: usize,
}

impl AgentManager {
    /// The limit.
    pub closed spec fn spec_max(&self) -> nat {
        self.max_concurrent as nat
    }

    /// Agents running.
    pub closed spec fn spec_active(&self) -> nat {
        self.active_count as nat
    }

    /// A manager allowing `max_concurrent` agents, none running.
    pub fn new(max_concurrent: usize) -> (r: Self)
        ensures
            r.spec_max() == max_concurrent,
            r.spec_active() == 0,
    {
        AgentManager { max_concurrent, active_count: 0 }
    }

    /// Whether another agent may start.
    pub fn can_spawn(&self) -> (r: bool)
        ensures
            r == (self.spec_active() < self.spec_max()),
    {
        self.active_count < self.max_concurrent
    }

    /// Agents running.
    pub fn active_count(&self) -> (r: usize)
        ensures
            r == self.spec_active(),
    {
        self.active_count
    }

    /// Counts a started agent.
    pub fn mark_spawned(&mut self)
        requires
            old(self).spec_active() < usize::MAX,
        ensures
            final(self).spec_active() == old(self).spec_active() + 1,
            final(self).spec_max() == old(self).spec_max(),
    {
        self.active_count = self.active_count + 1;
    }

    /// Counts a finished agent; never below zero.
    pub fn mark_completed(&mut self)
        ensures
            final(self).spec_active() == if old(self).spec_active() > 0 {
                old(self).spec_active() - 1
            } else {
                0
            },
            final(self).spec_max() == old(self).spec_max(),
    {
        self.active_count = self.active_count.saturating_sub(1);
    }
}

impl Default for AgentManager {
    /// A manager allowing four agents.
    fn default() -> (r: Self)
        ensures
            r.spec_max() == 4,
            r.spec_active() == 0,
    {
        AgentManager::new(4)
    }
}

} // verus!
