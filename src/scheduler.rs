//! The fan-out orchestrator's bookkeeping: which hosts have been launched,
//! how many pipelines hold a session or an agent ticket, and the outcomes in
//! the order they completed.
//!
//! A driver launches a pipeline only when `try_launch` grants a session
//! ticket, lets it authenticate through the agent only when
//! `try_acquire_agent` grants an agent ticket, and reports each finished
//! pipeline to `complete`.
use vstd::prelude::*;
use crate::outcome::Response;

verus! {

/// What the driver of a fan-out does next.
#[derive(Debug, PartialEq, Eq, Structural, Clone, Copy)]
pub enum DriverAction {
    /// Start the pipeline of host number `host`; its session ticket is granted.
    Launch { host: usize },
    /// Wait for a running pipeline to complete.
    AwaitCompletion,
    /// Every host has completed.
    Done,
}

pub struct FanOut {
    pub host_count: usize,
    /// Capacity of the session pool.
    pub max_sessions: usize,
    /// Capacity of the agent pool.
    pub max_agents: usize,
    /// Hosts launched so far; they are launched in order.
    pub launched: usize,
    /// Pipelines holding a session ticket.
    pub running: usize,
    /// Pipelines holding an agent ticket.
    pub agents_active: usize,
    /// Outcomes in completion order.
    pub outcomes: Vec<Response>,
    /// Agent tickets granted so far.
    pub agent_grants: Ghost<nat>,
    /// Agent tickets given back so far.
    pub agent_returns: Ghost<nat>,
}

impl FanOut {
    /// Session tickets granted so far: one per launched host.
    pub open spec fn session_grants(&self) -> nat {
        self.launched as nat
    }

    /// Session tickets given back so far: one per completed pipeline.
    pub open spec fn session_returns(&self) -> nat {
        self.outcomes@.len()
    }

    /// Neither pool is ever over its capacity, and every ticket granted is
    /// either held or has been given back.
    pub open spec fn wf(&self) -> bool {
        &&& self.running <= self.max_sessions
        &&& self.agents_active <= self.max_agents
        &&& self.agents_active <= self.running
        &&& self.launched <= self.host_count
        &&& self.session_grants() == self.running + self.session_returns()
        &&& self.agent_grants@ == self.agent_returns@ + self.agents_active
    }

    pub open spec fn finished(&self) -> bool {
        self.outcomes@.len() == self.host_count
    }

    /// A fan-out over `host_count` hosts with the two pool capacities.
    pub fn new(host_count: usize, max_sessions: usize, max_agents: usize) -> (f: FanOut)
        ensures
            f.wf(),
            f.host_count == host_count,
            f.max_sessions == max_sessions,
            f.max_agents == max_agents,
            f.launched == 0,
            f.running == 0,
            f.agents_active == 0,
            f.outcomes@ == Seq::<Response>::empty(),
            f.agent_grants@ == 0,
    {
        FanOut {
            host_count,
            max_sessions,
            max_agents,
            launched: 0,
            running: 0,
            agents_active: 0,
            outcomes: Vec::new(),
            agent_grants: Ghost(0),
            agent_returns: Ghost(0),
        }
    }

    /// Grants a session ticket to the next host, if one is waiting and the
    /// session pool has room, and returns that host's index.
    pub fn try_launch(&mut self) -> (r: Option<usize>)
        requires
            old(self).wf(),
        ensures
            final(self).wf(),
            r is Some <==> old(self).launched < old(self).host_count && old(self).running < old(
                self,
            ).max_sessions,
            r matches Some(i) ==> {
                &&& i == old(self).launched
                &&& final(self).launched == old(self).launched + 1
                &&& final(self).running == old(self).running + 1
            },
            r is None ==> *final(self) == *old(self),
            final(self).outcomes@ == old(self).outcomes@,
            final(self).agents_active == old(self).agents_active,
            final(self).host_count == old(self).host_count,
            final(self).max_sessions == old(self).max_sessions,
            final(self).max_agents == old(self).max_agents,
    {
        if self.launched < self.host_count && self.running < self.max_sessions {
            let i = self.launched;
            self.launched = self.launched + 1;
            self.running = self.running + 1;
            Some(i)
        } else {
            None
        }
    }

    /// Grants an agent ticket to a running pipeline, if the agent pool has
    /// room.
    pub fn try_acquire_agent(&mut self) -> (granted: bool)
        requires
            old(self).wf(),
        ensures
            final(self).wf(),
            granted <==> old(self).agents_active < old(self).max_agents && old(self).agents_active
                < old(self).running,
            final(self).agents_active == old(self).agents_active + (if granted {
                1int
            } else {
                0
            }),
            final(self).agent_grants@ == old(self).agent_grants@ + (if granted {
                1int
            } else {
                0
            }),
            final(self).agent_returns@ == old(self).agent_returns@,
            final(self).launched == old(self).launched,
            final(self).running == old(self).running,
            final(self).outcomes@ == old(self).outcomes@,
            final(self).host_count == old(self).host_count,
            final(self).max_sessions == old(self).max_sessions,
            final(self).max_agents == old(self).max_agents,
    {
        if self.agents_active < self.max_agents && self.agents_active < self.running {
            self.agents_active = self.agents_active + 1;
            self.agent_grants = Ghost(self.agent_grants@ + 1);
            true
        } else {
            false
        }
    }

    /// Takes back an agent ticket.
    pub fn release_agent(&mut self)
        requires
            old(self).wf(),
            old(self).agents_active > 0,
        ensures
            final(self).wf(),
            final(self).agents_active == old(self).agents_active - 1,
            final(self).agent_returns@ == old(self).agent_returns@ + 1,
            final(self).agent_grants@ == old(self).agent_grants@,
            final(self).launched == old(self).launched,
            final(self).running == old(self).running,
            final(self).outcomes@ == old(self).outcomes@,
            final(self).host_count == old(self).host_count,
            final(self).max_sessions == old(self).max_sessions,
            final(self).max_agents == old(self).max_agents,
    {
        self.agents_active = self.agents_active - 1;
        self.agent_returns = Ghost(self.agent_returns@ + 1);
    }

    /// Records the outcome of a pipeline that holds no agent ticket, and takes
    /// back its session ticket.
    pub fn complete(&mut self, r: Response)
        requires
            old(self).wf(),
            old(self).agents_active < old(self).running,
        ensures
            final(self).wf(),
            final(self).outcomes@ == old(self).outcomes@.push(r),
            final(self).running == old(self).running - 1,
            final(self).launched == old(self).launched,
            final(self).agents_active == old(self).agents_active,
            final(self).agent_grants == old(self).agent_grants,
            final(self).agent_returns == old(self).agent_returns,
            final(self).host_count == old(self).host_count,
            final(self).max_sessions == old(self).max_sessions,
            final(self).max_agents == old(self).max_agents,
    {
        self.outcomes.push(r);
        self.running = self.running - 1;
    }

    /// Work still owed: launches and completions yet to happen.
    pub open spec fn remaining(&self) -> nat {
        (2 * self.host_count - self.launched - self.outcomes@.len()) as nat
    }

    /// Decides the driver's next move: launch a waiting host while the session
    /// pool has room, else wait for a completion, until every host completed.
    /// With a session pool of any capacity the driver never waits on nothing.
    pub fn next_action(&mut self) -> (a: DriverAction)
        requires
            old(self).wf(),
        ensures
            final(self).wf(),
            a == DriverAction::Done <==> old(self).finished(),
            a matches DriverAction::Launch { host } ==> {
                &&& host == old(self).launched
                &&& final(self).launched == old(self).launched + 1
                &&& final(self).running == old(self).running + 1
                &&& final(self).remaining() < old(self).remaining()
            },
            !(a is Launch) ==> *final(self) == *old(self),
            a == DriverAction::AwaitCompletion && old(self).max_sessions > 0 ==> old(self).running
                > 0,
            final(self).outcomes@ == old(self).outcomes@,
            final(self).agents_active == old(self).agents_active,
            final(self).host_count == old(self).host_count,
            final(self).max_sessions == old(self).max_sessions,
            final(self).max_agents == old(self).max_agents,
    {
        if self.outcomes.len() == self.host_count {
            return DriverAction::Done;
        }
        match self.try_launch() {
            Some(host) => DriverAction::Launch { host },
            None => DriverAction::AwaitCompletion,
        }
    }

    /// Every host has completed.
    pub fn is_finished(&self) -> (b: bool)
        requires
            self.wf(),
        ensures
            b == self.finished(),
    {
        self.outcomes.len() == self.host_count
    }
}

/// A finished fan-out over N hosts launched each host once and holds exactly
/// N outcomes; both pools have taken back every ticket they granted.
pub proof fn lemma_finished_fan_out(f: FanOut)
    requires
        f.wf(),
        f.finished(),
    ensures
        f.outcomes@.len() == f.host_count,
        f.launched == f.host_count,
        f.running == 0,
        f.agents_active == 0,
        f.session_grants() == f.session_returns(),
        f.agent_grants@ == f.agent_returns@,
{
}

/// While hosts are waiting and the session pool has any capacity, a fan-out
/// with no pipeline running can always launch one: it never stalls.
pub proof fn lemma_fan_out_progress(f: FanOut)
    requires
        f.wf(),
        !f.finished(),
        f.running == 0,
        f.max_sessions > 0,
    ensures
        f.launched < f.host_count,
{
}

} // verus!
