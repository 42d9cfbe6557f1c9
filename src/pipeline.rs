//! The session pipeline of one host as a state machine.
//!
//! The pipeline decides; its driver performs. The driver asks `current_step`
//! what to do, performs that step, and hands `advance` whether it succeeded.
//! `advance` answers with the tickets to give back and what comes next. The
//! session ticket is held from its acquisition to the end, the agent ticket
//! only from its acquisition through agent authentication.
use vstd::prelude::*;
use vstd::string::*;

verus! {

/// The steps of a pipeline, in the order they run.
#[derive(Debug, PartialEq, Eq, Structural, Clone, Copy)]
pub enum Step {
    AcquireSessionTicket,
    Resolve,
    Connect,
    InitSession,
    Handshake,
    AcquireAgentTicket,
    ConnectAgent,
    AuthenticateAgent,
    OpenChannel,
    Execute,
    ReadOutput,
}

/// Where a pipeline stands.
#[derive(Debug, PartialEq, Eq, Structural, Clone, Copy)]
pub enum Phase {
    Running(Step),
    Succeeded,
    /// Ended by the failure of this step.
    Failed(Step),
}

/// What the driver does after a step.
#[derive(Debug, PartialEq, Eq, Structural, Clone, Copy)]
pub struct Directive {
    pub release_agent_ticket: bool,
    pub release_session_ticket: bool,
    /// The step to perform next; `None` once the pipeline has ended.
    pub next: Option<Step>,
}

/// Limits and timeouts of one fan-out, fixed while it runs.
#[derive(Debug, PartialEq, Eq, Structural, Clone, Copy)]
pub struct ParallelSshProps {
    /// Pipelines that may hold a session ticket at once.
    pub maximum_connections: usize,
    /// Pipelines that may hold an agent ticket at once.
    pub agent_parallelism: usize,
    /// Bound on the socket connection, in milliseconds.
    pub timeout_socket: u64,
    /// Bound on every protocol operation of a session, in milliseconds.
    pub timeout_ssh: u64,
}

impl ParallelSshProps {
    /// One session and one agent authentication at a time, a one-second
    /// connect timeout and a ten-minute session timeout.
    pub fn new() -> (r: ParallelSshProps)
        ensures
            r.maximum_connections == 1,
            r.agent_parallelism == 1,
            r.timeout_socket == 1000,
            r.timeout_ssh == 600_000,
    {
        ParallelSshProps {
            maximum_connections: 1,
            agent_parallelism: 1,
            timeout_socket: 1000,
            timeout_ssh: 600_000,
        }
    }
}

/// Position of a step in the pipeline.
pub open spec fn rank(s: Step) -> nat {
    match s {
        Step::AcquireSessionTicket => 0,
        Step::Resolve => 1,
        Step::Connect => 2,
        Step::InitSession => 3,
        Step::Handshake => 4,
        Step::AcquireAgentTicket => 5,
        Step::ConnectAgent => 6,
        Step::AuthenticateAgent => 7,
        Step::OpenChannel => 8,
        Step::Execute => 9,
        Step::ReadOutput => 10,
    }
}

/// The session ticket is held while this step runs.
pub open spec fn holds_session(s: Step) -> bool {
    rank(s) > rank(Step::AcquireSessionTicket)
}

/// The agent ticket is held while this step runs.
pub open spec fn holds_agent(s: Step) -> bool {
    s == Step::ConnectAgent || s == Step::AuthenticateAgent
}

/// The step after `s`, if any.
pub fn following(s: Step) -> (r: Option<Step>)
    ensures
        s == Step::ReadOutput <==> r is None,
        r matches Some(t) ==> rank(t) == rank(s) + 1,
{
    match s {
        Step::AcquireSessionTicket => Some(Step::Resolve),
        Step::Resolve => Some(Step::Connect),
        Step::Connect => Some(Step::InitSession),
        Step::InitSession => Some(Step::Handshake),
        Step::Handshake => Some(Step::AcquireAgentTicket),
        Step::AcquireAgentTicket => Some(Step::ConnectAgent),
        Step::ConnectAgent => Some(Step::AuthenticateAgent),
        Step::AuthenticateAgent => Some(Step::OpenChannel),
        Step::OpenChannel => Some(Step::Execute),
        Step::Execute => Some(Step::ReadOutput),
        Step::ReadOutput => None,
    }
}

/// The time bound of a step in milliseconds, if it has one: the socket
/// timeout for the connection, and the one session timeout for every protocol
/// operation after the session is created.
pub fn step_timeout(props: &ParallelSshProps, s: Step) -> (r: Option<u64>)
    ensures
        s == Step::Connect ==> r == Some(props.timeout_socket),
        rank(s) > rank(Step::InitSession) && s != Step::AcquireAgentTicket ==> r == Some(
            props.timeout_ssh,
        ),
        rank(s) < rank(Step::Connect) || s == Step::InitSession || s == Step::AcquireAgentTicket
            ==> r is None,
{
    match s {
        Step::Connect => Some(props.timeout_socket),
        Step::AcquireSessionTicket | Step::Resolve | Step::InitSession
        | Step::AcquireAgentTicket => None,
        _ => Some(props.timeout_ssh),
    }
}

/// The tag that a failure of step `s` carries.
pub open spec fn failure_tag(s: Step) -> Seq<char> {
    match s {
        Step::AcquireSessionTicket => "Failed acquiring session ticket: "@,
        Step::Resolve => "Failed converting address: "@,
        Step::Connect => "Failed connecting: "@,
        Step::InitSession => "Error initializing session: "@,
        Step::Handshake => "Failed establishing handshake: "@,
        Step::AcquireAgentTicket => "Failed acquiring agent ticket: "@,
        Step::ConnectAgent => "Failed connecting to agent: "@,
        Step::AuthenticateAgent => "Error connecting via agent: "@,
        Step::OpenChannel => "Failed opening channel: "@,
        Step::Execute => "Failed executing command in channel: "@,
        Step::ReadOutput => "Error reading result of work: "@,
    }
}

/// The message of a failure of step `s` whose upstream description is `detail`.
pub fn failure_message(s: Step, detail: &str) -> (r: String)
    ensures
        r@ == failure_tag(s) + detail@,
{
    let tag = match s {
        Step::AcquireSessionTicket => "Failed acquiring session ticket: ",
        Step::Resolve => "Failed converting address: ",
        Step::Connect => "Failed connecting: ",
        Step::InitSession => "Error initializing session: ",
        Step::Handshake => "Failed establishing handshake: ",
        Step::AcquireAgentTicket => "Failed acquiring agent ticket: ",
        Step::ConnectAgent => "Failed connecting to agent: ",
        Step::AuthenticateAgent => "Error connecting via agent: ",
        Step::OpenChannel => "Failed opening channel: ",
        Step::Execute => "Failed executing command in channel: ",
        Step::ReadOutput => "Error reading result of work: ",
    };
    String::from_str(tag).concat(detail)
}

/// One host's pipeline, with a count of the tickets it took and gave back.
pub struct Pipeline {
    pub phase: Phase,
    pub session_acquired: u8,
    pub session_released: u8,
    pub agent_acquired: u8,
    pub agent_released: u8,
}

impl Pipeline {
    pub open spec fn session_held(&self) -> bool {
        self.session_acquired > self.session_released
    }

    pub open spec fn agent_held(&self) -> bool {
        self.agent_acquired > self.agent_released
    }

    pub open spec fn is_done(&self) -> bool {
        !(self.phase is Running)
    }

    /// Each ticket is taken at most once and given back at most once, and a
    /// ticket is held exactly while a step that needs it runs.
    pub open spec fn wf(&self) -> bool {
        &&& self.session_released <= self.session_acquired <= 1
        &&& self.agent_released <= self.agent_acquired <= 1
        &&& match self.phase {
            Phase::Running(s) => {
                &&& self.session_held() == holds_session(s)
                &&& self.agent_held() == holds_agent(s)
                &&& (self.agent_acquired == 1 <==> rank(s) > rank(Step::AcquireAgentTicket))
                &&& (self.session_acquired == 1 <==> rank(s) > rank(Step::AcquireSessionTicket))
            },
            _ => !self.session_held() && !self.agent_held(),
        }
    }

    /// A pipeline about to ask for its session ticket.
    pub fn new() -> (p: Pipeline)
        ensures
            p.wf(),
            p.phase == Phase::Running(Step::AcquireSessionTicket),
            p.session_acquired == 0 && p.agent_acquired == 0,
    {
        Pipeline {
            phase: Phase::Running(Step::AcquireSessionTicket),
            session_acquired: 0,
            session_released: 0,
            agent_acquired: 0,
            agent_released: 0,
        }
    }

    /// The step to perform now, if the pipeline has not ended.
    pub fn current_step(&self) -> (r: Option<Step>)
        ensures
            r is None <==> self.is_done(),
            r matches Some(s) ==> self.phase == Phase::Running(s),
    {
        match self.phase {
            Phase::Running(s) => Some(s),
            _ => None,
        }
    }

    /// Takes the result of the current step. On success the pipeline moves to
    /// the next step, taking the ticket that the step acquired and giving back
    /// the agent ticket after authentication; on failure it ends, giving back
    /// every ticket it holds.
    pub fn advance(&mut self, ok: bool) -> (d: Directive)
        requires
            old(self).wf(),
            !old(self).is_done(),
        ensures
            final(self).wf(),
            old(self).phase matches Phase::Running(s) && {
                &&& ok && s != Step::ReadOutput ==> final(self).phase == Phase::Running(
                    following_spec(s),
                ) && d.next == Some(following_spec(s))
                &&& ok && s == Step::ReadOutput ==> final(self).phase == Phase::Succeeded
                &&& !ok ==> final(self).phase == Phase::Failed(s)
                &&& d.release_session_ticket == (old(self).session_held() && (!ok || s
                    == Step::ReadOutput))
                &&& d.release_agent_ticket == (old(self).agent_held() && (!ok || s
                    == Step::AuthenticateAgent))
            },
            final(self).is_done() <==> d.next is None,
            final(self).session_acquired == old(self).session_acquired + (if ok && old(
                self,
            ).phase == Phase::Running(Step::AcquireSessionTicket) {
                1int
            } else {
                0
            }),
            final(self).agent_acquired == old(self).agent_acquired + (if ok && old(self).phase
                == Phase::Running(Step::AcquireAgentTicket) {
                1int
            } else {
                0
            }),
            final(self).session_released == old(self).session_released + (if d.release_session_ticket {
                1int
            } else {
                0
            }),
            final(self).agent_released == old(self).agent_released + (if d.release_agent_ticket {
                1int
            } else {
                0
            }),
    {
        let s = match self.phase {
            Phase::Running(s) => s,
            _ => Step::ReadOutput,
        };
        if !ok {
            let release_session = self.session_acquired > self.session_released;
            let release_agent = self.agent_acquired > self.agent_released;
            if release_session {
                self.session_released = self.session_released + 1;
            }
            if release_agent {
                self.agent_released = self.agent_released + 1;
            }
            self.phase = Phase::Failed(s);
            return Directive {
                release_agent_ticket: release_agent,
                release_session_ticket: release_session,
                next: None,
            };
        }
        if s == Step::AcquireSessionTicket {
            self.session_acquired = 1;
        }
        if s == Step::AcquireAgentTicket {
            self.agent_acquired = 1;
        }
        let release_agent = s == Step::AuthenticateAgent;
        if release_agent {
            self.agent_released = self.agent_released + 1;
        }
        match following(s) {
            Some(t) => {
                self.phase = Phase::Running(t);
                Directive {
                    release_agent_ticket: release_agent,
                    release_session_ticket: false,
                    next: Some(t),
                }
            },
            None => {
                self.session_released = self.session_released + 1;
                self.phase = Phase::Succeeded;
                Directive {
                    release_agent_ticket: release_agent,
                    release_session_ticket: true,
                    next: None,
                }
            },
        }
    }
}

/// The step after `s`; `ReadOutput` has none and maps to itself.
pub open spec fn following_spec(s: Step) -> Step {
    match s {
        Step::AcquireSessionTicket => Step::Resolve,
        Step::Resolve => Step::Connect,
        Step::Connect => Step::InitSession,
        Step::InitSession => Step::Handshake,
        Step::Handshake => Step::AcquireAgentTicket,
        Step::AcquireAgentTicket => Step::ConnectAgent,
        Step::ConnectAgent => Step::AuthenticateAgent,
        Step::AuthenticateAgent => Step::OpenChannel,
        Step::OpenChannel => Step::Execute,
        Step::Execute => Step::ReadOutput,
        Step::ReadOutput => Step::ReadOutput,
    }
}

/// Once a pipeline has ended, by success or by the failure of any step, every
/// ticket it took has been given back exactly once, and it ended in exactly
/// one of success and failure.
pub proof fn lemma_ended_pipeline_balanced(p: Pipeline)
    requires
        p.wf(),
        p.is_done(),
    ensures
        p.session_acquired == p.session_released,
        p.agent_acquired == p.agent_released,
        p.phase is Succeeded != p.phase is Failed,
{
}

} // verus!
