use vstd::prelude::*;

verus! {

/// What a failed accept does to the loop.
#[derive(Clone, Copy, Debug, PartialEq, Eq, Structural)]
pub enum AcceptPolicy {
    /// Log the failure and accept the next connection.
    Continue,
    /// Stop the loop: the failure is fatal.
    Stop,
}

impl Default for AcceptPolicy {
    /// One bad accept should not take down every other connection.
    fn default() -> (r: AcceptPolicy)
        ensures
            r == AcceptPolicy::Continue,
    {
        AcceptPolicy::Continue
    }
}

/// Why the accept loop stopped.
#[derive(Clone, Copy, Debug, PartialEq, Eq, Structural)]
pub enum Fatal {
    /// The listen address could not be bound.
    Bind,
    /// Accepting a connection failed under `AcceptPolicy::Stop`.
    Accept,
}

/// Where the accept loop stands.
#[derive(Clone, Copy, Debug, PartialEq, Eq, Structural)]
pub enum LoopPhase {
    /// The listen address is still to be bound.
    Binding,
    /// Accepting connections.
    Listening,
    /// Stopped for good.
    Failed(Fatal),
}

/// What the accept loop asks its driver to do next.
#[derive(Clone, Copy, Debug, PartialEq, Eq, Structural)]
pub enum LoopAction {
    /// Bind the listen address.
    Bind,
    /// Accept the next inbound connection.
    Accept,
    /// Hand the connection just accepted to a new, detached task, which
    /// connects to the target and relays; then accept the next one.
    Spawn,
    /// Stop the process with this error.
    Stop(Fatal),
}

/// A report to the accept loop. The outcome of connecting to the target and
/// of relaying belongs to the spawned task and is never one of these.
#[derive(Clone, Copy, Debug, PartialEq, Eq, Structural)]
pub enum LoopEvent {
    Bound,
    BindFailed,
    Accepted,
    AcceptFailed,
}

/// The state after event `e` under `policy`; an event that does not fit the
/// phase changes nothing.
pub open spec fn loop_next(p: LoopPhase, policy: AcceptPolicy, e: LoopEvent) -> LoopPhase {
    match (p, e) {
        (LoopPhase::Binding, LoopEvent::Bound) => LoopPhase::Listening,
        (LoopPhase::Binding, LoopEvent::BindFailed) => LoopPhase::Failed(Fatal::Bind),
        (LoopPhase::Listening, LoopEvent::AcceptFailed) => if policy == AcceptPolicy::Stop {
            LoopPhase::Failed(Fatal::Accept)
        } else {
            LoopPhase::Listening
        },
        _ => p,
    }
}

/// The action the loop takes right after event `e` moved it to phase `p`.
pub open spec fn loop_action(p: LoopPhase, e: LoopEvent) -> LoopAction {
    match p {
        LoopPhase::Binding => LoopAction::Bind,
        LoopPhase::Listening => if e == LoopEvent::Accepted {
            LoopAction::Spawn
        } else {
            LoopAction::Accept
        },
        LoopPhase::Failed(f) => LoopAction::Stop(f),
    }
}

/// The phase after the events of `evs`, in order.
pub open spec fn loop_run(p: LoopPhase, policy: AcceptPolicy, evs: Seq<LoopEvent>) -> LoopPhase
    decreases evs.len(),
{
    if evs.len() == 0 {
        p
    } else {
        loop_next(loop_run(p, policy, evs.drop_last()), policy, evs.last())
    }
}

/// Isolation of connections: once listening, a loop that keeps failed
/// accepts non-fatal keeps listening whatever it accepts or fails to accept,
/// and whatever becomes of each accepted connection, since the fate of a
/// connection (a target that cannot be reached, a relay that fails) is no
/// input to it.
pub proof fn lemma_keeps_listening(evs: Seq<LoopEvent>)
    requires
        forall|i: int| 0 <= i < evs.len() ==> (evs[i] == LoopEvent::Accepted || evs[i]
            == LoopEvent::AcceptFailed),
    ensures
        loop_run(LoopPhase::Listening, AcceptPolicy::Continue, evs) == LoopPhase::Listening,
    decreases evs.len(),
{
    if evs.len() > 0 {
        lemma_keeps_listening(evs.drop_last());
    }
}

/// The accept loop of the relay: binds once, then accepts connections and
/// hands each to a task of its own, without waiting for it.
pub struct AcceptLoop {
    phase: LoopPhase,
    policy: AcceptPolicy,
}

impl AcceptLoop {
    pub closed spec fn phase_spec(&self) -> LoopPhase {
        self.phase
    }

    pub closed spec fn policy_spec(&self) -> AcceptPolicy {
        self.policy
    }

    /// A loop that has not bound its address yet.
    pub fn new(policy: AcceptPolicy) -> (r: AcceptLoop)
        ensures
            r.phase_spec() == LoopPhase::Binding,
            r.policy_spec() == policy,
    {
        AcceptLoop { phase: LoopPhase::Binding, policy }
    }

    pub fn phase(&self) -> (r: LoopPhase)
        ensures
            r == self.phase_spec(),
    {
        self.phase
    }

    pub fn policy(&self) -> (r: AcceptPolicy)
        ensures
            r == self.policy_spec(),
    {
        self.policy
    }

    /// Records a report and says what to do next.
    pub fn on_event(&mut self, e: LoopEvent) -> (r: LoopAction)
        ensures
            final(self).policy_spec() == old(self).policy_spec(),
            final(self).phase_spec() == loop_next(old(self).phase_spec(), old(self).policy_spec(), e),
            r == loop_action(final(self).phase_spec(), e),
    {
        let p = match (self.phase, e) {
            (LoopPhase::Binding, LoopEvent::Bound) => LoopPhase::Listening,
            (LoopPhase::Binding, LoopEvent::BindFailed) => LoopPhase::Failed(Fatal::Bind),
            (LoopPhase::Listening, LoopEvent::AcceptFailed) => match self.policy {
                AcceptPolicy::Stop => LoopPhase::Failed(Fatal::Accept),
                AcceptPolicy::Continue => LoopPhase::Listening,
            },
            (p, _) => p,
        };
        self.phase = p;
        match p {
            LoopPhase::Binding => LoopAction::Bind,
            LoopPhase::Listening => match e {
                LoopEvent::Accepted => LoopAction::Spawn,
                _ => LoopAction::Accept,
            },
            LoopPhase::Failed(f) => LoopAction::Stop(f),
        }
    }
}

} // verus!
