//! The reconnect supervisor: it owns the session lifecycle, applies the
//! backoff policy between attempts, buffers outbound frames while no
//! session is live, and drains them in FIFO order when one becomes live.
//!
//! Sleeping and connecting happen outside; every decision — whether to
//! try again, how long to wait, what becomes of the queue — is a function
//! of the supervisor's state and the session's outcome.

use vstd::prelude::*;

use crate::frame::TunnelMessage;
use crate::reconnect::ReconnectManager;

verus! {

/// The unbounded FIFO buffer of frames awaiting a live session.
pub struct OutboundQueue {
    pub items: Vec<TunnelMessage>,
}

impl OutboundQueue {
    /// An empty queue.
    pub fn new() -> (r: Self)
        ensures
            r.items@.len() == 0,
    {
        OutboundQueue { items: Vec::new() }
    }

    /// Appends a frame at the tail.
    pub fn enqueue(&mut self, m: TunnelMessage)
        ensures
            final(self).items@ == old(self).items@.push(m),
    {
        self.items.push(m);
    }

    /// How many frames are waiting.
    pub fn len(&self) -> (r: usize)
        ensures
            r == self.items@.len(),
    {
        self.items.len()
    }

    /// Hands every queued frame out in enqueue order and leaves the queue
    /// empty: the drain that runs when a session becomes live.
    pub fn drain(&mut self) -> (r: Vec<TunnelMessage>)
        ensures
            r@ == old(self).items@,
            final(self).items@.len() == 0,
    {
        let mut out: Vec<TunnelMessage> = Vec::new();
        std::mem::swap(&mut out, &mut self.items);
        out
    }
}

/// Queued frames are delivered in FIFO order, and all of them precede any
/// frame produced after the session came up: on the wire the drain is a
/// strict prefix of the session's outbound traffic.
pub proof fn lemma_drain_before_new_traffic(
    drained: Seq<TunnelMessage>,
    later: Seq<TunnelMessage>,
)
    ensures
        ({
            let wire = drained + later;
            &&& forall|i: int| 0 <= i < drained.len() ==> wire[i] == drained[i]
            &&& forall|j: int|
                0 <= j < later.len() ==> wire[drained.len() + j] == later[j]
        }),
{
}

/// Where the supervisor stands in a session's lifecycle.
#[derive(Clone, Copy, Debug, PartialEq, Eq, Structural)]
pub enum SupervisorPhase {
    Idle,
    Connecting,
    Authenticating,
    Authenticated,
    Backoff,
    Terminated,
}

/// What the driver must do after a supervisor step.
pub enum StepOutcome {
    /// Begin a connection attempt; `ConnectionStatus=Connecting` goes on
    /// the bus.
    Connect,
    /// The attempt limit is reached: stop with terminal status
    /// `Disconnected`.
    Stop,
    /// Wait this many milliseconds, then try again;
    /// `ConnectionStatus=Reconnecting` goes on the bus.
    Sleep(u64),
    /// A non-recoverable failure: stop with terminal status `Error`.
    Fail,
}

/// The reconnect supervisor's state: lifecycle phase plus the backoff
/// manager.
pub struct Supervisor {
    pub phase: SupervisorPhase,
    pub manager: ReconnectManager,
}

impl Supervisor {
    pub open spec fn wf(&self) -> bool {
        self.manager.wf()
    }

    /// A fresh supervisor under a backoff policy, idle.
    pub fn new(manager: ReconnectManager) -> (r: Self)
        requires
            manager.wf(),
        ensures
            r.wf(),
            r.phase == SupervisorPhase::Idle,
            r.manager == manager,
    {
        Supervisor { phase: SupervisorPhase::Idle, manager }
    }

    /// Decides whether to open a session: connect while attempts remain,
    /// stop once the limit is reached.
    pub fn start_attempt(&mut self) -> (r: StepOutcome)
        requires
            old(self).wf(),
        ensures
            final(self).wf(),
            final(self).manager == old(self).manager,
            old(self).manager.spec_should_reconnect() ==> r is Connect && final(self).phase
                == SupervisorPhase::Connecting,
            !old(self).manager.spec_should_reconnect() ==> r is Stop && final(self).phase
                == SupervisorPhase::Terminated,
    {
        if self.manager.should_reconnect() {
            self.phase = SupervisorPhase::Connecting;
            StepOutcome::Connect
        } else {
            self.phase = SupervisorPhase::Terminated;
            StepOutcome::Stop
        }
    }

    /// Records a successful WebSocket handshake: the session is now
    /// authenticating.
    pub fn on_handshake_ok(&mut self)
        requires
            old(self).wf(),
        ensures
            final(self).wf(),
            final(self).phase == SupervisorPhase::Authenticating,
            final(self).manager == old(self).manager,
    {
        self.phase = SupervisorPhase::Authenticating;
    }

    /// Records a successful authentication: the attempt counter resets to
    /// zero before any further backoff computation.
    pub fn on_auth_success(&mut self)
        requires
            old(self).wf(),
        ensures
            final(self).wf(),
            final(self).phase == SupervisorPhase::Authenticated,
            final(self).manager.current_attempt == 0,
            final(self).manager == (ReconnectManager { current_attempt: 0, ..old(self).manager }),
    {
        self.phase = SupervisorPhase::Authenticated;
        self.manager.reset();
    }

    /// Handles the end of a session or attempt. A non-recoverable failure
    /// terminates; a recoverable one backs off under the policy, or stops
    /// once the attempt limit is reached.
    pub fn on_session_end(&mut self, recoverable: bool, entropy: u64) -> (r: StepOutcome)
        requires
            old(self).wf(),
        ensures
            final(self).wf(),
            !recoverable ==> r is Fail && final(self).phase == SupervisorPhase::Terminated
                && final(self).manager == old(self).manager,
            recoverable && !old(self).manager.spec_should_reconnect() ==> ({
                &&& r is Stop
                &&& final(self).phase == SupervisorPhase::Terminated
                &&& final(self).manager == old(self).manager
            }),
            recoverable && old(self).manager.spec_should_reconnect() ==> ({
                &&& final(self).phase == SupervisorPhase::Backoff
                &&& r matches StepOutcome::Sleep(d)
                &&& !old(self).manager.jitter ==> d as int == old(self).manager.spec_delay(
                    old(self).manager.current_attempt as nat,
                )
                &&& old(self).manager.jitter ==> d as int
                    == crate::reconnect::spec_jittered_delay(
                    old(self).manager.spec_delay(old(self).manager.current_attempt as nat),
                    entropy,
                )
                &&& final(self).manager.current_attempt as int == vstd::math::min(
                    old(self).manager.current_attempt as int + 1,
                    u32::MAX as int,
                )
            }),
    {
        if !recoverable {
            self.phase = SupervisorPhase::Terminated;
            return StepOutcome::Fail;
        }
        if !self.manager.should_reconnect() {
            self.phase = SupervisorPhase::Terminated;
            return StepOutcome::Stop;
        }
        let d = self.manager.next_delay_from_entropy(entropy);
        self.phase = SupervisorPhase::Backoff;
        StepOutcome::Sleep(d)
    }
}

/// After a successful authenticated session, the attempt counter is zero,
/// so the next backoff computed (jitter off) restarts the schedule at
/// `min(max_delay, base_delay)`.
pub proof fn lemma_auth_success_resets_backoff(s: Supervisor)
    requires
        s.wf(),
        s.manager.current_attempt == 0,
    ensures
        s.manager.spec_delay(s.manager.current_attempt as nat) == vstd::math::min(
            s.manager.max_delay_ms as int,
            s.manager.base_delay_ms as int,
        ),
{
    crate::reconnect::lemma_reset_restarts_schedule(s.manager);
}

} // verus!
