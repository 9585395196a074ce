//! The graceful-shutdown escalation protocol.
//!
//! Given a running child and a timeout, the coordinator terminates the
//! child without blocking the control loop and emits exactly one completion
//! notification, whatever happens: terminate first, force-kill once the
//! timeout has elapsed, and treat every probing error as "already gone".
//!
//! The embedding program runs the protocol on its own execution unit: it
//! sends the signals, sleeps between probes, and calls `try_wait` on the
//! child; this module decides, from each probe outcome and the clock, what
//! to do next. A completion notification is owed exactly when a step hands
//! back `Complete` or `ForceKill`, and each run hands back exactly one of
//! those, after which the coordinator is `Done` and accepts no further
//! probes.

use vstd::prelude::*;

verus! {

/// The shutdown timeout the supervisor uses, in milliseconds: once it has
/// elapsed since the terminate signal, the child is force-killed.
pub const SHUTDOWN_TIMEOUT_MS: u64 = 5000;

/// Where one shutdown run stands.
#[derive(Debug, Clone, Copy, PartialEq, Eq, Structural)]
pub enum ShutdownPhase {
    /// The terminate signal is out; the child's exit is being awaited.
    Waiting { started_at_ms: u64 },
    /// The run is over; its one completion notification has been directed.
    Done,
}

/// What the caller must do after a step of the protocol.
#[derive(Debug, Clone, Copy, PartialEq, Eq, Structural)]
pub enum ShutdownDirective {
    /// Send the terminate signal, then begin probing the child's exit.
    SendTermAndPoll,
    /// Sleep briefly, probe the child again, and report the outcome.
    PollAgain,
    /// Send the kill signal, wait briefly, reap, then emit the completion
    /// notification.
    ForceKill,
    /// Emit the completion notification now.
    Complete,
}

/// Outcome of one non-blocking exit probe of the child.
#[derive(Debug, Clone, Copy, PartialEq, Eq, Structural)]
pub enum ProbeResult {
    /// The child has exited.
    Exited,
    /// The child is still running.
    StillRunning,
    /// The probe itself failed; the child is treated as already gone.
    ProbeError,
}

/// A directive that obliges the caller to emit the completion notification.
pub open spec fn directive_emits(d: ShutdownDirective) -> bool {
    d is Complete || d is ForceKill
}

/// What one probe outcome does to a waiting coordinator: an exit or a probe
/// error completes the run; a still-running child completes it by force
/// exactly once the timeout has elapsed, and otherwise leaves it waiting.
pub open spec fn probe_transition(c: ShutdownCoordinator, probe: ProbeResult, now_ms: u64)
    -> (ShutdownCoordinator, ShutdownDirective)
    recommends
        c.phase is Waiting,
{
    match probe {
        ProbeResult::Exited | ProbeResult::ProbeError => (
            ShutdownCoordinator { phase: ShutdownPhase::Done, ..c },
            ShutdownDirective::Complete,
        ),
        ProbeResult::StillRunning => {
            let started_at_ms = c.phase->started_at_ms;
            if now_ms >= started_at_ms && now_ms - started_at_ms >= c.timeout_ms {
                (
                    ShutdownCoordinator { phase: ShutdownPhase::Done, ..c },
                    ShutdownDirective::ForceKill,
                )
            } else {
                (c, ShutdownDirective::PollAgain)
            }
        },
    }
}

/// One graceful-shutdown run for one child.
#[derive(Debug, Clone, Copy, PartialEq, Eq, Structural)]
pub struct ShutdownCoordinator {
    /// After this many milliseconds without an exit, escalate to a kill.
    pub timeout_ms: u64,
    /// Where the run stands.
    pub phase: ShutdownPhase,
}

impl ShutdownCoordinator {
    /// Begin a shutdown run at `now_ms`. A child whose process id cannot be
    /// read is considered already gone: the run completes immediately.
    /// Otherwise the caller must send the terminate signal and start
    /// probing.
    pub fn start(timeout_ms: u64, pid_available: bool, now_ms: u64) -> (r: (
        ShutdownCoordinator,
        ShutdownDirective,
    ))
        ensures
            r.0.timeout_ms == timeout_ms,
            pid_available ==> r.0.phase == (ShutdownPhase::Waiting { started_at_ms: now_ms })
                && r.1 is SendTermAndPoll,
            !pid_available ==> r.0.phase is Done && r.1 is Complete,
            directive_emits(r.1) == (r.0.phase is Done),
    {
        if pid_available {
            (
                ShutdownCoordinator {
                    timeout_ms,
                    phase: ShutdownPhase::Waiting { started_at_ms: now_ms },
                },
                ShutdownDirective::SendTermAndPoll,
            )
        } else {
            (
                ShutdownCoordinator { timeout_ms, phase: ShutdownPhase::Done },
                ShutdownDirective::Complete,
            )
        }
    }

    /// Account for one probe of the child at `now_ms`. The run ends — and
    /// the completion notification is owed — exactly when the directive is
    /// `Complete` or `ForceKill`; a `Done` coordinator accepts no further
    /// probes, so no second notification can ever be directed.
    pub fn on_probe(&mut self, probe: ProbeResult, now_ms: u64) -> (d: ShutdownDirective)
        requires
            old(self).phase matches ShutdownPhase::Waiting { started_at_ms }
                && now_ms >= started_at_ms,
        ensures
            (*final(self), d) == probe_transition(*old(self), probe, now_ms),
            directive_emits(d) == (final(self).phase is Done),
            final(self).timeout_ms == old(self).timeout_ms,
    {
        match probe {
            ProbeResult::Exited | ProbeResult::ProbeError => {
                self.phase = ShutdownPhase::Done;
                ShutdownDirective::Complete
            },
            ProbeResult::StillRunning => {
                let started_at_ms = match self.phase {
                    ShutdownPhase::Waiting { started_at_ms } => started_at_ms,
                    ShutdownPhase::Done => 0,
                };
                if now_ms - started_at_ms >= self.timeout_ms {
                    self.phase = ShutdownPhase::Done;
                    ShutdownDirective::ForceKill
                } else {
                    ShutdownDirective::PollAgain
                }
            },
        }
    }

    /// Whether the run is over and its completion notification directed.
    pub fn is_done(&self) -> (r: bool)
        ensures
            r == (self.phase is Done),
    {
        match self.phase {
            ShutdownPhase::Done => true,
            ShutdownPhase::Waiting { .. } => false,
        }
    }
}

/// Liveness of the escalation protocol: however the child behaves — even if
/// it ignores the terminate signal and every probe keeps reporting
/// `StillRunning` — any probe taken once the timeout has elapsed ends the
/// run and directs its completion notification. Together with the
/// completion on `Exited` and on `ProbeError` at any instant, every run
/// that keeps probing reaches `Done`.
pub proof fn lemma_shutdown_completes_after_timeout(
    c: ShutdownCoordinator,
    probe: ProbeResult,
    now_ms: u64,
)
    requires
        c.phase matches ShutdownPhase::Waiting { started_at_ms } && now_ms >= started_at_ms
            + c.timeout_ms,
    ensures
        probe_transition(c, probe, now_ms).0.phase is Done,
        directive_emits(probe_transition(c, probe, now_ms).1),
{
}

/// Safety of the notification discipline: no step of the protocol directs a
/// completion notification without also ending the run. Since a `Done`
/// coordinator accepts no further probes, at most one notification is ever
/// directed per run — and the step above shows at least one is.
pub proof fn lemma_exactly_one_completion(c: ShutdownCoordinator, probe: ProbeResult, now_ms: u64)
    requires
        c.phase is Waiting,
    ensures
        directive_emits(probe_transition(c, probe, now_ms).1) == (probe_transition(
            c,
            probe,
            now_ms,
        ).0.phase is Done),
{
}

} // verus!
