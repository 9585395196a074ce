//! The per-process supervision state machine.
//!
//! Each configured process owns one slot that is either `Stopped` or
//! `Running`; a running process carries a sub-state: `Stable`, `Debouncing`
//! (a file change arrived and a quiet period is awaited), or `Restarting`
//! (a graceful shutdown of the current child is in flight). The embedding
//! program performs the actual spawning, probing and signalling; this module
//! decides every transition and is the single source of truth for what a
//! slot is doing.
//!
//! Time enters only as an argument: callers pass a monotonic clock reading
//! in milliseconds, so every transition is a plain function of its inputs.

use vstd::prelude::*;

use crate::config::FlockProcessConfig;
use crate::config::WatchConfig;

verus! {

/// The debounce record of one slot: when the most recent change event
/// arrived, and how long the quiet period must be.
#[derive(Debug, Clone, Copy, PartialEq, Eq, Structural)]
pub struct RestartDebounceHandler {
    /// Monotonic clock reading, in milliseconds, of the latest change event.
    pub started_at_ms: u64,
    /// Length of the quiet period, in milliseconds. Never changed by resets.
    pub duration_ms: u64,
}

/// The timer has run out: at least its duration has elapsed since the last
/// change event.
pub open spec fn timer_expired(t: RestartDebounceHandler, now_ms: u64) -> bool {
    now_ms >= t.started_at_ms && now_ms - t.started_at_ms >= t.duration_ms
}

impl RestartDebounceHandler {
    /// Arm a fresh timer at the given instant.
    pub fn new(now_ms: u64, duration_ms: u64) -> (r: Self)
        ensures
            r.started_at_ms == now_ms,
            r.duration_ms == duration_ms,
    {
        RestartDebounceHandler { started_at_ms: now_ms, duration_ms }
    }

    /// A further change event arrived: restart the quiet period without
    /// touching its duration.
    pub fn reset(&mut self, now_ms: u64)
        ensures
            final(self).started_at_ms == now_ms,
            final(self).duration_ms == old(self).duration_ms,
    {
        self.started_at_ms = now_ms;
    }

    /// Whether the quiet period is over at the given instant.
    pub fn is_expired(&self, now_ms: u64) -> (r: bool)
        ensures
            r == timer_expired(*self, now_ms),
    {
        now_ms >= self.started_at_ms && now_ms - self.started_at_ms >= self.duration_ms
    }
}

/// Sub-state of a running process.
#[derive(Debug, Clone)]
pub enum ProcessRunningStatus {
    /// Running undisturbed.
    Stable,
    /// A change event arrived; waiting out the quiet period.
    Debouncing(RestartDebounceHandler),
    /// A graceful shutdown of the current child is in flight; the slot waits
    /// for its completion notification.
    Restarting,
}

impl PartialEq for ProcessRunningStatus {
    /// Two sub-states are equal when they are the same variant; the timer
    /// payload does not take part, as callers ask only "which phase".
    fn eq(&self, other: &Self) -> (r: bool) {
        match (self, other) {
            (ProcessRunningStatus::Stable, ProcessRunningStatus::Stable) => true,
            (ProcessRunningStatus::Debouncing(_), ProcessRunningStatus::Debouncing(_)) => true,
            (ProcessRunningStatus::Restarting, ProcessRunningStatus::Restarting) => true,
            _ => false,
        }
    }
}

impl vstd::std_specs::cmp::PartialEqSpecImpl for ProcessRunningStatus {
    open spec fn obeys_eq_spec() -> bool {
        true
    }

    open spec fn eq_spec(&self, other: &Self) -> bool {
        match (self, other) {
            (ProcessRunningStatus::Stable, ProcessRunningStatus::Stable) => true,
            (ProcessRunningStatus::Debouncing(_), ProcessRunningStatus::Debouncing(_)) => true,
            (ProcessRunningStatus::Restarting, ProcessRunningStatus::Restarting) => true,
            _ => false,
        }
    }
}

/// A running child as this core sees it: an opaque handle naming the
/// operating-system resources (child, PTY master, terminal emulator) that
/// the embedding program keeps, plus the supervision sub-state.
#[derive(Debug, Clone)]
pub struct Process {
    /// Names the handle bundle held by the embedding program.
    pub handle: u64,
    /// Current supervision sub-state.
    pub status: ProcessRunningStatus,
}

/// Whether a slot currently holds a child.
#[derive(Debug, Clone)]
pub enum ProcessStatus {
    /// No child; the slot may be launched.
    Stopped,
    /// A child is live (or being torn down) under this slot.
    Running(Process),
}

impl PartialEq for ProcessStatus {
    /// Equality asks only whether both sides are stopped or both running;
    /// the running payload does not take part.
    fn eq(&self, other: &Self) -> (r: bool) {
        match (self, other) {
            (ProcessStatus::Stopped, ProcessStatus::Stopped) => true,
            (ProcessStatus::Running(_), ProcessStatus::Running(_)) => true,
            _ => false,
        }
    }
}

impl vstd::std_specs::cmp::PartialEqSpecImpl for ProcessStatus {
    open spec fn obeys_eq_spec() -> bool {
        true
    }

    open spec fn eq_spec(&self, other: &Self) -> bool {
        match (self, other) {
            (ProcessStatus::Stopped, ProcessStatus::Stopped) => true,
            (ProcessStatus::Running(_), ProcessStatus::Running(_)) => true,
            _ => false,
        }
    }
}

/// What one file-change event does to a slot's status: nothing unless the
/// policy watches files and a child is running; a stable child starts
/// debouncing with the policy's full duration; a debouncing child has its
/// quiet period restarted (duration untouched); a restarting child ignores
/// the event, so no second shutdown is ever started.
pub open spec fn change_transition(status: ProcessStatus, watch: WatchConfig, now_ms: u64)
    -> ProcessStatus {
    if !watch.is_enabled() {
        status
    } else {
        match status {
            ProcessStatus::Stopped => ProcessStatus::Stopped,
            ProcessStatus::Running(p) => ProcessStatus::Running(Process {
                handle: p.handle,
                status: match p.status {
                    ProcessRunningStatus::Stable => ProcessRunningStatus::Debouncing(
                        RestartDebounceHandler {
                            started_at_ms: now_ms,
                            duration_ms: watch.debounce_duration(),
                        },
                    ),
                    ProcessRunningStatus::Debouncing(t) => ProcessRunningStatus::Debouncing(
                        RestartDebounceHandler {
                            started_at_ms: now_ms,
                            duration_ms: t.duration_ms,
                        },
                    ),
                    ProcessRunningStatus::Restarting => ProcessRunningStatus::Restarting,
                },
            }),
        }
    }
}

/// What one scheduler tick does to a slot's status: a debouncing child whose
/// timer has expired moves to `Restarting`; everything else is untouched.
pub open spec fn poll_transition(status: ProcessStatus, now_ms: u64) -> ProcessStatus {
    match status {
        ProcessStatus::Running(p) => match p.status {
            ProcessRunningStatus::Debouncing(t) => if timer_expired(t, now_ms) {
                ProcessStatus::Running(Process {
                    handle: p.handle,
                    status: ProcessRunningStatus::Restarting,
                })
            } else {
                status
            },
            _ => status,
        },
        _ => status,
    }
}

/// Whether one scheduler tick starts a shutdown for this slot.
pub open spec fn poll_fires(status: ProcessStatus, now_ms: u64) -> bool {
    status matches ProcessStatus::Running(p)
        && p.status matches ProcessRunningStatus::Debouncing(t) && timer_expired(t, now_ms)
}

/// What a shutdown-completion notification does to a slot's status: a
/// restarting child becomes `Stopped` (about to be relaunched); any other
/// status ignores the stale notification.
pub open spec fn shutdown_complete_transition(status: ProcessStatus) -> ProcessStatus {
    match status {
        ProcessStatus::Running(p) => match p.status {
            ProcessRunningStatus::Restarting => ProcessStatus::Stopped,
            _ => status,
        },
        _ => status,
    }
}

/// Whether a launch request should spawn a child: yes for a stopped slot,
/// and yes for a slot whose child a non-blocking exit probe has shown to be
/// already gone; a live child makes the request a no-op.
pub open spec fn launch_decision(status: ProcessStatus, child_has_exited: bool) -> bool {
    match status {
        ProcessStatus::Stopped => true,
        ProcessStatus::Running(_) => child_has_exited,
    }
}

/// The status of a slot after a whole burst of file-change events, observed
/// at the given instants in delivery order.
pub open spec fn apply_changes(status: ProcessStatus, watch: WatchConfig, times: Seq<u64>)
    -> ProcessStatus
    decreases times.len(),
{
    if times.len() == 0 {
        status
    } else {
        apply_changes(change_transition(status, watch, times[0]), watch, times.drop_first())
    }
}

/// A process whose watch policy is disabled is never moved by the file
/// system: no number of file-change events changes its status.
pub proof fn lemma_watch_disabled_ignores_changes(
    status: ProcessStatus,
    watch: WatchConfig,
    times: Seq<u64>,
)
    requires
        !watch.is_enabled(),
    ensures
        apply_changes(status, watch, times) == status,
    decreases times.len(),
{
    if times.len() > 0 {
        lemma_watch_disabled_ignores_changes(status, watch, times.drop_first());
    }
}

/// A burst of change events coalesces: however many reach a watch-enabled
/// running slot that is stable or already debouncing, it ends up debouncing
/// with the policy's full duration, counted from the latest event alone —
/// the remaining time after each event is the whole configured duration
/// again.
pub proof fn lemma_change_events_coalesce(p: Process, watch: WatchConfig, times: Seq<u64>)
    requires
        watch.is_enabled(),
        times.len() > 0,
        p.status is Stable || (p.status matches ProcessRunningStatus::Debouncing(t)
            && t.duration_ms == watch.debounce_duration()),
    ensures
        apply_changes(ProcessStatus::Running(p), watch, times) == ProcessStatus::Running(
            Process {
                handle: p.handle,
                status: ProcessRunningStatus::Debouncing(
                    RestartDebounceHandler {
                        started_at_ms: times.last(),
                        duration_ms: watch.debounce_duration(),
                    },
                ),
            },
        ),
    decreases times.len(),
{
    let p1 = Process {
        handle: p.handle,
        status: ProcessRunningStatus::Debouncing(
            RestartDebounceHandler {
                started_at_ms: times[0],
                duration_ms: watch.debounce_duration(),
            },
        ),
    };
    assert(change_transition(ProcessStatus::Running(p), watch, times[0])
        == ProcessStatus::Running(p1));
    if times.len() > 1 {
        lemma_change_events_coalesce(p1, watch, times.drop_first());
    }
}

/// A debouncing slot restarts exactly on time: a scheduler tick moves it to
/// `Restarting` if and only if at least its configured duration has elapsed
/// since the latest change event, and otherwise leaves it untouched.
pub proof fn lemma_restart_iff_expired(p: Process, t: RestartDebounceHandler, now_ms: u64)
    requires
        p.status == ProcessRunningStatus::Debouncing(t),
    ensures
        poll_fires(ProcessStatus::Running(p), now_ms) == (now_ms >= t.started_at_ms
            + t.duration_ms),
        poll_fires(ProcessStatus::Running(p), now_ms) ==> poll_transition(
            ProcessStatus::Running(p),
            now_ms,
        ) == ProcessStatus::Running(
            Process { handle: p.handle, status: ProcessRunningStatus::Restarting },
        ),
        !poll_fires(ProcessStatus::Running(p), now_ms) ==> poll_transition(
            ProcessStatus::Running(p),
            now_ms,
        ) == ProcessStatus::Running(p),
{
}

/// Once a slot is restarting, only the shutdown completion moves it: change
/// events and scheduler ticks leave it alone (so no second shutdown is ever
/// started for the same slot), and the completion returns it to `Stopped`,
/// from which the relaunch decision is affirmative — the automatic restart
/// chain back to `Running`/`Stable`.
pub proof fn lemma_restarting_until_completion(p: Process, watch: WatchConfig, now_ms: u64)
    requires
        p.status is Restarting,
    ensures
        change_transition(ProcessStatus::Running(p), watch, now_ms) == ProcessStatus::Running(p),
        poll_transition(ProcessStatus::Running(p), now_ms) == ProcessStatus::Running(p),
        !poll_fires(ProcessStatus::Running(p), now_ms),
        shutdown_complete_transition(ProcessStatus::Running(p)) is Stopped,
        launch_decision(shutdown_complete_transition(ProcessStatus::Running(p)), false),
{
}

/// Launching is idempotent: a stopped slot is spawned whatever the probe
/// says, but once the spawned child is installed a further launch request
/// finding it alive spawns nothing — two launch requests in rapid
/// succession on a stopped slot spawn exactly one child. A running slot
/// whose child the probe has shown to be gone is spawned afresh rather than
/// treated as occupied.
pub proof fn lemma_launch_decision(p: Process)
    ensures
        launch_decision(ProcessStatus::Stopped, false),
        launch_decision(ProcessStatus::Stopped, true),
        !launch_decision(ProcessStatus::Running(p), false),
        launch_decision(ProcessStatus::Running(p), true),
{
}

/// One supervised slot: the immutable process specification paired with the
/// mutable supervision status.
#[derive(Debug, Clone)]
pub struct ProcessState {
    /// The configuration this slot was built from.
    pub process_config: FlockProcessConfig,
    /// What the slot is currently doing.
    pub status: ProcessStatus,
}

impl ProcessState {
    /// A debouncing slot always watches files and always debounces with
    /// exactly the duration its policy asks for.
    pub open spec fn wf(self) -> bool {
        self.status matches ProcessStatus::Running(p) ==> (p.status
            matches ProcessRunningStatus::Debouncing(t) ==> {
            &&& self.process_config.watch.is_enabled()
            &&& t.duration_ms == self.process_config.watch.debounce_duration()
        })
    }

    /// A fresh slot for one configured process; nothing is running yet.
    pub fn new(process_config: FlockProcessConfig) -> (r: Self)
        ensures
            r.process_config == process_config,
            r.status is Stopped,
            r.wf(),
    {
        ProcessState { process_config, status: ProcessStatus::Stopped }
    }

    /// Whether a launch request should spawn a child now. `child_has_exited`
    /// reports a non-blocking exit probe of the current child and is only
    /// read when one is running: a dead handle is overwritten rather than
    /// treated as an occupied slot.
    pub fn should_launch(&self, child_has_exited: bool) -> (r: bool)
        ensures
            r == launch_decision(self.status, child_has_exited),
    {
        match &self.status {
            ProcessStatus::Stopped => true,
            ProcessStatus::Running(_) => child_has_exited,
        }
    }

    /// Install a freshly spawned child: the slot becomes `Running`/`Stable`
    /// under the given handle.
    pub fn mark_launched(&mut self, handle: u64)
        ensures
            final(self).process_config == old(self).process_config,
            final(self).status == ProcessStatus::Running(Process {
                handle,
                status: ProcessRunningStatus::Stable,
            }),
            final(self).wf(),
    {
        self.status = ProcessStatus::Running(Process {
            handle,
            status: ProcessRunningStatus::Stable,
        });
    }

    /// One file-change event observed at `now_ms`. Disabled or stopped or
    /// restarting slots are untouched; a stable child starts debouncing; a
    /// debouncing child has its quiet period restarted.
    pub fn on_file_change(&mut self, now_ms: u64)
        requires
            old(self).wf(),
        ensures
            final(self).process_config == old(self).process_config,
            final(self).status == change_transition(
                old(self).status,
                old(self).process_config.watch,
                now_ms,
            ),
            final(self).wf(),
    {
        if !self.process_config.watch.is_enabled() {
            return ;
        }
        match &mut self.status {
            ProcessStatus::Stopped => {},
            ProcessStatus::Running(p) => {
                match &mut p.status {
                    ProcessRunningStatus::Stable => {
                        let duration_ms = self.process_config.watch.debounce_duration();
                        p.status = ProcessRunningStatus::Debouncing(
                            RestartDebounceHandler::new(now_ms, duration_ms),
                        );
                    },
                    ProcessRunningStatus::Debouncing(t) => {
                        t.reset(now_ms);
                    },
                    ProcessRunningStatus::Restarting => {},
                }
            },
        }
    }

    /// One scheduler tick at `now_ms`: returns whether the slot just moved
    /// to `Restarting`, in which case the caller must start a graceful
    /// shutdown of the slot's child, and nothing else changed.
    pub fn poll_debounce(&mut self, now_ms: u64) -> (restart: bool)
        requires
            old(self).wf(),
        ensures
            final(self).process_config == old(self).process_config,
            final(self).status == poll_transition(old(self).status, now_ms),
            restart == poll_fires(old(self).status, now_ms),
            final(self).wf(),
    {
        match &mut self.status {
            ProcessStatus::Running(p) => {
                match &p.status {
                    ProcessRunningStatus::Debouncing(t) => {
                        if t.is_expired(now_ms) {
                            p.status = ProcessRunningStatus::Restarting;
                            true
                        } else {
                            false
                        }
                    },
                    _ => false,
                }
            },
            _ => false,
        }
    }

    /// The graceful shutdown of this slot's child has finished: a restarting
    /// slot returns to `Stopped`, ready for its relaunch; a stale
    /// notification for any other status is ignored.
    pub fn on_shutdown_complete(&mut self)
        requires
            old(self).wf(),
        ensures
            final(self).process_config == old(self).process_config,
            final(self).status == shutdown_complete_transition(old(self).status),
            final(self).wf(),
    {
        match &self.status {
            ProcessStatus::Running(p) => {
                match &p.status {
                    ProcessRunningStatus::Restarting => {
                        self.status = ProcessStatus::Stopped;
                    },
                    _ => {},
                }
            },
            _ => {},
        }
    }

    /// Whether a graceful shutdown of this slot's child is in flight.
    pub fn is_restarting(&self) -> (r: bool)
        ensures
            r == (self.status matches ProcessStatus::Running(p)
                && p.status is Restarting),
    {
        match &self.status {
            ProcessStatus::Running(p) => {
                match &p.status {
                    ProcessRunningStatus::Restarting => true,
                    _ => false,
                }
            },
            _ => false,
        }
    }

    /// Human-readable sub-state marker for the panel title: non-empty
    /// exactly while a restart is in flight.
    pub fn state_indicator(&self) -> (r: &'static str)
        ensures
            (self.status matches ProcessStatus::Running(p)
                && p.status is Restarting) ==> r@ == " [Restarting...]"@,
            !(self.status matches ProcessStatus::Running(p)
                && p.status is Restarting) ==> r@ == ""@,
    {
        match &self.status {
            ProcessStatus::Running(p) => {
                match &p.status {
                    ProcessRunningStatus::Restarting => " [Restarting...]",
                    _ => "",
                }
            },
            _ => "",
        }
    }
}

} // verus!
