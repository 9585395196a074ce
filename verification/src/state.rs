//! The flock registry and the control-loop state.
//!
//! One `FlockState` per configured flock, each owning one `ProcessState`
//! slot per process, in configuration order; a `MainUIState` tracking which
//! flock the UI has selected; and `AppState` tying the two together. The
//! registry exposes the operations the single-threaded control loop drives
//! each tick: apply a watcher event to every slot, sweep the debounce
//! timers, and account for shutdown completions.

use vstd::prelude::*;

use crate::config::AppConfig;
use crate::config::FlockConfig;
use crate::process::change_transition;
use crate::process::poll_fires;
use crate::process::poll_transition;
use crate::process::shutdown_complete_transition;
use crate::process::ProcessState;
use crate::process::ProcessStatus;
use crate::watcher::WatcherEvent;

verus! {

/// The slots of `new_f` are those of `old_f` after one file-change event at
/// `now_ms`: same flock, same configurations, each status taken through
/// `change_transition`.
pub open spec fn flock_change_rel(old_f: FlockState, new_f: FlockState, now_ms: u64) -> bool {
    &&& new_f.display_name == old_f.display_name
    &&& new_f.processes.len() == old_f.processes.len()
    &&& forall|j: int| 0 <= j < old_f.processes.len() ==> {
        &&& (#[trigger] new_f.processes[j]).process_config == old_f.processes[j].process_config
        &&& new_f.processes[j].status == change_transition(
            old_f.processes[j].status,
            old_f.processes[j].process_config.watch,
            now_ms,
        )
    }
}

/// The slots of `new_f` are those of `old_f` after one scheduler tick at
/// `now_ms`: same flock, same configurations, each status taken through
/// `poll_transition`.
pub open spec fn flock_poll_rel(old_f: FlockState, new_f: FlockState, now_ms: u64) -> bool {
    &&& new_f.display_name == old_f.display_name
    &&& new_f.processes.len() == old_f.processes.len()
    &&& forall|j: int| 0 <= j < old_f.processes.len() ==> {
        &&& (#[trigger] new_f.processes[j]).process_config == old_f.processes[j].process_config
        &&& new_f.processes[j].status == poll_transition(old_f.processes[j].status, now_ms)
    }
}

/// Mutable access to one slot of a flock, with the surrounding vector
/// related to the borrow.
fn slot_mut(v: &mut Vec<ProcessState>, i: usize) -> (element: &mut ProcessState)
    requires
        i < old(v).len(),
    ensures
        *element == old(v)@[i as int],
        final(v)@ == old(v)@.update(i as int, *final(element)),
{
    &mut v[i]
}

/// Mutable access to one flock of the registry, with the surrounding vector
/// related to the borrow.
fn flock_mut(v: &mut Vec<FlockState>, i: usize) -> (element: &mut FlockState)
    requires
        i < old(v).len(),
    ensures
        *element == old(v)@[i as int],
        final(v)@ == old(v)@.update(i as int, *final(element)),
{
    &mut v[i]
}

/// One flock at run time: its display name and one supervised slot per
/// configured process, in configuration order.
#[derive(Debug, Clone)]
pub struct FlockState {
    pub display_name: String,
    pub processes: Vec<ProcessState>,
}

impl FlockState {
    /// Every slot of the flock is well formed.
    pub open spec fn wf(self) -> bool {
        forall|j: int| 0 <= j < self.processes.len() ==> (#[trigger] self.processes[j]).wf()
    }

    /// Build the flock's slots from its configuration: one stopped slot per
    /// process, order preserved.
    pub fn new(config: FlockConfig) -> (r: Self)
        ensures
            r.display_name == config.display_name,
            r.processes.len() == config.processes.len(),
            forall|j: int| 0 <= j < config.processes.len() ==> {
                &&& (#[trigger] r.processes[j]).process_config == config.processes[j]
                &&& r.processes[j].status is Stopped
            },
            r.wf(),
    {
        let FlockConfig { display_name, processes: mut configs } = config;
        let ghost all = configs@;
        let mut slots: Vec<ProcessState> = Vec::new();
        while configs.len() > 0
            invariant
                slots.len() + configs.len() == all.len(),
                configs@ == all.subrange(slots.len() as int, all.len() as int),
                forall|j: int| 0 <= j < slots.len() ==> {
                    &&& (#[trigger] slots[j]).process_config == all[j]
                    &&& slots[j].status is Stopped
                },
            decreases configs.len(),
        {
            let c = configs.remove(0);
            assert(c == all[slots.len() as int]);
            slots.push(ProcessState::new(c));
        }
        FlockState { display_name, processes: slots }
    }

    /// One file-change event observed at `now_ms`, applied to every slot of
    /// the flock. Each watch-enabled running slot arms or resets its
    /// debounce timer; disabled, stopped and restarting slots are
    /// untouched.
    pub fn handle_file_change(&mut self, now_ms: u64)
        requires
            old(self).wf(),
        ensures
            flock_change_rel(*old(self), *final(self), now_ms),
            final(self).wf(),
    {
        let ghost orig = *self;
        let n = self.processes.len();
        let mut j: usize = 0;
        while j < n
            invariant
                orig.wf(),
                n == orig.processes.len(),
                j <= n,
                self.display_name == orig.display_name,
                self.processes.len() == n,
                forall|q: int| 0 <= q < j ==> {
                    &&& (#[trigger] self.processes[q]).process_config
                        == orig.processes[q].process_config
                    &&& self.processes[q].status == change_transition(
                        orig.processes[q].status,
                        orig.processes[q].process_config.watch,
                        now_ms,
                    )
                    &&& self.processes[q].wf()
                },
                forall|q: int| j <= q < n ==> self.processes[q] == orig.processes[q],
            decreases n - j,
        {
            let slot = slot_mut(&mut self.processes, j);
            slot.on_file_change(now_ms);
            j = j + 1;
        }
    }

    /// One scheduler tick at `now_ms`, applied to every slot of the flock.
    /// Returns, in increasing order and without repetition, exactly the
    /// indices of the slots whose quiet period has just run out; each of
    /// them has moved to `Restarting`, and its child must now be shut down
    /// gracefully.
    pub fn poll_debounce(&mut self, now_ms: u64) -> (fired: Vec<usize>)
        requires
            old(self).wf(),
        ensures
            flock_poll_rel(*old(self), *final(self), now_ms),
            final(self).wf(),
            forall|q: usize|
                q < old(self).processes.len() ==> (#[trigger] fired@.contains(q) == poll_fires(
                    old(self).processes[q as int].status,
                    now_ms,
                )),
            forall|k: int| 0 <= k < fired@.len() ==> (#[trigger] fired@[k])
                < old(self).processes.len(),
            forall|k1: int, k2: int| 0 <= k1 < k2 < fired@.len() ==> fired@[k1] < fired@[k2],
    {
        let ghost orig = *self;
        let n = self.processes.len();
        let mut fired: Vec<usize> = Vec::new();
        let mut j: usize = 0;
        while j < n
            invariant
                orig.wf(),
                n == orig.processes.len(),
                j <= n,
                self.display_name == orig.display_name,
                self.processes.len() == n,
                forall|q: int| 0 <= q < j ==> {
                    &&& (#[trigger] self.processes[q]).process_config
                        == orig.processes[q].process_config
                    &&& self.processes[q].status == poll_transition(
                        orig.processes[q].status,
                        now_ms,
                    )
                    &&& self.processes[q].wf()
                },
                forall|q: int| j <= q < n ==> self.processes[q] == orig.processes[q],
                forall|q: usize|
                    q < j ==> (#[trigger] fired@.contains(q) == poll_fires(
                        orig.processes[q as int].status,
                        now_ms,
                    )),
                forall|k: int| 0 <= k < fired@.len() ==> (#[trigger] fired@[k]) < j,
                forall|k1: int, k2: int| 0 <= k1 < k2 < fired@.len() ==> fired@[k1] < fired@[k2],
            decreases n - j,
        {
            let ghost fired_before = fired@;
            let slot = slot_mut(&mut self.processes, j);
            let restart = slot.poll_debounce(now_ms);
            if restart {
                fired.push(j);
                proof {
                    assert(fired@[fired@.len() - 1] == j);
                    assert(fired@.contains(j));
                    assert forall|q: usize|
                        q < j + 1 implies (fired@.contains(q) == poll_fires(
                        orig.processes[q as int].status,
                        now_ms,
                    )) by {
                        if q != j {
                            if fired_before.contains(q) {
                                let k = choose|k: int|
                                    0 <= k < fired_before.len() && fired_before[k] == q;
                                assert(fired@[k] == q);
                                assert(fired@.contains(q));
                            }
                            if fired@.contains(q) {
                                let k = choose|k: int|
                                    0 <= k < fired@.len() && fired@[k] == q;
                                assert(fired_before[k] == q);
                                assert(fired_before.contains(q));
                            }
                        }
                    }
                }
            } else {
                proof {
                    if fired@.contains(j) {
                        let k = choose|k: int| 0 <= k < fired@.len() && fired@[k] == j;
                        assert(fired@[k] < j);
                        assert(false);
                    }
                }
            }
            j = j + 1;
        }
        fired
    }
}

/// Which flock the UI has selected.
#[derive(Debug, Clone, Copy, PartialEq, Eq, Structural)]
pub struct MainUIState {
    pub active_flock: usize,
}

impl MainUIState {
    /// Move the selection to the next flock, wrapping past the last one.
    pub fn next_flock(&mut self, no_of_flock: usize)
        requires
            old(self).active_flock < no_of_flock,
        ensures
            final(self).active_flock == if old(self).active_flock + 1 == no_of_flock {
                0usize
            } else {
                (old(self).active_flock + 1) as usize
            },
            final(self).active_flock < no_of_flock,
    {
        let mut next_flock_wrapped = self.active_flock + 1;
        if next_flock_wrapped == no_of_flock {
            next_flock_wrapped = 0;
        }
        self.active_flock = next_flock_wrapped;
    }

    /// Move the selection to the previous flock, wrapping past the first
    /// one.
    pub fn previous_flock(&mut self, no_of_flock: usize)
        requires
            old(self).active_flock < no_of_flock,
        ensures
            final(self).active_flock == if old(self).active_flock == 0 {
                (no_of_flock - 1) as usize
            } else {
                (old(self).active_flock - 1) as usize
            },
            final(self).active_flock < no_of_flock,
    {
        if self.active_flock == 0 {
            self.active_flock = no_of_flock - 1;
        } else {
            self.active_flock = self.active_flock - 1;
        }
    }
}

/// Every flock's run-time state, in configuration order.
#[derive(Debug, Clone)]
pub struct GlobalUIState {
    pub flocks: Vec<FlockState>,
}

/// The registry `new_g` is `old_g` after one file-change event at `now_ms`
/// reached every flock.
pub open spec fn global_change_rel(old_g: GlobalUIState, new_g: GlobalUIState, now_ms: u64)
    -> bool {
    &&& new_g.flocks.len() == old_g.flocks.len()
    &&& forall|i: int|
        0 <= i < old_g.flocks.len() ==> flock_change_rel(
            old_g.flocks[i],
            #[trigger] new_g.flocks[i],
            now_ms,
        )
}

/// The registry `new_g` is `old_g` after one scheduler tick at `now_ms`
/// swept every flock.
pub open spec fn global_poll_rel(old_g: GlobalUIState, new_g: GlobalUIState, now_ms: u64)
    -> bool {
    &&& new_g.flocks.len() == old_g.flocks.len()
    &&& forall|i: int|
        0 <= i < old_g.flocks.len() ==> flock_poll_rel(
            old_g.flocks[i],
            #[trigger] new_g.flocks[i],
            now_ms,
        )
}

impl GlobalUIState {
    /// Every flock is well formed.
    pub open spec fn wf(self) -> bool {
        forall|i: int| 0 <= i < self.flocks.len() ==> (#[trigger] self.flocks[i]).wf()
    }

    /// The pair of indices names an existing slot.
    pub open spec fn slot_in_range(self, flock_idx: usize, process_idx: usize) -> bool {
        flock_idx < self.flocks.len() && process_idx < self.flocks[
            flock_idx as int
        ].processes.len()
    }

    /// Account for one event delivered by the file watcher: a change signal
    /// arms or resets the debounce timer of every watch-enabled running
    /// slot, in every flock.
    pub fn handle_watcher_event(&mut self, event: &WatcherEvent, now_ms: u64)
        requires
            old(self).wf(),
        ensures
            global_change_rel(*old(self), *final(self), now_ms),
            final(self).wf(),
    {
        match event {
            WatcherEvent::FileChanged => self.handle_file_change(now_ms),
        }
    }

    /// One file-change signal observed at `now_ms`, applied to every flock.
    pub fn handle_file_change(&mut self, now_ms: u64)
        requires
            old(self).wf(),
        ensures
            global_change_rel(*old(self), *final(self), now_ms),
            final(self).wf(),
    {
        let ghost orig = *self;
        let n = self.flocks.len();
        let mut i: usize = 0;
        while i < n
            invariant
                orig.wf(),
                n == orig.flocks.len(),
                i <= n,
                self.flocks.len() == n,
                forall|q: int|
                    0 <= q < i ==> flock_change_rel(
                        orig.flocks[q],
                        #[trigger] self.flocks[q],
                        now_ms,
                    ) && self.flocks[q].wf(),
                forall|q: int| i <= q < n ==> self.flocks[q] == orig.flocks[q],
            decreases n - i,
        {
            proof {
                assert(self.flocks[i as int] == orig.flocks[i as int]);
                assert(orig.flocks[i as int].wf());
            }
            let f = flock_mut(&mut self.flocks, i);
            f.handle_file_change(now_ms);
            i = i + 1;
        }
    }

    /// One scheduler tick at `now_ms`, swept over every flock. Returns, in
    /// lexicographic order and without repetition, exactly the slots whose
    /// quiet period has just run out; each of them has moved to
    /// `Restarting`, and the caller must start one graceful shutdown per
    /// returned slot.
    pub fn process_debounce_timers(&mut self, now_ms: u64) -> (fired: Vec<(usize, usize)>)
        requires
            old(self).wf(),
        ensures
            global_poll_rel(*old(self), *final(self), now_ms),
            final(self).wf(),
            forall|fi: usize, pj: usize|
                old(self).slot_in_range(fi, pj) ==> (#[trigger] fired@.contains((fi, pj))
                    == poll_fires(
                    old(self).flocks[fi as int].processes[pj as int].status,
                    now_ms,
                )),
            forall|k: int|
                0 <= k < fired@.len() ==> old(self).slot_in_range(
                    (#[trigger] fired@[k]).0,
                    fired@[k].1,
                ),
            forall|k1: int, k2: int|
                0 <= k1 < k2 < fired@.len() ==> (fired@[k1].0 < fired@[k2].0 || (fired@[k1].0
                    == fired@[k2].0 && fired@[k1].1 < fired@[k2].1)),
    {
        let ghost orig = *self;
        let n = self.flocks.len();
        let mut fired: Vec<(usize, usize)> = Vec::new();
        let mut i: usize = 0;
        while i < n
            invariant
                orig.wf(),
                n == orig.flocks.len(),
                i <= n,
                self.flocks.len() == n,
                forall|q: int|
                    0 <= q < i ==> flock_poll_rel(
                        orig.flocks[q],
                        #[trigger] self.flocks[q],
                        now_ms,
                    ) && self.flocks[q].wf(),
                forall|q: int| i <= q < n ==> self.flocks[q] == orig.flocks[q],
                forall|fi: usize, pj: usize|
                    fi < i && pj < orig.flocks[fi as int].processes.len() ==> (
                    #[trigger] fired@.contains((fi, pj)) == poll_fires(
                        orig.flocks[fi as int].processes[pj as int].status,
                        now_ms,
                    )),
                forall|k: int|
                    0 <= k < fired@.len() ==> (#[trigger] fired@[k]).0 < i && fired@[k].1
                        < orig.flocks[fired@[k].0 as int].processes.len(),
                forall|k1: int, k2: int|
                    0 <= k1 < k2 < fired@.len() ==> (fired@[k1].0 < fired@[k2].0 || (fired@[k1].0
                        == fired@[k2].0 && fired@[k1].1 < fired@[k2].1)),
            decreases n - i,
        {
            proof {
                assert(self.flocks[i as int] == orig.flocks[i as int]);
                assert(orig.flocks[i as int].wf());
            }
            let ghost fired_before = fired@;
            let f = flock_mut(&mut self.flocks, i);
            let sub = f.poll_debounce(now_ms);
            let m = sub.len();
            let mut k: usize = 0;
            while k < m
                invariant
                    m == sub.len(),
                    k <= m,
                    fired@.len() == fired_before.len() + k,
                    forall|t: int| 0 <= t < fired_before.len() ==> #[trigger] fired@[t]
                        == fired_before[t],
                    forall|t: int|
                        0 <= t < k ==> #[trigger] fired@[fired_before.len() + t] == (i, sub@[t]),
                decreases m - k,
            {
                let entry = (i, sub[k]);
                fired.push(entry);
                k = k + 1;
            }
            proof {
                let base = fired_before.len() as int;
                assert forall|fi: usize, pj: usize|
                    fi < i + 1 && pj < orig.flocks[fi as int].processes.len() implies (
                #[trigger] fired@.contains((fi, pj)) == poll_fires(
                    orig.flocks[fi as int].processes[pj as int].status,
                    now_ms,
                )) by {
                    if fi == i {
                        if sub@.contains(pj) {
                            let t = choose|t: int| 0 <= t < sub@.len() && sub@[t] == pj;
                            assert(fired@[base + t] == (i, pj));
                            assert(fired@.contains((fi, pj)));
                        }
                        if fired@.contains((fi, pj)) {
                            let t = choose|t: int|
                                0 <= t < fired@.len() && fired@[t] == (fi, pj);
                            if t < base {
                                assert(fired_before[t] == (fi, pj));
                                assert(fired_before[t].0 < i);
                                assert(false);
                            } else {
                                let u = t - base;
                                assert(0 <= u < sub@.len());
                                assert(fired@[base + u] == (i, sub@[u]));
                                assert(sub@[u] == pj);
                                assert(sub@.contains(pj));
                            }
                        }
                    } else {
                        if fired_before.contains((fi, pj)) {
                            let t = choose|t: int|
                                0 <= t < fired_before.len() && fired_before[t] == (fi, pj);
                            assert(fired@[t] == (fi, pj));
                            assert(fired@.contains((fi, pj)));
                        }
                        if fired@.contains((fi, pj)) {
                            let t = choose|t: int|
                                0 <= t < fired@.len() && fired@[t] == (fi, pj);
                            if t < base {
                                assert(fired_before[t] == (fi, pj));
                                assert(fired_before.contains((fi, pj)));
                            } else {
                                let u = t - base;
                                assert(0 <= u < sub@.len());
                                assert(fired@[base + u] == (i, sub@[u]));
                                assert(false);
                            }
                        }
                    }
                }
                assert forall|k: int| 0 <= k < fired@.len() implies ((#[trigger] fired@[k]).0 < i
                    + 1 && fired@[k].1 < orig.flocks[fired@[k].0 as int].processes.len()) by {
                    if k < base {
                        assert(fired@[k] == fired_before[k]);
                    } else {
                        let u = k - base;
                        assert(0 <= u < sub@.len());
                        assert(fired@[base + u] == (i, sub@[u]));
                    }
                }
                assert forall|k1: int, k2: int| 0 <= k1 < k2 < fired@.len() implies (fired@[k1].0
                    < fired@[k2].0 || (fired@[k1].0 == fired@[k2].0 && fired@[k1].1
                    < fired@[k2].1)) by {
                    if k1 < base {
                        assert(fired@[k1] == fired_before[k1]);
                    } else {
                        let u1 = k1 - base;
                        assert(0 <= u1 < sub@.len());
                        assert(fired@[base + u1] == (i, sub@[u1]));
                    }
                    if k2 < base {
                        assert(fired@[k2] == fired_before[k2]);
                    } else {
                        let u2 = k2 - base;
                        assert(0 <= u2 < sub@.len());
                        assert(fired@[base + u2] == (i, sub@[u2]));
                    }
                }
            }
            i = i + 1;
        }
        fired
    }

    /// The graceful shutdown of one slot's child has finished. A restarting
    /// slot returns to `Stopped` and the caller must relaunch it at once
    /// (the automatic restart chain); a notification for a slot in any
    /// other state, or out of range, changes nothing. Returns whether that
    /// relaunch is owed.
    pub fn handle_shutdown_complete(&mut self, flock_idx: usize, process_idx: usize) -> (relaunch:
        bool)
        requires
            old(self).wf(),
        ensures
            final(self).wf(),
            !old(self).slot_in_range(flock_idx, process_idx) ==> *final(self) == *old(self)
                && !relaunch,
            old(self).slot_in_range(flock_idx, process_idx) ==> {
                let old_slot = old(self).flocks[flock_idx as int].processes[process_idx as int];
                &&& relaunch == (old_slot.status matches ProcessStatus::Running(p)
                    && p.status is Restarting)
                &&& final(self).flocks.len() == old(self).flocks.len()
                &&& forall|q: int|
                    0 <= q < old(self).flocks.len() && q != flock_idx ==> final(self).flocks[q]
                        == #[trigger] old(self).flocks[q]
                &&& final(self).flocks[flock_idx as int].display_name == old(self).flocks[
                    flock_idx as int
                ].display_name
                &&& final(self).flocks[flock_idx as int].processes.len() == old(self).flocks[
                    flock_idx as int
                ].processes.len()
                &&& forall|q: int|
                    0 <= q < old(self).flocks[flock_idx as int].processes.len() && q != process_idx
                        ==> final(self).flocks[flock_idx as int].processes[q] == #[trigger] old(
                        self,
                    ).flocks[flock_idx as int].processes[q]
                &&& final(self).flocks[flock_idx as int].processes[
                    process_idx as int
                ].process_config == old_slot.process_config
                &&& final(self).flocks[flock_idx as int].processes[process_idx as int].status
                    == shutdown_complete_transition(old_slot.status)
            },
    {
        if flock_idx >= self.flocks.len() {
            return false;
        }
        if process_idx >= self.flocks[flock_idx].processes.len() {
            return false;
        }
        let f = flock_mut(&mut self.flocks, flock_idx);
        let slot = slot_mut(&mut f.processes, process_idx);
        let relaunch = slot.is_restarting();
        slot.on_shutdown_complete();
        relaunch
    }
}

/// The whole application state the control loop owns: the UI selection and
/// the registry of flocks.
#[derive(Debug, Clone)]
pub enum AppState {
    Main(MainUIState, GlobalUIState),
}

impl AppState {
    /// The selection points at an existing flock whenever there is one, and
    /// the registry is well formed.
    pub open spec fn wf(self) -> bool {
        match self {
            AppState::Main(main, global) => {
                &&& (global.flocks.len() > 0 ==> main.active_flock < global.flocks.len())
                &&& global.wf()
            },
        }
    }

    /// Build the registry from the configuration tree: one flock state per
    /// configured flock, order preserved, everything stopped, the first
    /// flock selected.
    pub fn new(config: AppConfig) -> (r: Self)
        ensures
            r matches AppState::Main(main, global) && {
                &&& main.active_flock == 0
                &&& global.flocks.len() == config.flocks.len()
                &&& forall|i: int| 0 <= i < config.flocks.len() ==> {
                    &&& (#[trigger] global.flocks[i]).display_name
                        == config.flocks[i].display_name
                    &&& global.flocks[i].processes.len() == config.flocks[i].processes.len()
                    &&& forall|j: int| 0 <= j < config.flocks[i].processes.len() ==> {
                        &&& (#[trigger] global.flocks[i].processes[j]).process_config
                            == config.flocks[i].processes[j]
                        &&& global.flocks[i].processes[j].status is Stopped
                    }
                }
            },
            r.wf(),
    {
        let AppConfig { flocks: mut configs } = config;
        let ghost all = configs@;
        let mut flocks: Vec<FlockState> = Vec::new();
        while configs.len() > 0
            invariant
                flocks.len() + configs.len() == all.len(),
                configs@ == all.subrange(flocks.len() as int, all.len() as int),
                forall|i: int| 0 <= i < flocks.len() ==> {
                    &&& (#[trigger] flocks[i]).display_name == all[i].display_name
                    &&& flocks[i].processes.len() == all[i].processes.len()
                    &&& forall|j: int| 0 <= j < all[i].processes.len() ==> {
                        &&& (#[trigger] flocks[i].processes[j]).process_config
                            == all[i].processes[j]
                        &&& flocks[i].processes[j].status is Stopped
                    }
                },
            decreases configs.len(),
        {
            let c = configs.remove(0);
            assert(c == all[flocks.len() as int]);
            flocks.push(FlockState::new(c));
        }
        AppState::Main(MainUIState { active_flock: 0 }, GlobalUIState { flocks })
    }

    /// Move the selection to the next flock, wrapping around.
    pub fn next_item(&mut self)
        requires
            old(self).wf(),
            (*old(self)) matches AppState::Main(_, global) && global.flocks.len() > 0,
        ensures
            final(self).wf(),
            (*final(self)) matches AppState::Main(main, global)
                && (*old(self)) matches AppState::Main(old_main, old_global) && {
                &&& global == old_global
                &&& main.active_flock == if old_main.active_flock + 1 == global.flocks.len() {
                    0usize
                } else {
                    (old_main.active_flock + 1) as usize
                }
            },
    {
        match self {
            AppState::Main(main, global) => {
                let n = global.flocks.len();
                main.next_flock(n);
            },
        }
    }

    /// Move the selection to the previous flock, wrapping around.
    pub fn previous_item(&mut self)
        requires
            old(self).wf(),
            (*old(self)) matches AppState::Main(_, global) && global.flocks.len() > 0,
        ensures
            final(self).wf(),
            (*final(self)) matches AppState::Main(main, global)
                && (*old(self)) matches AppState::Main(old_main, old_global) && {
                &&& global == old_global
                &&& main.active_flock == if old_main.active_flock == 0 {
                    (global.flocks.len() - 1) as usize
                } else {
                    (old_main.active_flock - 1) as usize
                }
            },
    {
        match self {
            AppState::Main(main, global) => {
                let n = global.flocks.len();
                main.previous_flock(n);
            },
        }
    }
}

} // verus!
