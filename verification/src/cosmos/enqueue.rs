//! The queue of a task that becomes ready to run.
use crate::cosmos::idle::{
    flat_candidates, idle_probed, idle_selected, needs_idle_cores, pick_idle_cpu,
    pick_idle_cpu_flat, probes, scanning, upcoming, IdlePick,
};
use crate::cosmos::state::{get_task_ctx, Cosmos, Counters};
use crate::cosmos::task::{task_should_migrate, TaskCtx, TaskRef};
use crate::cosmos::topology::{
    cpu_node, is_core_contended, is_cpu_busy, is_cpu_idle, is_primary_cpu, is_smt_contended,
    pick_cpu_on_gpu_node, shared_dsq, smt_sibling,
};
use crate::cosmos::weight::{task_deadline, task_slice};
use crate::cpumask::CpuMask;
use crate::defs::{Insert, SCX_DSQ_LOCAL, SCX_DSQ_LOCAL_ON};
use vstd::prelude::*;

verus! {

/// How far the placement of a task has come.
#[derive(Clone, Copy, Debug, PartialEq, Eq, Structural)]
pub enum Enqueue {
    /// The task is not known and is left alone.
    Ignored,
    /// Ask the kernel to test and clear the idle state of `cpu`, the sibling of
    /// the task's CPU.
    ProbeSibling { cpu: i32, tctx: TaskCtx },
    /// Ask which CPUs are idle.
    ReadIdle { tctx: TaskCtx },
    /// Ask the kernel what `pick` says.
    Searching { pick: IdlePick, tctx: TaskCtx },
    /// The task is to be queued by its deadline.
    ByDeadline { tctx: TaskCtx },
    /// The task is to be inserted, and then the CPU that is given woken up if
    /// it is idle.
    Done { insert: Insert, kick: Option<i32> },
}

/// The local queue of a given CPU.
pub open spec fn local_queue_on(cpu: i32) -> u64 {
    SCX_DSQ_LOCAL_ON | cpu as u64
}

/// The number after `n`, from the largest back to zero.
pub open spec fn count_after(n: u64) -> u64 {
    if n == u64::MAX {
        0
    } else {
        (n + 1) as u64
    }
}

impl Cosmos {
    pub open spec fn event_heavy(self, tctx: TaskCtx) -> bool {
        self.cfg.perf_config != 0 && tctx.perf_events > self.cfg.perf_threshold
    }

    pub open spec fn sticky_event_heavy(self, tctx: TaskCtx) -> bool {
        self.cfg.perf_sticky != 0 && tctx.perf_sticky_events > self.cfg.perf_sticky_threshold
    }

    /// The task belongs on its CPU: the CPU is in the primary domain, or the
    /// task has no other.
    pub open spec fn at_home(self, p: TaskRef) -> bool {
        self.primary(p.cpu) || p.pinned()
    }

    /// The task is to be kept on its CPU for the sake of its events, unless the
    /// CPU's core is contended.
    pub open spec fn wants_stay(self, p: TaskRef, tctx: TaskCtx) -> bool {
        self.sticky_event_heavy(tctx) && self.at_home(p)
    }

    /// The task stays on its CPU.
    pub open spec fn stay_result(self, p: TaskRef, enq_flags: u64) -> Enqueue {
        Enqueue::Done {
            insert: self.local_insert(p, enq_flags),
            kick: if p.running {
                None
            } else {
                Some(p.cpu)
            },
        }
    }

    /// `pick` is where the search for an idle CPU starts. A pinned task tries
    /// its own CPU alone.
    pub open spec fn enqueue_search(
        self,
        p: TaskRef,
        smt: Option<CpuMask>,
        pick: IdlePick,
    ) -> bool {
        if p.pinned() {
            scanning(self, p, p.cpu, smt, pick, flat_candidates(self, p, p.cpu, smt))
        } else {
            self.pick_starts(p, p.cpu, (-1) as i32, 0, smt, pick)
        }
    }

    /// The search for an idle CPU depends on which cores are idle as a whole.
    pub open spec fn enqueue_scans_cores(self, p: TaskRef) -> bool {
        !p.pinned() && self.scans_cores(p.cpu)
    }

    /// The task goes to the queue of `cpu`, which is woken up if `kick` says so.
    pub open spec fn direct_result(
        self,
        p: TaskRef,
        enq_flags: u64,
        cpu: i32,
        kick: bool,
    ) -> Enqueue {
        Enqueue::Done {
            insert: Insert::Fifo {
                dsq: local_queue_on(cpu),
                slice: self.slice_for(p) as u64,
                enq_flags,
            },
            kick: if kick {
                Some(cpu)
            } else {
                None
            },
        }
    }

    /// What a finished search makes of the task: it goes to the CPU that was
    /// found; else to its own CPU, where that is not busy and fits; else to the
    /// shared queue.
    pub open spec fn enqueue_result(
        self,
        p: TaskRef,
        tctx: TaskCtx,
        enq_flags: u64,
        found: i32,
    ) -> Enqueue {
        if found >= 0 {
            self.direct_result(p, enq_flags, found, found != p.cpu || !p.running)
        } else if !self.busy(p.cpu) && self.at_home(p) {
            self.direct_result(p, enq_flags, p.cpu, !p.running)
        } else {
            Enqueue::ByDeadline { tctx }
        }
    }

    /// The event counter after a search ended in `found`.
    pub open spec fn events_after(self, p: TaskRef, tctx: TaskCtx, found: i32) -> u64 {
        if found >= 0 && found != p.cpu && self.event_heavy(tctx) {
            count_after(self.counters.nr_event_dispatches)
        } else {
            self.counters.nr_event_dispatches
        }
    }

    /// The state `r` and the scheduler `after` that a step of the search leads to.
    pub open spec fn enqueue_follows(
        self,
        p: TaskRef,
        tctx: TaskCtx,
        enq_flags: u64,
        pick: IdlePick,
        r: Enqueue,
        after: Cosmos,
    ) -> bool {
        match pick {
            IdlePick::Picked(found) => {
                &&& r == self.enqueue_result(p, tctx, enq_flags, found)
                &&& after.counters.nr_event_dispatches == self.events_after(p, tctx, found)
                &&& after == (Cosmos {
                    counters: Counters {
                        nr_event_dispatches: after.counters.nr_event_dispatches,
                        ..self.counters
                    },
                    ..self
                })
            },
            _ => r == (Enqueue::Searching { pick, tctx }) && after == self,
        }
    }

    /// The scheduler after a task was kept on its CPU.
    pub open spec fn after_stay(self) -> Cosmos {
        Cosmos {
            counters: Counters {
                nr_ev_sticky_dispatches: count_after(self.counters.nr_ev_sticky_dispatches),
                ..self.counters
            },
            ..self
        }
    }
}

/// Whether a task causes more of the counted events than the threshold.
pub fn is_event_heavy(s: &Cosmos, tctx: &TaskCtx) -> (r: bool)
    ensures
        r == s.event_heavy(*tctx),
{
    s.cfg.perf_config != 0 && tctx.perf_events > s.cfg.perf_threshold
}

/// Whether a task causes more of the events that tie it to its CPU than the
/// threshold.
pub fn is_sticky_event_heavy(s: &Cosmos, tctx: &TaskCtx) -> (r: bool)
    ensures
        r == s.sticky_event_heavy(*tctx),
{
    s.cfg.perf_sticky != 0 && tctx.perf_sticky_events > s.cfg.perf_sticky_threshold
}

fn enqueue_stay(s: &mut Cosmos, p: &TaskRef, enq_flags: u64) -> (r: Enqueue)
    requires
        old(s).slice_fits(*p),
    ensures
        r == old(s).stay_result(*p, enq_flags),
        *final(s) == old(s).after_stay(),
{
    let insert: Insert = Insert::Fifo { dsq: SCX_DSQ_LOCAL, slice: task_slice(s, p), enq_flags };
    s.counters.nr_ev_sticky_dispatches = s.counters.nr_ev_sticky_dispatches.wrapping_add(1);
    Enqueue::Done {
        insert,
        kick: if p.is_running() {
            None
        } else {
            Some(p.cpu())
        },
    }
}

fn enqueue_next(
    s: &mut Cosmos,
    p: &TaskRef,
    tctx: TaskCtx,
    enq_flags: u64,
    pick: IdlePick,
) -> (r: Enqueue)
    requires
        old(s).slice_fits(*p),
    ensures
        old(s).enqueue_follows(*p, tctx, enq_flags, pick, r, *final(s)),
{
    let prev_cpu: i32 = p.cpu();
    let cpu: i32 = match pick {
        IdlePick::Picked(found) => found,
        _ => return Enqueue::Searching { pick, tctx },
    };
    if cpu >= 0 {
        let insert: Insert = Insert::Fifo {
            dsq: SCX_DSQ_LOCAL_ON | cpu as u64,
            slice: task_slice(s, p),
            enq_flags,
        };
        if is_event_heavy(s, &tctx) && cpu != prev_cpu {
            s.counters.nr_event_dispatches = s.counters.nr_event_dispatches.wrapping_add(1);
        }
        let kick: Option<i32> = if cpu != prev_cpu || !p.is_running() {
            Some(cpu)
        } else {
            None
        };
        return Enqueue::Done { insert, kick };
    }
    if !is_cpu_busy(s, prev_cpu) && (is_primary_cpu(s, prev_cpu) || p.is_pcpu()) {
        let insert: Insert = Insert::Fifo {
            dsq: SCX_DSQ_LOCAL_ON | prev_cpu as u64,
            slice: task_slice(s, p),
            enq_flags,
        };
        let kick: Option<i32> = if task_should_migrate(p) {
            Some(prev_cpu)
        } else {
            None
        };
        return Enqueue::Done { insert, kick };
    }
    Enqueue::ByDeadline { tctx }
}

/// Searches for an idle CPU, unless the task is to stay on its own, idle CPU. No
/// CPU is known to be idle beforehand, so the search is always made.
fn enqueue_search(
    s: &mut Cosmos,
    p: &TaskRef,
    tctx: TaskCtx,
    enq_flags: u64,
    smt: &Option<CpuMask>,
) -> (r: Enqueue)
    requires
        old(s).slice_fits(*p),
    ensures
        exists|pick: IdlePick|
            #[trigger] old(s).enqueue_search(*p, *smt, pick) && old(s).enqueue_follows(
                *p,
                tctx,
                enq_flags,
                pick,
                r,
                *final(s),
            ),
{
    let prev_cpu: i32 = p.cpu();
    let pick: IdlePick = if task_should_migrate(p) || !is_cpu_idle(prev_cpu) {
        if p.is_pcpu() {
            pick_idle_cpu_flat(s, p, prev_cpu, smt)
        } else {
            pick_idle_cpu(s, p, prev_cpu, -1, 0, smt)
        }
    } else {
        IdlePick::Picked(-1)
    };
    assert(old(s).enqueue_search(*p, *smt, pick));
    enqueue_next(s, p, tctx, enq_flags, pick)
}

/// Starts the placement of a task that is ready to run.
pub fn cosmos_enqueue(
    s: &mut Cosmos,
    p: &TaskRef,
    enq_flags: u64,
    smt: &Option<CpuMask>,
) -> (r: Enqueue)
    requires
        old(s).ctx_of(p.pid) is Some ==> old(s).slice_fits(*p),
    ensures
        match old(s).ctx_of(p.pid) {
            None => r == Enqueue::Ignored && *final(s) == *old(s),
            Some(tctx) => if !old(s).wants_stay(*p, tctx) {
                exists|pick: IdlePick|
                    #[trigger] old(s).enqueue_search(*p, *smt, pick) && old(s).enqueue_follows(
                        *p,
                        tctx,
                        enq_flags,
                        pick,
                        r,
                        *final(s),
                    )
            } else if old(s).cfg.avoid_smt && old(s).cfg.smt_enabled {
                r == (Enqueue::ProbeSibling { cpu: old(s).sibling(p.cpu), tctx }) && *final(s)
                    == *old(s)
            } else {
                r == old(s).stay_result(*p, enq_flags) && *final(s) == old(s).after_stay()
            },
        },
{
    let prev_cpu: i32 = p.cpu();
    let node: i32 = cpu_node(s, prev_cpu);
    let tctx: TaskCtx = match get_task_ctx(s, p.pid) {
        Some(tctx) => tctx,
        None => return Enqueue::Ignored,
    };
    if s.cfg.gpu_enabled && s.cfg.numa_enabled && !p.is_pcpu() && task_should_migrate(p) {
        let cpu: i32 = pick_cpu_on_gpu_node(s, p, node);
        if cpu >= 0 {
            s.counters.nr_gpu_dispatches = s.counters.nr_gpu_dispatches.wrapping_add(1);
            let insert: Insert = Insert::Fifo {
                dsq: SCX_DSQ_LOCAL_ON | cpu as u64,
                slice: task_slice(s, p),
                enq_flags,
            };
            let kick: Option<i32> = if cpu != prev_cpu || !p.is_running() {
                Some(cpu)
            } else {
                None
            };
            return Enqueue::Done { insert, kick };
        }
    }
    if is_sticky_event_heavy(s, &tctx) && (is_primary_cpu(s, prev_cpu) || p.is_pcpu()) {
        if s.cfg.avoid_smt && s.cfg.smt_enabled {
            return Enqueue::ProbeSibling { cpu: smt_sibling(s, prev_cpu), tctx };
        }
        return enqueue_stay(s, p, enq_flags);
    }
    enqueue_search(s, p, tctx, enq_flags, smt)
}

/// Goes on after the kernel was asked for the idle state of the sibling of the
/// task's CPU. Where that was not idle, it matters whether another CPU is.
pub fn enqueue_sibling_probed(
    s: &mut Cosmos,
    p: &TaskRef,
    enq_flags: u64,
    tctx: TaskCtx,
    claimed: bool,
) -> (r: Enqueue)
    requires
        claimed || !old(s).cfg.smt_enabled ==> old(s).slice_fits(*p),
    ensures
        if old(s).cfg.smt_enabled && !claimed {
            r == (Enqueue::ReadIdle { tctx }) && *final(s) == *old(s)
        } else {
            r == old(s).stay_result(*p, enq_flags) && *final(s) == old(s).after_stay()
        },
{
    if is_smt_contended(s, claimed, true) {
        return Enqueue::ReadIdle { tctx };
    }
    enqueue_stay(s, p, enq_flags)
}

/// Goes on after the idle CPUs were read: the task leaves a contended core.
pub fn enqueue_idle_read(
    s: &mut Cosmos,
    p: &TaskRef,
    enq_flags: u64,
    smt: &Option<CpuMask>,
    tctx: TaskCtx,
    idle: &CpuMask,
) -> (r: Enqueue)
    requires
        old(s).slice_fits(*p),
    ensures
        if old(s).contended(p.cpu, false, *idle) {
            exists|pick: IdlePick|
                #[trigger] old(s).enqueue_search(*p, *smt, pick) && old(s).enqueue_follows(
                    *p,
                    tctx,
                    enq_flags,
                    pick,
                    r,
                    *final(s),
                )
        } else {
            r == old(s).stay_result(*p, enq_flags) && *final(s) == old(s).after_stay()
        },
{
    if is_core_contended(s, p.cpu(), idle) {
        enqueue_search(s, p, tctx, enq_flags, smt)
    } else {
        enqueue_stay(s, p, enq_flags)
    }
}

/// Whether the start of a placement reads the CPUs whose core is idle as a
/// whole.
pub fn enqueue_needs_idle_cores(s: &Cosmos, p: &TaskRef) -> (r: bool)
    ensures
        r == (s.ctx_of(p.pid) matches Some(tctx) && !s.wants_stay(*p, tctx)
            && s.enqueue_scans_cores(*p)),
{
    match get_task_ctx(s, p.pid) {
        Some(tctx) => {
            let stays: bool = is_sticky_event_heavy(s, &tctx) && (is_primary_cpu(s, p.cpu())
                || p.is_pcpu());
            !stays && search_needs_idle_cores(s, p)
        },
        None => false,
    }
}

/// Whether the search for an idle CPU reads the CPUs whose core is idle as a
/// whole.
pub fn search_needs_idle_cores(s: &Cosmos, p: &TaskRef) -> (r: bool)
    ensures
        r == s.enqueue_scans_cores(*p),
{
    !p.is_pcpu() && needs_idle_cores(s, p.cpu())
}

/// Goes on after the kernel was asked for the idle state of a CPU.
pub fn enqueue_probed(
    s: &mut Cosmos,
    p: &TaskRef,
    enq_flags: u64,
    smt: &Option<CpuMask>,
    pick: IdlePick,
    tctx: TaskCtx,
    claimed: bool,
) -> (r: Enqueue)
    requires
        probes(*old(s), p.cpu, pick),
        old(s).slice_fits(*p),
    ensures
        pick matches IdlePick::Probe { cpu, rest } && (if claimed && !old(s).cfg.no_early_clear {
            let claimed = Cosmos { flat_last_cpu: old(s).scan_mark(p.cpu, cpu), ..*old(s) };
            claimed.enqueue_follows(*p, tctx, enq_flags, IdlePick::Picked(cpu), r, *final(s))
        } else {
            exists|next: IdlePick|
                #[trigger] scanning(
                    *old(s),
                    *p,
                    p.cpu,
                    *smt,
                    next,
                    upcoming(*old(s), *p, p.cpu, *smt, rest),
                ) && old(s).enqueue_follows(*p, tctx, enq_flags, next, r, *final(s))
        }),
{
    let next: IdlePick = idle_probed(s, p, p.cpu(), smt, pick, claimed);
    enqueue_next(s, p, tctx, enq_flags, next)
}

/// Goes on after the kernel searched for an idle CPU and answered `found`.
pub fn enqueue_selected(
    s: &mut Cosmos,
    p: &TaskRef,
    enq_flags: u64,
    pick: IdlePick,
    tctx: TaskCtx,
    found: i32,
) -> (r: Enqueue)
    requires
        pick is SelectPrimary || pick is SelectAny,
        old(s).slice_fits(*p),
    ensures
        match pick {
            IdlePick::SelectPrimary { prev, wake_flags, flags } if found < 0 => r == (
            Enqueue::Searching { pick: IdlePick::SelectAny { prev, wake_flags }, tctx })
                && *final(s) == *old(s),
            _ => old(s).enqueue_follows(
                *p,
                tctx,
                enq_flags,
                IdlePick::Picked(found),
                r,
                *final(s),
            ),
        },
{
    let next: IdlePick = idle_selected(pick, found);
    enqueue_next(s, p, tctx, enq_flags, next)
}

/// Queues a task by its deadline in the shared queue of its CPU.
pub fn enqueue_by_deadline(s: &Cosmos, p: &mut TaskRef, enq_flags: u64, tctx: TaskCtx) -> (r:
    Enqueue)
    requires
        s.slice_fits(*old(p)),
        s.deadline_fits(*old(p), tctx),
    ensures
        r == (Enqueue::Done {
            insert: Insert::Vtime {
                dsq: s.queue_of(old(p).cpu),
                slice: s.slice_for(*old(p)) as u64,
                vtime: s.deadline(*old(p), tctx) as u64,
                enq_flags,
            },
            kick: if old(p).running {
                None
            } else {
                Some(old(p).cpu)
            },
        }),
        *final(p) == (TaskRef { dsq_vtime: s.claimed_vtime(*old(p), tctx), ..*old(p) }),
{
    let deadline: u64 = task_deadline(s, p, &tctx);
    let insert: Insert = Insert::Vtime {
        dsq: shared_dsq(s, p.cpu()),
        slice: task_slice(s, p),
        vtime: deadline,
        enq_flags,
    };
    let kick: Option<i32> = if task_should_migrate(p) {
        Some(p.cpu())
    } else {
        None
    };
    Enqueue::Done { insert, kick }
}

} // verus!
