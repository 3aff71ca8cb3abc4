//! The CPU of a task that wakes up.
use crate::cosmos::idle::{
    idle_probed, idle_selected, needs_idle_cores, pick_idle_cpu, probes, scanning, upcoming,
    IdlePick,
};
use crate::cosmos::state::{get_task_ctx, Cosmos};
use crate::cosmos::task::TaskRef;
use crate::cosmos::topology::{cpu_node, is_cpu_busy, is_wake_affine, pick_cpu_on_gpu_node};
use crate::cosmos::weight::task_slice;
use crate::cpumask::CpuMask;
use crate::defs::{Insert, SCX_DSQ_LOCAL};
use vstd::prelude::*;

verus! {

/// How far the choice of a CPU has come.
#[derive(Clone, Copy, Debug, PartialEq, Eq, Structural)]
pub enum SelectCpu {
    /// The kernel is to be asked what `pick` says. `prev` is the CPU to fall
    /// back on, `busy` whether the CPU that the task ran on is busy.
    Searching { pick: IdlePick, prev: i32, busy: bool },
    /// The task goes to `cpu`, after the insertion that is given.
    Done { cpu: i32, insert: Option<Insert> },
}

/// The CPU that the search starts from: the previous one where the task may
/// still use it, else the waker's, else the first that it may use.
pub open spec fn usable_prev(p: TaskRef, this_cpu: i32, prev_cpu: i32) -> i32 {
    if p.allows(prev_cpu) {
        prev_cpu
    } else if p.allows(this_cpu) {
        this_cpu
    } else {
        p.first_allowed
    }
}

/// The waker's CPU where the task may run there, else no CPU.
pub open spec fn waker_cpu(p: TaskRef, this_cpu: i32) -> i32 {
    if p.allows(this_cpu) {
        this_cpu
    } else {
        (-1) as i32
    }
}

impl Cosmos {
    /// The insertion into the queue of the CPU that the task is placed on.
    pub open spec fn local_insert(self, p: TaskRef, enq_flags: u64) -> Insert {
        Insert::Fifo { dsq: SCX_DSQ_LOCAL, slice: self.slice_for(p) as u64, enq_flags }
    }

    /// The task shares memory with its waker and is to stay on the waker's CPU.
    pub open spec fn stays_with_waker(
        self,
        p: TaskRef,
        current: TaskRef,
        this_cpu: i32,
        prev_cpu: i32,
    ) -> bool {
        self.wake_affine(current, p) && !self.busy(prev_cpu) && this_cpu == usable_prev(
            p,
            this_cpu,
            prev_cpu,
        )
    }

    /// What a finished search makes of the task: it goes to the CPU that was
    /// found or stays where it was, and is inserted right away unless that CPU
    /// is busy.
    pub open spec fn select_result(
        self,
        p: TaskRef,
        prev: i32,
        busy: bool,
        found: i32,
    ) -> SelectCpu {
        SelectCpu::Done {
            cpu: if found >= 0 {
                found
            } else {
                prev
            },
            insert: if found >= 0 || !busy {
                Some(self.local_insert(p, 0))
            } else {
                None
            },
        }
    }

    /// The state that a step of the search leads to.
    pub open spec fn select_state(
        self,
        p: TaskRef,
        prev: i32,
        busy: bool,
        pick: IdlePick,
    ) -> SelectCpu {
        match pick {
            IdlePick::Picked(found) => self.select_result(p, prev, busy, found),
            _ => SelectCpu::Searching { pick, prev, busy },
        }
    }
}

fn select_next(s: &Cosmos, p: &TaskRef, prev: i32, busy: bool, pick: IdlePick) -> (r: SelectCpu)
    requires
        pick matches IdlePick::Picked(found) && (found >= 0 || !busy) ==> s.slice_fits(*p),
    ensures
        r == s.select_state(*p, prev, busy, pick),
{
    match pick {
        IdlePick::Picked(found) => {
            let insert: Option<Insert> = if found >= 0 || !busy {
                Some(Insert::Fifo { dsq: SCX_DSQ_LOCAL, slice: task_slice(s, p), enq_flags: 0 })
            } else {
                None
            };
            SelectCpu::Done {
                cpu: if found >= 0 {
                    found
                } else {
                    prev
                },
                insert,
            }
        },
        _ => SelectCpu::Searching { pick, prev, busy },
    }
}

fn search_cpu(p: &TaskRef, this_cpu: i32, prev_cpu: i32) -> (r: i32)
    ensures
        r == usable_prev(*p, this_cpu, prev_cpu),
{
    if p.cpu_allowed(prev_cpu) {
        prev_cpu
    } else if p.cpu_allowed(this_cpu) {
        this_cpu
    } else {
        p.first_allowed
    }
}

/// Whether the choice of a CPU reads the CPUs whose core is idle as a whole.
pub fn select_needs_idle_cores(
    s: &Cosmos,
    p: &TaskRef,
    current: &TaskRef,
    this_cpu: i32,
    prev_cpu: i32,
) -> (r: bool)
    ensures
        r == (s.ctx_of(p.pid) is Some && !s.stays_with_waker(*p, *current, this_cpu, prev_cpu)
            && s.scans_cores(usable_prev(*p, this_cpu, prev_cpu))),
{
    if get_task_ctx(s, p.pid).is_none() {
        return false;
    }
    let prev: i32 = search_cpu(p, this_cpu, prev_cpu);
    let stays: bool = is_wake_affine(s, current, p) && !is_cpu_busy(s, prev_cpu) && this_cpu
        == prev;
    !stays && needs_idle_cores(s, prev)
}

/// Starts the choice of a CPU for `p`, which last ran on `prev_cpu` and is woken
/// by `current` on `this_cpu`. `smt` is the set of CPUs whose core is idle as a
/// whole, where it is known.
pub fn cosmos_select_cpu(
    s: &mut Cosmos,
    p: &TaskRef,
    current: &TaskRef,
    this_cpu: i32,
    prev_cpu: i32,
    wake_flags: u64,
    smt: &Option<CpuMask>,
) -> (r: SelectCpu)
    requires
        old(s).ctx_of(p.pid) is Some && !old(s).busy(prev_cpu) ==> old(s).slice_fits(*p),
    ensures
        *final(s) == *old(s),
        ({
            let s = *old(s);
            let prev = usable_prev(*p, this_cpu, prev_cpu);
            if s.ctx_of(p.pid) is None {
                r == (SelectCpu::Done { cpu: prev_cpu, insert: None })
            } else if s.stays_with_waker(*p, *current, this_cpu, prev_cpu) {
                r == (SelectCpu::Done { cpu: this_cpu, insert: Some(s.local_insert(*p, 0)) })
            } else {
                exists|pick: IdlePick|
                    #[trigger] s.pick_starts(
                        *p,
                        prev,
                        waker_cpu(*p, this_cpu),
                        wake_flags,
                        *smt,
                        pick,
                    ) && r == s.select_state(*p, prev, s.busy(prev_cpu), pick)
            }
        }),
{
    let is_this_allowed: bool = p.cpu_allowed(this_cpu);
    let is_busy: bool = is_cpu_busy(s, prev_cpu);
    if get_task_ctx(s, p.pid).is_none() {
        return SelectCpu::Done { cpu: prev_cpu, insert: None };
    }
    let prev: i32 = search_cpu(p, this_cpu, prev_cpu);
    if is_wake_affine(s, current, p) && !is_busy {
        if this_cpu == prev {
            return SelectCpu::Done {
                cpu: this_cpu,
                insert: Some(
                    Insert::Fifo { dsq: SCX_DSQ_LOCAL, slice: task_slice(s, p), enq_flags: 0 },
                ),
            };
        }
    }
    if s.cfg.gpu_enabled && s.cfg.numa_enabled {
        let cpu: i32 = pick_cpu_on_gpu_node(s, p, cpu_node(s, prev));
        if cpu >= 0 {
            s.counters.nr_gpu_dispatches = s.counters.nr_gpu_dispatches.wrapping_add(1);
            return SelectCpu::Done {
                cpu,
                insert: Some(
                    Insert::Fifo { dsq: SCX_DSQ_LOCAL, slice: task_slice(s, p), enq_flags: 0 },
                ),
            };
        }
    }
    let waker: i32 = if is_this_allowed {
        this_cpu
    } else {
        -1
    };
    let pick: IdlePick = pick_idle_cpu(s, p, prev, waker, wake_flags, smt);
    assert(old(s).pick_starts(
        *p,
        usable_prev(*p, this_cpu, prev_cpu),
        waker_cpu(*p, this_cpu),
        wake_flags,
        *smt,
        pick,
    ));
    select_next(s, p, prev, is_busy, pick)
}

/// Goes on after the kernel was asked for the idle state of a CPU.
pub fn select_cpu_probed(
    s: &mut Cosmos,
    p: &TaskRef,
    smt: &Option<CpuMask>,
    state: SelectCpu,
    claimed: bool,
) -> (r: SelectCpu)
    requires
        state matches SelectCpu::Searching { pick, prev, busy } && probes(*old(s), prev, pick) && (
        claimed || !busy ==> old(s).slice_fits(*p)),
    ensures
        state matches SelectCpu::Searching { pick, prev, busy } && (pick matches IdlePick::Probe {
            cpu,
            rest,
        } && (if claimed && !old(s).cfg.no_early_clear {
            r == old(s).select_result(*p, prev, busy, cpu) && *final(s) == (Cosmos {
                flat_last_cpu: old(s).scan_mark(prev, cpu),
                ..*old(s)
            })
        } else {
            *final(s) == *old(s) && exists|next: IdlePick|
                #[trigger] scanning(
                    *old(s),
                    *p,
                    prev,
                    *smt,
                    next,
                    upcoming(*old(s), *p, prev, *smt, rest),
                ) && r == old(s).select_state(*p, prev, busy, next)
        })),
        r matches SelectCpu::Done { cpu, insert } ==> (insert matches Some(insert) ==> insert == (
        Insert::Fifo {
            dsq: SCX_DSQ_LOCAL,
            slice: if p.weight > 0 {
                (old(s).cfg.slice_ns * p.weight / 100) as u64
            } else {
                old(s).cfg.slice_ns
            },
            enq_flags: 0,
        })),
{
    if let SelectCpu::Searching { pick, prev, busy } = state {
        let next: IdlePick = idle_probed(s, p, prev, smt, pick, claimed);
        return select_next(s, p, prev, busy, next);
    }
    state
}

/// Goes on after the kernel searched for an idle CPU and answered `found`.
pub fn select_cpu_selected(s: &Cosmos, p: &TaskRef, state: SelectCpu, found: i32) -> (r: SelectCpu)
    requires
        state matches SelectCpu::Searching { pick, prev, busy } && (pick is SelectPrimary
            || pick is SelectAny) && (found >= 0 || !busy ==> s.slice_fits(*p)),
    ensures
        state matches SelectCpu::Searching { pick, prev, busy } && r == (match pick {
            IdlePick::SelectPrimary { prev: origin, wake_flags, flags } if found
                < 0 => SelectCpu::Searching {
                pick: IdlePick::SelectAny { prev: origin, wake_flags },
                prev,
                busy,
            },
            _ => s.select_result(*p, prev, busy, found),
        }),
        r matches SelectCpu::Done { cpu, insert } ==> (insert matches Some(insert) ==> insert == (
        Insert::Fifo {
            dsq: SCX_DSQ_LOCAL,
            slice: if p.weight > 0 {
                (s.cfg.slice_ns * p.weight / 100) as u64
            } else {
                s.cfg.slice_ns
            },
            enq_flags: 0,
        })),
        r matches SelectCpu::Done { cpu, insert } ==> (state matches SelectCpu::Searching {
            pick,
            prev,
            busy,
        } && cpu == (if found >= 0 {
            found
        } else {
            prev
        }) && (insert is None <==> busy && found < 0)),
{
    if let SelectCpu::Searching { pick, prev, busy } = state {
        let next: IdlePick = idle_selected(pick, found);
        return select_next(s, p, prev, busy, next);
    }
    state
}

} // verus!
