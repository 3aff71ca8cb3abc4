//! Whether a running task has to give up its CPU.
use crate::arith::{clock_distance, time_delta};
use crate::cosmos::enqueue::local_queue_on;
use crate::cosmos::state::{get_task_ctx, Cosmos};
use crate::cosmos::task::{TaskCtx, TaskRef};
use crate::cosmos::topology::{
    is_core_contended, is_cpu_busy, is_smt_contended, shared_dsq, smt_sibling,
};
use crate::cosmos::weight::task_slice;
use crate::cpumask::CpuMask;
use crate::defs::{MAX_CPUS, SCX_DSQ_LOCAL_ON};
use vstd::prelude::*;

verus! {

/// How far the decision at a tick has come.
#[derive(Clone, Copy, Debug, PartialEq, Eq, Structural)]
pub enum Tick {
    /// Nothing is left to ask.
    Done,
    /// Ask the kernel to test and clear the idle state of `cpu`, the sibling of
    /// the task's CPU.
    ProbeSibling { cpu: i32 },
    /// Ask which CPUs are idle.
    ReadIdle,
    /// Ask how many tasks wait in `dsq`, the local queue of the task's CPU.
    CountLocal { dsq: u64, contended: bool },
    /// Ask how many tasks wait in `dsq`, the shared queue of the task's CPU.
    CountShared { dsq: u64, contended: bool },
}

impl Cosmos {
    /// The task has run for longer than its slice.
    pub open spec fn overran(self, p: TaskRef, tctx: TaskCtx, now: u64) -> bool {
        clock_distance(now, tctx.last_run_at) > self.slice_for(p)
    }

    /// A task that overran its slice gives up its CPU: at once where the core is
    /// contended, else where the CPU is busy and another task waits for it.
    pub open spec fn preempts(self, p: TaskRef, contended: bool, waiting: bool) -> bool {
        contended || (self.busy(p.cpu) && waiting)
    }

    /// The task after the decision.
    pub open spec fn ticked(self, p: TaskRef, contended: bool, waiting: bool) -> TaskRef {
        if self.preempts(p, contended, waiting) {
            TaskRef { slice: 0, ..p }
        } else {
            p
        }
    }
}

/// Starts the decision. Nothing is asked for a task within its slice.
pub fn cosmos_tick(s: &Cosmos, p: &TaskRef, now: u64) -> (r: Tick)
    requires
        s.cfg.tick_preempt && s.ctx_of(p.pid) is Some ==> s.slice_fits(*p),
    ensures
        r == (match s.ctx_of(p.pid) {
            Some(tctx) if s.cfg.tick_preempt && s.overran(*p, tctx, now) => {
                if s.cfg.avoid_smt && s.cfg.smt_enabled {
                    Tick::ProbeSibling { cpu: s.sibling(p.cpu) }
                } else {
                    Tick::CountLocal { dsq: local_queue_on(p.cpu), contended: false }
                }
            },
            _ => Tick::Done,
        }),
{
    if !s.cfg.tick_preempt {
        return Tick::Done;
    }
    let tctx: TaskCtx = match get_task_ctx(s, p.pid) {
        Some(tctx) => tctx,
        None => return Tick::Done,
    };
    if time_delta(now, tctx.last_run_at) > task_slice(s, p) {
        let cpu: i32 = p.cpu();
        if s.cfg.avoid_smt && s.cfg.smt_enabled {
            return Tick::ProbeSibling { cpu: smt_sibling(s, cpu) };
        }
        return Tick::CountLocal { dsq: SCX_DSQ_LOCAL_ON | cpu as u64, contended: false };
    }
    Tick::Done
}

/// Goes on after the kernel was asked for the idle state of the sibling. Where
/// that was not idle, it matters whether another CPU is.
pub fn tick_sibling_probed(s: &Cosmos, p: &TaskRef, claimed: bool) -> (r: Tick)
    ensures
        r == (if s.cfg.smt_enabled && !claimed {
            Tick::ReadIdle
        } else {
            Tick::CountLocal { dsq: local_queue_on(p.cpu), contended: false }
        }),
{
    if is_smt_contended(s, claimed, true) {
        return Tick::ReadIdle;
    }
    Tick::CountLocal { dsq: SCX_DSQ_LOCAL_ON | p.cpu() as u64, contended: false }
}

/// Goes on after the idle CPUs were read.
pub fn tick_idle_read(s: &Cosmos, p: &TaskRef, idle: &CpuMask) -> (r: Tick)
    ensures
        r == (Tick::CountLocal {
            dsq: local_queue_on(p.cpu),
            contended: s.contended(p.cpu, false, *idle),
        }),
{
    let contended: bool = is_core_contended(s, p.cpu(), idle);
    Tick::CountLocal { dsq: SCX_DSQ_LOCAL_ON | p.cpu() as u64, contended }
}

/// Goes on after the tasks in the local queue were counted. With none there, the
/// shared queue is asked for too.
pub fn tick_local_counted(s: &Cosmos, p: &mut TaskRef, contended: bool, queued: u32) -> (r: Tick)
    ensures
        queued > 0 ==> r == Tick::Done && *final(p) == s.ticked(*old(p), contended, true),
        queued == 0 ==> r == (Tick::CountShared { dsq: s.queue_of(old(p).cpu), contended })
            && *final(p) == *old(p),
        queued > 0 && contended ==> final(p).slice == 0,
        queued > 0 && s.busy(old(p).cpu) ==> final(p).slice == 0,
{
    if queued > 0 {
        tick_decided(s, p, contended, true);
        Tick::Done
    } else {
        Tick::CountShared { dsq: shared_dsq(s, p.cpu()), contended }
    }
}

/// Ends the decision after the tasks in the shared queue were counted.
pub fn tick_shared_counted(s: &Cosmos, p: &mut TaskRef, contended: bool, queued: u32)
    ensures
        *final(p) == s.ticked(*old(p), contended, queued > 0),
        contended || (s.busy(old(p).cpu) && queued > 0) ==> final(p).slice == 0,
        !contended && !(s.busy(old(p).cpu) && queued > 0) ==> final(p).slice == old(p).slice,
{
    tick_decided(s, p, contended, queued > 0);
}

fn tick_decided(s: &Cosmos, p: &mut TaskRef, contended: bool, waiting: bool)
    ensures
        *final(p) == s.ticked(*old(p), contended, waiting),
{
    if contended || (is_cpu_busy(s, p.cpu()) && waiting) {
        p.slice = 0;
    }
}

/// A task on a core that is not contended keeps its CPU while nobody waits for
/// it, and always where the busy test is off.
pub proof fn law_no_needless_preemption(s: Cosmos, p: TaskRef, waiting: bool)
    requires
        !waiting || s.cfg.busy_threshold == 0,
    ensures
        s.ticked(p, false, waiting) == p,
{
}

/// Without an idle CPU to move to, a task keeps its CPU while nobody waits for it,
/// and always where the busy test is off, whatever the sibling does.
pub proof fn law_full_machine_keeps_slice(s: Cosmos, p: TaskRef, idle: CpuMask, waiting: bool)
    requires
        idle@ == Set::<int>::empty(),
        !waiting || s.cfg.busy_threshold == 0,
    ensures
        s.ticked(p, s.contended(p.cpu, false, idle), waiting) == p,
{
}

/// A task has overrun exactly if the time since it was put on its CPU, on the
/// wrapping clock, is more than the base slice times its weight over 100.
pub proof fn law_overrun_is_longer_than_slice(s: Cosmos, p: TaskRef, tctx: TaskCtx, now: u64)
    ensures
        ({
            let ran = if now >= tctx.last_run_at {
                now - tctx.last_run_at
            } else {
                now - tctx.last_run_at + 0x1_0000_0000_0000_0000
            };
            s.overran(p, tctx, now) <==> ran > (if p.weight > 0 {
                s.cfg.slice_ns * p.weight / 100
            } else {
                s.cfg.slice_ns as int
            })
        }),
{
}

/// Every task loses its slice when its core is contended, and when its CPU has
/// reached the busy threshold and another task waits; whatever CPUs it may use.
/// In every other case it keeps its slice, and nothing else of it ever changes.
pub proof fn law_overrun_task_gives_up_cpu(
    s: Cosmos,
    before: TaskRef,
    after: TaskRef,
    contended: bool,
    waiting: bool,
)
    requires
        after == s.ticked(before, contended, waiting),
    ensures
        ({
            let loaded = 0 < s.cfg.busy_threshold && 0 <= before.cpu < s.nr_cpu_ids && before.cpu
                < MAX_CPUS && s.topo.cpu_util@[before.cpu as int] >= s.cfg.busy_threshold;
            after.slice == (if contended || (loaded && waiting) {
                0
            } else {
                before.slice
            })
        }),
        after == (TaskRef { slice: after.slice, ..before }),
{
}

/// A second reason to give up the CPU never saves a task: what preempts it alone
/// preempts it together with anything else.
pub proof fn law_more_pressure_preempts_too(
    s: Cosmos,
    p: TaskRef,
    contended: bool,
    waiting: bool,
)
    ensures
        s.ticked(p, true, waiting).slice == 0,
        s.ticked(p, contended, false).slice == 0 ==> s.ticked(p, contended, waiting).slice == 0,
        s.ticked(p, false, waiting).slice == 0 ==> s.ticked(p, contended, waiting).slice == 0,
{
}

} // verus!
