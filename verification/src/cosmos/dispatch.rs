//! What a CPU runs next.
use crate::cosmos::state::Cosmos;
use crate::cosmos::task::TaskRef;
use crate::cosmos::topology::{
    is_core_contended, is_primary_cpu, is_smt_contended, masks_meet, shared_dsq, smt_sibling,
};
use crate::cosmos::weight::task_slice;
use crate::cpumask::CpuMask;
use crate::defs::SCX_TASK_QUEUED;
use vstd::prelude::*;

verus! {

/// How far a dispatch has come.
#[derive(Clone, Copy, Debug, PartialEq, Eq, Structural)]
pub enum Dispatch {
    /// Nothing is left to do.
    Done,
    /// Ask the kernel to move a task from `dsq` to the CPU.
    MoveToLocal { dsq: u64 },
    /// Ask the kernel to test and clear the idle state of `cpu`, the sibling of
    /// the CPU.
    ProbeSibling { cpu: i32 },
    /// Ask which CPUs are idle.
    ReadIdle,
}

impl Cosmos {
    /// The task may stay on `cpu`: it has no other choice, or the core is not
    /// contended and no CPU of the primary domain is to be preferred.
    pub open spec fn keeps(self, p: TaskRef, cpu: i32, contended: bool) -> bool {
        &&& p.scx_flags & SCX_TASK_QUEUED != 0
        &&& p.pinned() || (!(self.cfg.avoid_smt && contended) && (self.primary(cpu)
            || !self.reaches_primary(p)))
    }

    /// A CPU of the primary domain is open to the task.
    pub open spec fn reaches_primary(self, p: TaskRef) -> bool {
        self.topo.primary_mask matches Some(mask) && masks_meet(p.cpus_allowed, mask)
    }

    /// Whether the task may stay depends on the sibling of its CPU.
    pub open spec fn asks_sibling(self, p: TaskRef) -> bool {
        &&& p.scx_flags & SCX_TASK_QUEUED != 0
        &&& !p.pinned()
        &&& self.cfg.avoid_smt
        &&& self.cfg.smt_enabled
    }

    /// The task that ran last, after it was decided whether it stays.
    pub open spec fn redispatched(self, p: TaskRef, cpu: i32, contended: bool) -> TaskRef {
        if self.keeps(p, cpu, contended) {
            TaskRef { slice: self.slice_for(p) as u64, ..p }
        } else {
            p
        }
    }
}

/// Whether a task may go on running on `cpu`, given whether the CPU's core is
/// contended.
pub fn keep_running(s: &Cosmos, p: &TaskRef, cpu: i32, contended: bool) -> (r: bool)
    ensures
        r == s.keeps(*p, cpu, contended),
{
    if !p.is_queued() {
        return false;
    }
    if p.is_pcpu() {
        return true;
    }
    if s.cfg.avoid_smt && contended {
        return false;
    }
    if !is_primary_cpu(s, cpu) {
        if let Some(mask) = &s.topo.primary_mask {
            if p.cpus_allowed.intersects(mask) {
                return false;
            }
        }
    }
    true
}

/// Whether the sibling of a CPU has to be asked before it is decided if a task
/// may go on there.
pub fn needs_sibling(s: &Cosmos, p: &TaskRef) -> (r: bool)
    ensures
        r == s.asks_sibling(*p),
{
    p.is_queued() && !p.is_pcpu() && s.cfg.avoid_smt && s.cfg.smt_enabled
}

/// Starts a dispatch: a task of the shared queue goes first.
pub fn cosmos_dispatch(s: &Cosmos, cpu: i32) -> (r: Dispatch)
    ensures
        r == (Dispatch::MoveToLocal { dsq: s.queue_of(cpu) }),
{
    Dispatch::MoveToLocal { dsq: shared_dsq(s, cpu) }
}

/// Goes on after the kernel tried to move a task. With none to move, the task
/// that ran last may go on for another slice.
pub fn dispatch_moved(s: &Cosmos, cpu: i32, prev: &mut Option<TaskRef>, moved: bool) -> (r:
    Dispatch)
    requires
        !moved ==> (*old(prev) matches Some(p) ==> s.keeps(p, cpu, false) && !s.asks_sibling(p)
            ==> s.slice_fits(p)),
    ensures
        match *old(prev) {
            Some(p) if !moved => if s.asks_sibling(p) {
                r == (Dispatch::ProbeSibling { cpu: s.sibling(cpu) }) && *final(prev) == *old(prev)
            } else {
                r == Dispatch::Done && *final(prev) == Some(s.redispatched(p, cpu, false))
            },
            _ => r == Dispatch::Done && *final(prev) == *old(prev),
        },
{
    if moved {
        return Dispatch::Done;
    }
    match prev {
        Some(p) => {
            if needs_sibling(s, p) {
                return Dispatch::ProbeSibling { cpu: smt_sibling(s, cpu) };
            }
            dispatch_decided(s, cpu, p, false);
        },
        None => {},
    }
    Dispatch::Done
}

/// Goes on after the kernel was asked for the idle state of the sibling. Where
/// that was not idle, it matters whether another CPU is.
pub fn dispatch_sibling_probed(s: &Cosmos, cpu: i32, p: &mut TaskRef, claimed: bool) -> (r:
    Dispatch)
    requires
        claimed || !s.cfg.smt_enabled ==> (s.keeps(*old(p), cpu, false) ==> s.slice_fits(*old(p))),
    ensures
        if s.cfg.smt_enabled && !claimed {
            r == Dispatch::ReadIdle && *final(p) == *old(p)
        } else {
            r == Dispatch::Done && *final(p) == s.redispatched(*old(p), cpu, false)
        },
{
    if is_smt_contended(s, claimed, true) {
        return Dispatch::ReadIdle;
    }
    dispatch_decided(s, cpu, p, false);
    Dispatch::Done
}

/// Ends a dispatch after the idle CPUs were read.
pub fn dispatch_idle_read(s: &Cosmos, cpu: i32, p: &mut TaskRef, idle: &CpuMask)
    requires
        s.keeps(*old(p), cpu, s.contended(cpu, false, *idle)) ==> s.slice_fits(*old(p)),
    ensures
        *final(p) == s.redispatched(*old(p), cpu, s.contended(cpu, false, *idle)),
{
    let contended: bool = is_core_contended(s, cpu, idle);
    dispatch_decided(s, cpu, p, contended);
}

fn dispatch_decided(s: &Cosmos, cpu: i32, p: &mut TaskRef, contended: bool)
    requires
        s.keeps(*old(p), cpu, contended) ==> s.slice_fits(*old(p)),
    ensures
        *final(p) == s.redispatched(*old(p), cpu, contended),
{
    if keep_running(s, p, cpu, contended) {
        p.slice = task_slice(s, p);
    }
}

/// A task that is pinned and ready always goes on. One that is not ready never
/// does.
pub proof fn law_pinned_goes_on(s: Cosmos, p: TaskRef, cpu: i32, contended: bool)
    ensures
        p.pinned() ==> (s.keeps(p, cpu, contended) <==> p.scx_flags & SCX_TASK_QUEUED != 0),
        p.scx_flags & SCX_TASK_QUEUED == 0 ==> s.redispatched(p, cpu, contended) == p,
{
}

/// Where every CPU is primary and shared cores are not avoided, a ready task
/// always goes on.
pub proof fn law_ready_goes_on(s: Cosmos, p: TaskRef, cpu: i32, contended: bool)
    requires
        p.scx_flags & SCX_TASK_QUEUED != 0,
        s.cfg.primary_all,
        !s.cfg.avoid_smt,
    ensures
        s.keeps(p, cpu, contended),
{
}

/// Where every CPU is primary and none is idle, a ready task always goes on.
pub proof fn law_full_machine_goes_on(s: Cosmos, p: TaskRef, cpu: i32, idle: CpuMask)
    requires
        p.scx_flags & SCX_TASK_QUEUED != 0,
        s.cfg.primary_all,
        idle@ == Set::<int>::empty(),
    ensures
        s.keeps(p, cpu, s.contended(cpu, false, idle)),
{
}

/// A ready task goes on if it is pinned. Else it goes on unless shared cores are
/// avoided and its core is contended, or its CPU is outside the primary mask and
/// the task may use a CPU inside. A task that is not ready never goes on.
pub proof fn law_who_goes_on(s: Cosmos, p: TaskRef, cpu: i32, contended: bool)
    ensures
        ({
            let ready = p.scx_flags & 1 != 0;
            let outside = !s.cfg.primary_all && (s.topo.primary_mask matches Some(m)
                && !m@.contains(cpu as int));
            let drawn = s.topo.primary_mask matches Some(m) && exists|c: int|
                p.cpus_allowed@.contains(c) && m@.contains(c);
            s.keeps(p, cpu, contended) <==> ready && (p.nr_cpus_allowed == 1 || (!(s.cfg.avoid_smt
                && contended) && !(outside && drawn)))
        }),
{
}

/// The sibling is asked exactly for a ready task that is not pinned, where shared
/// cores are to be avoided and siblings are looked at.
pub proof fn law_who_asks_sibling(s: Cosmos, p: TaskRef)
    ensures
        s.asks_sibling(p) <==> p.scx_flags & 1 != 0 && p.nr_cpus_allowed != 1 && s.cfg.avoid_smt
            && s.cfg.smt_enabled,
{
}

/// A task that goes on gets a whole new slice, the base slice times its weight
/// over 100. One that does not is left as it is.
pub proof fn law_going_on_renews_slice(s: Cosmos, p: TaskRef, cpu: i32, contended: bool)
    ensures
        ({
            let after = s.redispatched(p, cpu, contended);
            &&& after == (TaskRef { slice: after.slice, ..p })
            &&& !s.keeps(p, cpu, contended) ==> after.slice == p.slice
            &&& s.keeps(p, cpu, contended) && p.weight > 0 ==> after.slice == (s.cfg.slice_ns
                * p.weight / 100) as u64
            &&& s.keeps(p, cpu, contended) && p.weight == 0 ==> after.slice == s.cfg.slice_ns
        }),
{
}

} // verus!
