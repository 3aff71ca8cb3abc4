//! What the scheduler knows of a task.
use crate::cpumask::CpuMask;
use crate::defs::{PF_EXITING, SCX_TASK_QUEUED};
use vstd::prelude::*;

verus! {

/// The fields of a kernel task that the scheduler reads and writes. The caller
/// fills it in from the kernel before a callback and writes `dsq_vtime` and
/// `slice` back after it.
#[derive(Clone)]
pub struct TaskRef {
    pub pid: u32,
    pub flags: u32,
    pub nr_cpus_allowed: u32,
    /// Identity of the address space, zero for a kernel thread.
    pub mm: u64,
    /// CPUs that the task may run on.
    pub cpus_allowed: CpuMask,
    /// The kernel's choice of a first CPU out of `cpus_allowed`.
    pub first_allowed: i32,
    pub dsq_vtime: u64,
    pub slice: u64,
    pub weight: u32,
    pub scx_flags: u32,
    /// CPU that the task is assigned to.
    pub cpu: i32,
    pub running: bool,
}

impl TaskRef {
    pub open spec fn pinned(self) -> bool {
        self.nr_cpus_allowed == 1
    }

    pub open spec fn allows(self, cpu: i32) -> bool {
        self.cpus_allowed@.contains(cpu as int)
    }

    pub fn cpu(&self) -> (r: i32)
        ensures
            r == self.cpu,
    {
        self.cpu
    }

    pub fn is_running(&self) -> (r: bool)
        ensures
            r == self.running,
    {
        self.running
    }

    pub fn is_queued(&self) -> (r: bool)
        ensures
            r == (self.scx_flags & SCX_TASK_QUEUED != 0),
    {
        self.scx_flags & SCX_TASK_QUEUED != 0
    }

    /// The task may run on a single CPU.
    pub fn is_pcpu(&self) -> (r: bool)
        ensures
            r == self.pinned(),
    {
        self.nr_cpus_allowed == 1
    }

    pub fn cpu_allowed(&self, cpu: i32) -> (r: bool)
        ensures
            r == self.allows(cpu),
    {
        self.cpus_allowed.test_cpu(cpu)
    }
}

/// What is kept of a task between callbacks.
#[derive(Clone, Copy, Debug, PartialEq, Eq, Structural)]
pub struct TaskCtx {
    pub last_run_at: u64,
    pub exec_runtime: u64,
    pub wakeup_freq: u64,
    pub last_woke_at: u64,
    pub perf_events: u64,
    pub perf_sticky_events: u64,
}

impl TaskCtx {
    pub open spec fn fresh() -> TaskCtx {
        TaskCtx {
            last_run_at: 0,
            exec_runtime: 0,
            wakeup_freq: 0,
            last_woke_at: 0,
            perf_events: 0,
            perf_sticky_events: 0,
        }
    }

    pub fn new() -> (r: Self)
        ensures
            r == TaskCtx::fresh(),
    {
        TaskCtx {
            last_run_at: 0,
            exec_runtime: 0,
            wakeup_freq: 0,
            last_woke_at: 0,
            perf_events: 0,
            perf_sticky_events: 0,
        }
    }
}

/// A task that is not running is free to move.
pub fn task_should_migrate(p: &TaskRef) -> (r: bool)
    ensures
        r == !p.running,
{
    !p.is_running()
}

/// The waker and the task that it wakes share an address space, and the waker
/// is not about to leave.
pub open spec fn shares_memory(waker: TaskRef, wakee: TaskRef) -> bool {
    waker.flags & PF_EXITING == 0 && wakee.mm != 0 && wakee.mm == waker.mm
}

/// A new context holds no time, no run, no wakeup and no event.
pub proof fn law_fresh_context_is_blank()
    ensures
        TaskCtx::fresh().last_run_at == 0,
        TaskCtx::fresh().exec_runtime == 0,
        TaskCtx::fresh().wakeup_freq == 0,
        TaskCtx::fresh().last_woke_at == 0,
        TaskCtx::fresh().perf_events == 0,
        TaskCtx::fresh().perf_sticky_events == 0,
{
}

/// A task is pinned exactly if it may use one CPU, may run where its mask says,
/// and shares memory with a waker that is not leaving and has the same, existing
/// address space.
pub proof fn law_task_fields_decide(p: TaskRef, waker: TaskRef, cpu: i32)
    ensures
        p.pinned() <==> p.nr_cpus_allowed == 1,
        p.allows(cpu) <==> p.cpus_allowed@.contains(cpu as int),
        shares_memory(waker, p) <==> waker.flags & 0x0000_0004 == 0 && waker.mm == p.mm && p.mm
            != 0,
{
}

} // verus!
