//! Start of the scheduler, arrival and departure of tasks, and set-up requests.
use crate::cosmos::state::{map_of, set_task_ctx, Cosmos, CpuCtx};
use crate::cosmos::task::{TaskCtx, TaskRef};
use crate::cosmos::topology::is_cpu_valid;
use crate::defs::{MAX_CPUS, SHARED_DSQ};
use std::collections::BTreeMap;
use vstd::prelude::*;

verus! {

/// How far the start of the scheduler has come.
#[derive(Clone, Copy, Debug, PartialEq, Eq, Structural)]
pub enum Init {
    /// Ask the kernel to create the queue `dsq` on `node`, or on no node in
    /// particular where that is negative.
    CreateDsq { dsq: u64, node: i32 },
    /// The start is over, with zero or the kernel's error.
    Done(i32),
}

/// A request to make two CPUs siblings.
#[derive(Clone, Copy, Debug, PartialEq, Eq, Structural)]
pub struct DomainArg {
    pub cpu_id: i32,
    pub sibling_cpu_id: i32,
}

/// A request that concerns one CPU.
#[derive(Clone, Copy, Debug, PartialEq, Eq, Structural)]
pub struct CpuArg {
    pub cpu_id: i32,
}

/// The CPU contexts with no events counted.
pub open spec fn cleared(cpus: Seq<CpuCtx>) -> Seq<CpuCtx> {
    cpus.map(|cpu: int, cctx: CpuCtx| CpuCtx { perf_events: 0, ..cctx })
}

impl Cosmos {
    pub open spec fn nr_nodes(self) -> i32 {
        self.cfg.nr_node_ids as i32
    }

    /// The queues that the scheduler needs, each with its node: one for each
    /// node, or a single one.
    pub open spec fn queues(self) -> Seq<(u64, i32)> {
        if self.cfg.numa_enabled {
            Seq::new(
                if self.nr_nodes() > 0 {
                    self.nr_nodes() as nat
                } else {
                    0
                },
                |node: int| (node as u64, node as i32),
            )
        } else {
            seq![(SHARED_DSQ, (-1) as i32)]
        }
    }

    /// The state in which `done` queues have been created.
    pub open spec fn init_state(self, done: int) -> Init {
        if done < self.queues().len() {
            Init::CreateDsq { dsq: self.queues()[done].0, node: self.queues()[done].1 }
        } else {
            Init::Done(0)
        }
    }

    /// Where the queue of `node` stands among the queues.
    pub open spec fn queue_index(self, node: i32) -> int {
        if self.cfg.numa_enabled {
            node as int
        } else {
            0
        }
    }

    /// The task map after `pid` left.
    pub open spec fn tasks_without(self, pid: u32) -> Option<Map<u32, TaskCtx>> {
        match self.tasks() {
            Some(m) => Some(m.remove(pid)),
            None => None,
        }
    }

    /// Everything but the three maps and the number of CPUs is as in `other`.
    pub open spec fn same_outside_maps(self, other: Cosmos) -> bool {
        &&& self.cfg == other.cfg
        &&& self.topo == other.topo
        &&& self.smt_sibling == other.smt_sibling
        &&& self.vtime_now == other.vtime_now
        &&& self.counters == other.counters
        &&& self.flat_last_cpu == other.flat_last_cpu
    }
}

fn clear_events(s: &mut Cosmos)
    ensures
        *final(s) == (Cosmos { cpu_ctxs: final(s).cpu_ctxs, ..*old(s) }),
        final(s).cpu_ctxs@ == cleared(old(s).cpu_ctxs@),
{
    let mut cpu: usize = 0;
    while cpu < MAX_CPUS
        invariant
            cpu <= MAX_CPUS,
            *s == (Cosmos { cpu_ctxs: s.cpu_ctxs, ..*old(s) }),
            forall|i: int|
                0 <= i < MAX_CPUS ==> #[trigger] s.cpu_ctxs@[i] == (if i < cpu {
                    CpuCtx { perf_events: 0, ..old(s).cpu_ctxs@[i] }
                } else {
                    old(s).cpu_ctxs@[i]
                }),
        decreases MAX_CPUS - cpu,
    {
        s.cpu_ctxs[cpu].perf_events = 0;
        cpu = cpu + 1;
    }
    assert(s.cpu_ctxs@ =~= cleared(old(s).cpu_ctxs@));
}

fn create_from(s: &mut Cosmos, node: i32) -> (r: Init)
    requires
        old(s).cfg.numa_enabled,
        node >= 0,
    ensures
        r == old(s).init_state(node as int),
        *final(s) == (Cosmos { cpu_ctxs: final(s).cpu_ctxs, ..*old(s) }),
        final(s).cpu_ctxs@ == (if r == Init::Done(0) {
            cleared(old(s).cpu_ctxs@)
        } else {
            old(s).cpu_ctxs@
        }),
{
    let nr_nodes: i32 = s.cfg.nr_node_ids as i32;
    if node < nr_nodes {
        return Init::CreateDsq { dsq: node as u64, node };
    }
    clear_events(s);
    Init::Done(0)
}

/// Starts the scheduler: takes over the number of CPUs, forgets every task and
/// node, and asks for the first queue.
pub fn cosmos_init(s: &mut Cosmos, nr_cpu_ids: u64) -> (r: Init)
    ensures
        r == old(s).init_state(0),
        final(s).nr_cpu_ids == nr_cpu_ids,
        final(s).tasks() == Some(Map::<u32, TaskCtx>::empty()),
        map_of(final(s).cpu_node_map) == Some(Map::<u32, u32>::empty()),
        map_of(final(s).gpu_pid_map) == Some(Map::<u32, u32>::empty()),
        final(s).same_outside_maps(*old(s)),
        final(s).cpu_ctxs@ == (if r == Init::Done(0) {
            cleared(old(s).cpu_ctxs@)
        } else {
            old(s).cpu_ctxs@
        }),
        old(s).capped() ==> final(s).capped(),
        forall|now: u64| #[trigger] old(s).recorded_by(now) ==> final(s).recorded_by(now),
{
    s.nr_cpu_ids = nr_cpu_ids;
    s.task_ctxs = Some(BTreeMap::new());
    s.cpu_node_map = Some(BTreeMap::new());
    s.gpu_pid_map = Some(BTreeMap::new());
    if s.cfg.numa_enabled {
        create_from(s, 0)
    } else {
        Init::CreateDsq { dsq: SHARED_DSQ, node: -1 }
    }
}

/// Goes on after the kernel tried to create the queue of `node` and answered
/// `ret`. An error ends the start.
pub fn init_created(s: &mut Cosmos, node: i32, ret: i32) -> (r: Init)
    requires
        old(s).cfg.numa_enabled ==> 0 <= node < old(s).nr_nodes(),
    ensures
        r == (if ret != 0 {
            Init::Done(ret)
        } else {
            old(s).init_state(old(s).queue_index(node) + 1)
        }),
        *final(s) == (Cosmos { cpu_ctxs: final(s).cpu_ctxs, ..*old(s) }),
        final(s).cpu_ctxs@ == (if r == Init::Done(0) {
            cleared(old(s).cpu_ctxs@)
        } else {
            old(s).cpu_ctxs@
        }),
        old(s).capped() ==> final(s).capped(),
        forall|now: u64| #[trigger] old(s).recorded_by(now) ==> final(s).recorded_by(now),
{
    if ret != 0 {
        return Init::Done(ret);
    }
    let r: Init = if s.cfg.numa_enabled {
        create_from(s, node + 1)
    } else {
        clear_events(s);
        Init::Done(0)
    };
    assert(forall|pid: u32| #[trigger] s.ctx_of(pid) == old(s).ctx_of(pid));
    r
}

/// Takes a new task in.
pub fn cosmos_init_task(s: &mut Cosmos, p: &TaskRef) -> (r: i32)
    ensures
        r == 0,
        final(s).same_outside_ctxs(*old(s)),
        final(s).cpu_ctxs == old(s).cpu_ctxs,
        final(s).tasks() == old(s).tasks_with(p.pid, TaskCtx::fresh()),
        old(s).capped() ==> final(s).capped(),
        forall|now: u64| #[trigger] old(s).recorded_by(now) ==> final(s).recorded_by(now),
{
    set_task_ctx(s, p.pid, TaskCtx::new());
    assert(forall|pid: u32| #[trigger]
        s.ctx_of(pid) == (if pid == p.pid && old(s).tasks() is Some {
            Some(TaskCtx::fresh())
        } else {
            old(s).ctx_of(pid)
        }));
    0
}

/// Lets a task go.
pub fn cosmos_exit_task(s: &mut Cosmos, p: &TaskRef)
    ensures
        final(s).same_outside_ctxs(*old(s)),
        final(s).cpu_ctxs == old(s).cpu_ctxs,
        final(s).tasks() == old(s).tasks_without(p.pid),
        old(s).capped() ==> final(s).capped(),
        forall|now: u64| #[trigger] old(s).recorded_by(now) ==> final(s).recorded_by(now),
{
    if let Some(m) = &mut s.task_ctxs {
        m.remove(&p.pid);
    }
    assert(forall|pid: u32| #[trigger]
        s.ctx_of(pid) == (if pid == p.pid {
            None
        } else {
            old(s).ctx_of(pid)
        }));
}

/// Makes one CPU the sibling of another. Both must exist.
pub fn enable_sibling_cpu(s: &mut Cosmos, input: &DomainArg) -> (r: i32)
    ensures
        r == (if old(s).valid(input.cpu_id) && old(s).valid(input.sibling_cpu_id) {
            0int
        } else {
            -1int
        }),
        *final(s) == (Cosmos { smt_sibling: final(s).smt_sibling, ..*old(s) }),
        final(s).smt_sibling@ == (if r == 0 {
            old(s).smt_sibling@.update(input.cpu_id as int, input.sibling_cpu_id)
        } else {
            old(s).smt_sibling@
        }),
        r == 0 ==> final(s).sibling(input.cpu_id) == input.sibling_cpu_id,
        forall|other: i32|
            other != input.cpu_id ==> #[trigger] final(s).sibling(other) == old(s).sibling(other),
{
    let cpu: i32 = input.cpu_id;
    let sibling: i32 = input.sibling_cpu_id;
    if !is_cpu_valid(s, cpu) || !is_cpu_valid(s, sibling) {
        return -1;
    }
    s.smt_sibling[cpu as usize] = sibling;
    0
}

/// Accepts a CPU of the primary domain. The domain itself is set from outside.
pub fn enable_primary_cpu(_input: &CpuArg) -> (r: i32)
    ensures
        r == 0,
{
    0
}

/// A task that was taken in has a fresh context, and no other task is affected.
pub proof fn law_new_task_is_fresh(before: Cosmos, after: Cosmos, pid: u32, other: u32)
    requires
        before.tasks() is Some,
        after.tasks() == before.tasks_with(pid, TaskCtx::fresh()),
        other != pid,
    ensures
        after.ctx_of(pid) == Some(TaskCtx::fresh()),
        after.ctx_of(other) == before.ctx_of(other),
{
}

/// A task that left is no longer known, and no other task is affected.
pub proof fn law_left_task_is_unknown(before: Cosmos, after: Cosmos, pid: u32, other: u32)
    requires
        after.tasks() == before.tasks_without(pid),
        other != pid,
    ensures
        after.ctx_of(pid) is None,
        after.ctx_of(other) == before.ctx_of(other),
        after.task_ctxs is Some <==> before.task_ctxs is Some,
{
}

/// Letting a task go that was taken in just before leaves the tasks as they
/// were, if the task was not known already.
pub proof fn law_exit_undoes_init(before: Cosmos, between: Cosmos, after: Cosmos, pid: u32)
    requires
        before.ctx_of(pid) is None,
        between.tasks() == before.tasks_with(pid, TaskCtx::fresh()),
        after.tasks() == between.tasks_without(pid),
    ensures
        after.tasks() == before.tasks(),
{
    if let Some(m) = before.tasks() {
        assert(m.insert(pid, TaskCtx::fresh()).remove(pid) =~= m);
    }
}

/// Before the scheduler has started no task can be taken in.
pub proof fn law_no_tasks_before_start(before: Cosmos, after: Cosmos, pid: u32)
    requires
        before.tasks() is None,
        after.tasks() == before.tasks_with(pid, TaskCtx::fresh()),
    ensures
        after.ctx_of(pid) is None,
{
}

/// The queue that a CPU consumes from is one of those that are created at the
/// start, if the CPU is of a node that is counted.
pub proof fn law_consumed_queue_is_created(s: Cosmos, cpu: i32)
    requires
        s.cfg.numa_enabled ==> 0 <= s.node_of(cpu) < s.nr_nodes(),
    ensures
        0 <= s.queue_index(s.node_of(cpu)) < s.queues().len(),
        s.queues()[s.queue_index(s.node_of(cpu))].0 == s.queue_of(cpu),
{
}

/// Queues are created one by one, each once, and the start succeeds when the
/// last one was created.
pub proof fn law_queues_are_created_once(s: Cosmos, i: int, j: int)
    requires
        0 <= i < j <= s.queues().len(),
    ensures
        s.init_state(i) is CreateDsq,
        s.queue_index(s.init_state(i)->node) == i,
        s.init_state(i) != s.init_state(j),
        s.init_state(s.queues().len() as int) == Init::Done(0),
{
}

/// With NUMA the start creates queue `k` on node `k` for each node, one after the
/// other. Without, it creates queue 0 on no node. Then it is over.
pub proof fn law_start_creates_queues(s: Cosmos, k: int)
    requires
        s.cfg.nr_node_ids <= i32::MAX,
        0 <= k,
    ensures
        s.cfg.numa_enabled && k < s.cfg.nr_node_ids ==> s.init_state(k) == (Init::CreateDsq {
            dsq: k as u64,
            node: k as i32,
        }),
        s.cfg.numa_enabled && k >= s.cfg.nr_node_ids ==> s.init_state(k) == Init::Done(0),
        !s.cfg.numa_enabled && k == 0 ==> s.init_state(k) == (Init::CreateDsq {
            dsq: 0,
            node: -1i32,
        }),
        !s.cfg.numa_enabled && k > 0 ==> s.init_state(k) == Init::Done(0),
        s.nr_nodes() == s.cfg.nr_node_ids,
{
}

/// The queue of a node is created after those of all nodes below it. Without NUMA
/// there is one queue.
pub proof fn law_queue_order_is_node_order(s: Cosmos, node: i32)
    ensures
        s.cfg.numa_enabled ==> s.queue_index(node) == node,
        !s.cfg.numa_enabled ==> s.queue_index(node) == 0,
        s.nr_nodes() == s.cfg.nr_node_ids as i32,
        s.cfg.numa_enabled && s.nr_nodes() <= 0 ==> s.init_state(0) == Init::Done(0),
{
}

/// Clearing forgets the events of every CPU and keeps its load.
pub proof fn law_clearing_forgets_events(cpus: Seq<CpuCtx>, cpu: int)
    requires
        0 <= cpu < cpus.len(),
    ensures
        cleared(cpus).len() == cpus.len(),
        cleared(cpus)[cpu].perf_events == 0,
        cleared(cpus)[cpu].perf_lvl == cpus[cpu].perf_lvl,
        cleared(cpus)[cpu].last_update == cpus[cpu].last_update,
{
}

/// What is the same outside the maps differs in the maps, the contexts and the
/// number of CPUs at most.
pub proof fn law_only_maps_differ(a: Cosmos, b: Cosmos)
    requires
        a.same_outside_maps(b),
    ensures
        a == (Cosmos {
            nr_cpu_ids: a.nr_cpu_ids,
            cpu_node_map: a.cpu_node_map,
            gpu_pid_map: a.gpu_pid_map,
            task_ctxs: a.task_ctxs,
            cpu_ctxs: a.cpu_ctxs,
            ..b
        }),
{
}

} // verus!
