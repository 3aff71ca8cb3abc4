//! Settings and state of the scheduler.
use crate::cosmos::task::TaskCtx;
use crate::cpumask::CpuMask;
use crate::defs::{MAX_CPUS, MAX_NODES, MAX_WAKEUP_FREQ, SCX_CPUPERF_ONE};
use std::collections::BTreeMap;
use vstd::prelude::*;

verus! {

/// What is kept of a CPU between callbacks.
#[derive(Clone, Copy, Debug, PartialEq, Eq, Structural)]
pub struct CpuCtx {
    pub last_update: u64,
    pub perf_lvl: u64,
    pub perf_events: u64,
}

impl CpuCtx {
    pub open spec fn fresh() -> CpuCtx {
        CpuCtx { last_update: 0, perf_lvl: 0, perf_events: 0 }
    }

    pub fn new() -> (r: Self)
        ensures
            r == CpuCtx::fresh(),
    {
        CpuCtx { last_update: 0, perf_lvl: 0, perf_events: 0 }
    }
}

/// Switches and tunables, fixed when the scheduler is loaded.
#[derive(Clone, Copy, Debug, PartialEq, Eq, Structural)]
pub struct Config {
    /// Base time slice in nanoseconds.
    pub slice_ns: u64,
    /// Run time that a sleeping task can be credited with, in nanoseconds.
    pub slice_lag: u64,
    /// Utilisation from which a CPU counts as busy; zero turns the test off.
    pub busy_threshold: u64,
    pub nr_node_ids: u64,
    pub perf_config: u64,
    pub perf_threshold: u64,
    pub perf_sticky: u64,
    pub perf_sticky_threshold: u64,
    /// Every CPU belongs to the primary domain.
    pub primary_all: bool,
    pub flat_idle_scan: bool,
    pub smt_enabled: bool,
    pub preferred_idle_scan: bool,
    pub all_cpus_same_capacity: bool,
    pub cpufreq_enabled: bool,
    pub numa_enabled: bool,
    pub gpu_enabled: bool,
    pub avoid_smt: bool,
    pub mm_affinity: bool,
    pub tick_preempt: bool,
    pub no_wake_sync: bool,
    pub no_early_clear: bool,
}

impl Config {
    pub open spec fn standard() -> Config {
        Config {
            slice_ns: 1_000_000,
            slice_lag: 20_000_000,
            busy_threshold: 0,
            nr_node_ids: 0,
            perf_config: 0,
            perf_threshold: 0,
            perf_sticky: 0,
            perf_sticky_threshold: 0,
            primary_all: true,
            flat_idle_scan: false,
            smt_enabled: true,
            preferred_idle_scan: false,
            all_cpus_same_capacity: false,
            cpufreq_enabled: true,
            numa_enabled: false,
            gpu_enabled: true,
            avoid_smt: true,
            mm_affinity: false,
            tick_preempt: true,
            no_wake_sync: false,
            no_early_clear: false,
        }
    }

    pub fn new() -> (r: Self)
        ensures
            r == Config::standard(),
    {
        Config {
            slice_ns: 1_000_000,
            slice_lag: 20_000_000,
            busy_threshold: 0,
            nr_node_ids: 0,
            perf_config: 0,
            perf_threshold: 0,
            perf_sticky: 0,
            perf_sticky_threshold: 0,
            primary_all: true,
            flat_idle_scan: false,
            smt_enabled: true,
            preferred_idle_scan: false,
            all_cpus_same_capacity: false,
            cpufreq_enabled: true,
            numa_enabled: false,
            gpu_enabled: true,
            avoid_smt: true,
            mm_affinity: false,
            tick_preempt: true,
            no_wake_sync: false,
            no_early_clear: false,
        }
    }
}

/// Tables that are filled in from outside and only read here.
pub struct Topology {
    pub cpu_util: [u64; MAX_CPUS],
    pub cpu_capacity: [u64; MAX_CPUS],
    /// CPUs in the order in which a preferred scan visits them.
    pub preferred_cpus: [u64; MAX_CPUS],
    /// CPUs of each node, where they are known.
    pub node_cpumask: Vec<Option<CpuMask>>,
    pub primary_mask: Option<CpuMask>,
}

/// How often each kind of direct placement was made.
#[derive(Clone, Copy, Debug, PartialEq, Eq, Structural)]
pub struct Counters {
    pub nr_event_dispatches: u64,
    pub nr_ev_sticky_dispatches: u64,
    pub nr_gpu_dispatches: u64,
}

/// The deadline scheduler.
pub struct Cosmos {
    pub cfg: Config,
    pub topo: Topology,
    pub nr_cpu_ids: u64,
    /// Node of each CPU. Absent until the scheduler is initialised.
    pub cpu_node_map: Option<BTreeMap<u32, u32>>,
    /// Node of the GPU that a process uses. Absent until initialised.
    pub gpu_pid_map: Option<BTreeMap<u32, u32>>,
    /// The other hardware thread of each CPU's core, negative for none.
    pub smt_sibling: [i32; MAX_CPUS],
    /// Context of each task by pid. Absent until initialised.
    pub task_ctxs: Option<BTreeMap<u32, TaskCtx>>,
    pub cpu_ctxs: [CpuCtx; MAX_CPUS],
    /// Virtual time of the task that ran last and furthest.
    pub vtime_now: u64,
    pub counters: Counters,
    /// Where the next rotating idle scan starts.
    pub flat_last_cpu: u32,
}

/// The contents of a map that may be absent.
pub open spec fn map_of<V>(map: Option<BTreeMap<u32, V>>) -> Option<Map<u32, V>> {
    match map {
        Some(m) => Some(m@),
        None => None,
    }
}

/// The entry of `key` in a map that may be absent.
pub open spec fn entry<V>(map: Option<Map<u32, V>>, key: u32) -> Option<V> {
    match map {
        Some(m) => if m.contains_key(key) {
            Some(m[key])
        } else {
            None
        },
        None => None,
    }
}

impl Cosmos {
    /// The tasks that are known, by pid.
    pub open spec fn tasks(self) -> Option<Map<u32, TaskCtx>> {
        map_of(self.task_ctxs)
    }

    pub open spec fn ctx_of(self, pid: u32) -> Option<TaskCtx> {
        entry(self.tasks(), pid)
    }

    /// The task map after the context of `pid` became `tctx`.
    pub open spec fn tasks_with(self, pid: u32, tctx: TaskCtx) -> Option<Map<u32, TaskCtx>> {
        match self.tasks() {
            Some(m) => Some(m.insert(pid, tctx)),
            None => None,
        }
    }

    /// Everything but the task contexts and the CPU contexts is as in `other`.
    pub open spec fn same_outside_ctxs(self, other: Cosmos) -> bool {
        &&& self.cfg == other.cfg
        &&& self.topo == other.topo
        &&& self.nr_cpu_ids == other.nr_cpu_ids
        &&& self.cpu_node_map == other.cpu_node_map
        &&& self.gpu_pid_map == other.gpu_pid_map
        &&& self.smt_sibling == other.smt_sibling
        &&& self.vtime_now == other.vtime_now
        &&& self.counters == other.counters
        &&& self.flat_last_cpu == other.flat_last_cpu
    }

    /// Every recorded time is `now` or earlier.
    pub open spec fn recorded_by(self, now: u64) -> bool {
        &&& forall|pid: u32|
            #![trigger self.ctx_of(pid)]
            self.ctx_of(pid) matches Some(tctx) ==> tctx.last_run_at <= now && tctx.last_woke_at
                <= now
        &&& forall|cpu: int|
            0 <= cpu < MAX_CPUS ==> (#[trigger] self.cpu_ctxs@[cpu]).last_update <= now
    }

    /// Wakeup frequencies, credited run times and CPU loads are within their caps.
    pub open spec fn capped(self) -> bool {
        &&& forall|pid: u32|
            #![trigger self.ctx_of(pid)]
            self.ctx_of(pid) matches Some(tctx) ==> tctx.wakeup_freq <= MAX_WAKEUP_FREQ
                && tctx.exec_runtime <= self.cfg.slice_lag
        &&& forall|cpu: int|
            0 <= cpu < MAX_CPUS ==> (#[trigger] self.cpu_ctxs@[cpu]).perf_lvl <= SCX_CPUPERF_ONE
    }

    /// The state at load time: nothing is known of any task, every CPU has full
    /// capacity and no sibling.
    pub fn new() -> (s: Self)
        ensures
            s.cfg == Config::standard(),
            s.nr_cpu_ids == 0,
            s.cpu_node_map is None,
            s.gpu_pid_map is None,
            s.task_ctxs is None,
            s.vtime_now == 0,
            s.counters == (Counters {
                nr_event_dispatches: 0,
                nr_ev_sticky_dispatches: 0,
                nr_gpu_dispatches: 0,
            }),
            s.flat_last_cpu == 0,
            s.topo.primary_mask is None,
            forall|cpu: int|
                0 <= cpu < MAX_CPUS ==> #[trigger] s.smt_sibling@[cpu] == -1,
            forall|cpu: int|
                0 <= cpu < MAX_CPUS ==> #[trigger] s.cpu_ctxs@[cpu] == CpuCtx::fresh(),
            forall|cpu: int| 0 <= cpu < MAX_CPUS ==> #[trigger] s.topo.cpu_util@[cpu] == 0,
            forall|cpu: int|
                0 <= cpu < MAX_CPUS ==> #[trigger] s.topo.cpu_capacity@[cpu] == SCX_CPUPERF_ONE,
            forall|cpu: int| 0 <= cpu < MAX_CPUS ==> #[trigger] s.topo.preferred_cpus@[cpu] == 0,
            s.topo.node_cpumask@.len() == MAX_NODES,
            forall|node: int|
                0 <= node < MAX_NODES ==> #[trigger] s.topo.node_cpumask@[node] is None,
            s.capped(),
            s.recorded_by(0),
    {
        let mut node_cpumask: Vec<Option<CpuMask>> = Vec::new();
        while node_cpumask.len() < MAX_NODES
            invariant
                node_cpumask@.len() <= MAX_NODES,
                forall|node: int|
                    0 <= node < node_cpumask@.len() ==> #[trigger] node_cpumask@[node] is None,
            decreases MAX_NODES - node_cpumask@.len(),
        {
            node_cpumask.push(None);
        }
        Cosmos {
            cfg: Config::new(),
            topo: Topology {
                cpu_util: [0u64;MAX_CPUS],
                cpu_capacity: [SCX_CPUPERF_ONE;MAX_CPUS],
                preferred_cpus: [0u64;MAX_CPUS],
                node_cpumask,
                primary_mask: None,
            },
            nr_cpu_ids: 0,
            cpu_node_map: None,
            gpu_pid_map: None,
            smt_sibling: [-1i32;MAX_CPUS],
            task_ctxs: None,
            cpu_ctxs: [CpuCtx::new();MAX_CPUS],
            vtime_now: 0,
            counters: Counters {
                nr_event_dispatches: 0,
                nr_ev_sticky_dispatches: 0,
                nr_gpu_dispatches: 0,
            },
            flat_last_cpu: 0,
        }
    }
}

/// The base time slice.
pub fn slice_ns(s: &Cosmos) -> (r: u64)
    ensures
        r == s.cfg.slice_ns,
{
    s.cfg.slice_ns
}

/// The run time that a sleeping task can be credited with.
pub fn slice_lag(s: &Cosmos) -> (r: u64)
    ensures
        r == s.cfg.slice_lag,
{
    s.cfg.slice_lag
}

/// The number of CPUs.
pub fn nr_cpu_ids(s: &Cosmos) -> (r: u64)
    ensures
        r == s.nr_cpu_ids,
{
    s.nr_cpu_ids
}

/// The entry of `key` in a map that may be absent.
pub fn lookup<V: Copy>(map: &Option<BTreeMap<u32, V>>, key: u32) -> (r: Option<V>)
    ensures
        r == entry(map_of(*map), key),
{
    match map {
        Some(m) => match m.get(&key) {
            Some(value) => Some(*value),
            None => None,
        },
        None => None,
    }
}

/// The context of a known task.
pub fn get_task_ctx(s: &Cosmos, pid: u32) -> (r: Option<TaskCtx>)
    ensures
        r == s.ctx_of(pid),
{
    lookup(&s.task_ctxs, pid)
}

/// Stores the context of a task. Before initialisation there is nowhere to
/// store it.
pub fn set_task_ctx(s: &mut Cosmos, pid: u32, tctx: TaskCtx)
    ensures
        final(s).same_outside_ctxs(*old(s)),
        final(s).cpu_ctxs == old(s).cpu_ctxs,
        final(s).tasks() == old(s).tasks_with(pid, tctx),
{
    if let Some(m) = &mut s.task_ctxs {
        m.insert(pid, tctx);
    }
}

/// The context of a CPU of the table.
pub fn get_cpu_ctx(s: &Cosmos, cpu: i32) -> (r: Option<CpuCtx>)
    ensures
        r == (if 0 <= cpu < MAX_CPUS {
            Some(s.cpu_ctxs@[cpu as int])
        } else {
            None
        }),
{
    if cpu < 0 || cpu as usize >= MAX_CPUS {
        return None;
    }
    Some(s.cpu_ctxs[cpu as usize])
}

/// Caps and recorded times concern the contexts alone: where these and the
/// settings agree, so do they.
pub proof fn law_records_are_contexts(a: Cosmos, b: Cosmos, now: u64)
    requires
        a.cfg == b.cfg,
        a.tasks() == b.tasks(),
        a.cpu_ctxs@ == b.cpu_ctxs@,
    ensures
        a.capped() <==> b.capped(),
        a.recorded_by(now) <==> b.recorded_by(now),
{
    assert(forall|pid: u32| #[trigger] a.ctx_of(pid) == b.ctx_of(pid));
    assert(forall|pid: u32| #[trigger] b.ctx_of(pid) == a.ctx_of(pid));
}

/// The settings and the CPU contexts that the scheduler starts from.
pub proof fn law_standard_settings()
    ensures
        ({
            let c = Config::standard();
            &&& c.slice_ns == 1_000_000 && c.slice_lag == 20_000_000
            &&& c.busy_threshold == 0 && c.nr_node_ids == 0
            &&& c.perf_config == 0 && c.perf_threshold == 0
            &&& c.perf_sticky == 0 && c.perf_sticky_threshold == 0
            &&& c.primary_all && c.smt_enabled && c.cpufreq_enabled && c.gpu_enabled
            &&& c.avoid_smt && c.tick_preempt
            &&& !c.flat_idle_scan && !c.preferred_idle_scan && !c.all_cpus_same_capacity
            &&& !c.numa_enabled && !c.mm_affinity && !c.no_wake_sync && !c.no_early_clear
        }),
        CpuCtx::fresh().last_update == 0,
        CpuCtx::fresh().perf_lvl == 0,
        CpuCtx::fresh().perf_events == 0,
{
}

/// A task is known exactly if the map is there and holds its pid, and then by
/// what the map holds.
pub proof fn law_context_is_map_entry(s: Cosmos, pid: u32, tctx: TaskCtx)
    ensures
        s.ctx_of(pid) == Some(tctx) <==> (s.task_ctxs matches Some(m) && m@.contains_key(pid)
            && m@[pid] == tctx),
        s.tasks() is Some <==> s.task_ctxs is Some,
{
}

/// An entry that may be absent is what the map holds under the key.
pub proof fn law_entry_is_map_value(map: Option<BTreeMap<u32, u32>>, key: u32, value: u32)
    ensures
        entry(map_of(map), key) == Some(value) <==> (map matches Some(m) && m@.contains_key(key)
            && m@[key] == value),
{
}

/// Storing a context is read back under its pid and changes no other task;
/// without a map nothing is stored.
pub proof fn law_stored_context_is_read_back(
    before: Cosmos,
    after: Cosmos,
    pid: u32,
    other: u32,
    tctx: TaskCtx,
)
    requires
        after.tasks() == before.tasks_with(pid, tctx),
    ensures
        before.task_ctxs is Some ==> after.ctx_of(pid) == Some(tctx),
        before.task_ctxs is None ==> after.task_ctxs is None,
        other != pid ==> after.ctx_of(other) == before.ctx_of(other),
{
}

/// What is the same outside the contexts differs in the contexts at most.
pub proof fn law_only_contexts_differ(a: Cosmos, b: Cosmos)
    requires
        a.same_outside_ctxs(b),
    ensures
        a == (Cosmos { task_ctxs: a.task_ctxs, cpu_ctxs: a.cpu_ctxs, ..b }),
{
}

/// Recorded times and caps, task by task and CPU by CPU.
pub proof fn law_records_and_caps(s: Cosmos, now: u64, pid: u32, tctx: TaskCtx, cpu: int)
    requires
        s.ctx_of(pid) == Some(tctx),
        0 <= cpu < 1024,
    ensures
        s.recorded_by(now) ==> tctx.last_run_at <= now && tctx.last_woke_at <= now
            && s.cpu_ctxs@[cpu].last_update <= now,
        s.capped() ==> tctx.wakeup_freq <= 1024 && tctx.exec_runtime <= s.cfg.slice_lag
            && s.cpu_ctxs@[cpu].perf_lvl <= 1024,
{
}

} // verus!
