//! Questions about CPUs and NUMA nodes.
use crate::cosmos::state::{entry, lookup, map_of, nr_cpu_ids, Cosmos};
use crate::cosmos::task::{shares_memory, TaskRef};
use crate::cpumask::CpuMask;
use crate::defs::{MAX_CPUS, MAX_NODES, PF_EXITING, SCX_CPUPERF_ONE, SHARED_DSQ};
use vstd::prelude::*;

verus! {

impl Cosmos {
    /// Node of a CPU: 0 for all without NUMA, -1 where it is not recorded.
    pub open spec fn node_of(self, cpu: i32) -> i32 {
        if !self.cfg.numa_enabled {
            0
        } else {
            match entry(map_of(self.cpu_node_map), cpu as u32) {
                Some(node) => node as i32,
                None => (-1) as i32,
            }
        }
    }

    /// Node of the GPU that a process uses, -1 for none.
    pub open spec fn gpu_node_of(self, pid: u32) -> i32 {
        if !self.cfg.gpu_enabled || !self.cfg.numa_enabled {
            (-1) as i32
        } else {
            match entry(map_of(self.gpu_pid_map), pid) {
                Some(node) => node as i32,
                None => (-1) as i32,
            }
        }
    }

    pub open spec fn capacity(self, cpu: i32) -> u64 {
        if 0 <= cpu < MAX_CPUS {
            self.topo.cpu_capacity@[cpu as int]
        } else {
            SCX_CPUPERF_ONE
        }
    }

    /// The other hardware thread of a CPU's core, or the CPU itself.
    pub open spec fn sibling(self, cpu: i32) -> i32 {
        if 0 <= cpu < MAX_CPUS && self.smt_sibling@[cpu as int] >= 0 {
            self.smt_sibling@[cpu as int]
        } else {
            cpu
        }
    }

    pub open spec fn node_mask(self, node: i32) -> Option<CpuMask> {
        if 0 <= node < MAX_NODES && node < self.topo.node_cpumask@.len() {
            self.topo.node_cpumask@[node as int]
        } else {
            None
        }
    }

    /// The shared queue that a CPU consumes from: that of its node, where the
    /// node is known.
    pub open spec fn queue_of(self, cpu: i32) -> u64 {
        if self.cfg.numa_enabled && self.node_of(cpu) >= 0 {
            self.node_of(cpu) as u64
        } else {
            SHARED_DSQ
        }
    }

    pub open spec fn valid(self, cpu: i32) -> bool {
        0 <= cpu < MAX_CPUS && cpu < self.nr_cpu_ids
    }

    pub open spec fn busy(self, cpu: i32) -> bool {
        &&& self.cfg.busy_threshold != 0
        &&& self.valid(cpu)
        &&& self.topo.cpu_util@[cpu as int] >= self.cfg.busy_threshold
    }

    pub open spec fn faster(self, this_cpu: i32, that_cpu: i32) -> bool {
        &&& !self.cfg.all_cpus_same_capacity
        &&& self.valid(this_cpu)
        &&& self.valid(that_cpu)
        &&& self.capacity(this_cpu) > self.capacity(that_cpu)
    }

    /// The CPU belongs to the primary domain. Without a mask every CPU does.
    pub open spec fn primary(self, cpu: i32) -> bool {
        self.cfg.primary_all || in_mask(self.topo.primary_mask, cpu)
    }

    /// The core of `cpu` is contended: its sibling could not be claimed, and a CPU
    /// other than the sibling is idle.
    pub open spec fn contended(self, cpu: i32, sibling_claimed: bool, idle: CpuMask) -> bool {
        &&& self.cfg.smt_enabled
        &&& !sibling_claimed
        &&& others_idle(idle, self.sibling(cpu))
    }

    pub open spec fn wake_affine(self, waker: TaskRef, wakee: TaskRef) -> bool {
        self.cfg.mm_affinity && shares_memory(waker, wakee)
    }

    pub open spec fn node_usable(self, p: TaskRef, node: i32) -> bool {
        ||| !self.cfg.numa_enabled
        ||| p.nr_cpus_allowed == self.nr_cpu_ids
        ||| self.node_mask(node) matches Some(mask) && masks_meet(mask, p.cpus_allowed)
    }
}

/// The CPU is in the mask, or there is no mask to be in.
pub open spec fn in_mask(mask: Option<CpuMask>, cpu: i32) -> bool {
    mask matches Some(m) ==> m@.contains(cpu as int)
}

/// A CPU other than `cpu` is among the idle ones.
pub open spec fn others_idle(idle: CpuMask, cpu: i32) -> bool {
    exists|other: int| idle@.contains(other) && other != cpu
}

pub open spec fn masks_meet(a: CpuMask, b: CpuMask) -> bool {
    exists|cpu: int| a@.contains(cpu) && b@.contains(cpu)
}

/// The node of a CPU, -1 where it is not recorded.
pub fn cpu_node(s: &Cosmos, cpu: i32) -> (r: i32)
    ensures
        r == s.node_of(cpu),
{
    if !s.cfg.numa_enabled {
        return 0;
    }
    match lookup(&s.cpu_node_map, cpu as u32) {
        Some(node) => node as i32,
        None => -1,
    }
}

/// The node of the GPU that a process uses, -1 for none.
pub fn gpu_node_by_pid(s: &Cosmos, pid: u32) -> (r: i32)
    ensures
        r == s.gpu_node_of(pid),
{
    if !s.cfg.gpu_enabled || !s.cfg.numa_enabled {
        return -1;
    }
    match lookup(&s.gpu_pid_map, pid) {
        Some(node) => node as i32,
        None => -1,
    }
}

/// The capacity of a CPU; outside the table, the full one.
pub fn cpu_cap(s: &Cosmos, cpu: i32) -> (r: u64)
    ensures
        r == s.capacity(cpu),
{
    if cpu < 0 || cpu as usize >= MAX_CPUS {
        return SCX_CPUPERF_ONE;
    }
    s.topo.cpu_capacity[cpu as usize]
}

/// The other hardware thread of a CPU's core, or the CPU itself.
pub fn smt_sibling(s: &Cosmos, cpu: i32) -> (r: i32)
    ensures
        r == s.sibling(cpu),
{
    if cpu < 0 || cpu as usize >= MAX_CPUS {
        return cpu;
    }
    let sibling: i32 = s.smt_sibling[cpu as usize];
    if sibling < 0 {
        cpu
    } else {
        sibling
    }
}

/// The CPUs of a node, where they are known.
pub fn node_cpumask(s: &Cosmos, node: i32) -> (r: Option<&CpuMask>)
    ensures
        r == (match s.node_mask(node) {
            Some(mask) => Some(&mask),
            None => None,
        }),
{
    if node < 0 || node as usize >= MAX_NODES || node as usize >= s.topo.node_cpumask.len() {
        return None;
    }
    s.topo.node_cpumask[node as usize].as_ref()
}

/// The shared queue that a CPU consumes from.
pub fn shared_dsq(s: &Cosmos, cpu: i32) -> (r: u64)
    ensures
        r == s.queue_of(cpu),
{
    if s.cfg.numa_enabled {
        let node: i32 = cpu_node(s, cpu);
        if node >= 0 {
            node as u64
        } else {
            SHARED_DSQ
        }
    } else {
        SHARED_DSQ
    }
}

/// Whether a number is that of an existing CPU.
pub fn is_cpu_valid(s: &Cosmos, cpu: i32) -> (r: bool)
    ensures
        r == s.valid(cpu),
{
    cpu >= 0 && (cpu as u64) < nr_cpu_ids(s) && (cpu as usize) < MAX_CPUS
}

/// Whether a CPU's utilisation has reached the threshold.
pub fn is_cpu_busy(s: &Cosmos, cpu: i32) -> (r: bool)
    ensures
        r == s.busy(cpu),
{
    let threshold: u64 = s.cfg.busy_threshold;
    if threshold == 0 {
        return false;
    }
    if !is_cpu_valid(s, cpu) {
        return false;
    }
    s.topo.cpu_util[cpu as usize] >= threshold
}

/// Whether one CPU has more capacity than another.
pub fn is_cpu_faster(s: &Cosmos, this_cpu: i32, that_cpu: i32) -> (r: bool)
    ensures
        r == s.faster(this_cpu, that_cpu),
{
    if s.cfg.all_cpus_same_capacity || this_cpu == that_cpu {
        return false;
    }
    if !is_cpu_valid(s, this_cpu) || !is_cpu_valid(s, that_cpu) {
        return false;
    }
    cpu_cap(s, this_cpu) > cpu_cap(s, that_cpu)
}

/// Cache topology is not known, so a CPU shares its cache with itself alone.
pub fn cpus_share_cache(this_cpu: i32, that_cpu: i32) -> (r: bool)
    ensures
        r == (this_cpu == that_cpu),
{
    this_cpu == that_cpu
}

/// Whether a CPU belongs to the primary domain.
pub fn is_primary_cpu(s: &Cosmos, cpu: i32) -> (r: bool)
    ensures
        r == s.primary(cpu),
{
    if s.cfg.primary_all {
        return true;
    }
    mask_allows(&s.topo.primary_mask, cpu)
}

/// The CPU is in the mask, or there is no mask.
pub fn mask_allows(mask: &Option<CpuMask>, cpu: i32) -> (r: bool)
    ensures
        r == in_mask(*mask, cpu),
{
    match mask {
        Some(m) => m.test_cpu(cpu),
        None => true,
    }
}

/// The task that a CPU is running is not known, so no CPU is taken to be idle.
pub fn is_cpu_idle(_cpu: i32) -> (r: bool)
    ensures
        !r,
{
    false
}

/// Whether a CPU is to be taken as idle, given what the kernel answered when it
/// was asked to claim the CPU's idle state. With early clearing off, the
/// kernel's answer does not count.
pub fn test_cpu_idle(s: &Cosmos, cpu: i32, claimed: bool) -> (r: bool)
    ensures
        r == (!s.cfg.no_early_clear && claimed),
{
    if s.cfg.no_early_clear {
        is_cpu_idle(cpu)
    } else {
        claimed
    }
}

/// Whether a CPU's core is contended, given what the kernel answered when it
/// was asked to claim the idle state of the CPU's sibling, and whether any other
/// CPU is idle. With none to move to, no core counts as contended.
pub fn is_smt_contended(s: &Cosmos, sibling_claimed: bool, others_idle: bool) -> (r: bool)
    ensures
        r == (s.cfg.smt_enabled && !sibling_claimed && others_idle),
{
    if !s.cfg.smt_enabled {
        return false;
    }
    !sibling_claimed && others_idle
}

/// Whether the core of `cpu`, whose sibling could not be claimed, is contended,
/// given the idle CPUs.
pub fn is_core_contended(s: &Cosmos, cpu: i32, idle: &CpuMask) -> (r: bool)
    ensures
        r == s.contended(cpu, false, *idle),
{
    is_smt_contended(s, false, idle.holds_other_than(smt_sibling(s, cpu)))
}

/// Whether a task should stay close to its waker.
pub fn is_wake_affine(s: &Cosmos, waker: &TaskRef, wakee: &TaskRef) -> (r: bool)
    ensures
        r == s.wake_affine(*waker, *wakee),
{
    s.cfg.mm_affinity && (waker.flags & PF_EXITING == 0) && wakee.mm != 0 && wakee.mm == waker.mm
}

/// Whether a task may run on some CPU of a node.
pub fn can_use_node(s: &Cosmos, p: &TaskRef, node: i32) -> (r: bool)
    ensures
        r == s.node_usable(*p, node),
{
    if !s.cfg.numa_enabled {
        return true;
    }
    if p.nr_cpus_allowed as u64 == nr_cpu_ids(s) {
        return true;
    }
    match node_cpumask(s, node) {
        Some(mask) => mask.intersects(&p.cpus_allowed),
        None => false,
    }
}

/// A CPU close to the GPU that the task uses. No CPU is picked yet, whatever
/// node the GPU is on.
pub fn pick_cpu_on_gpu_node(s: &Cosmos, p: &TaskRef, current_node: i32) -> (r: i32)
    ensures
        r == -1,
{
    let target_node: i32 = gpu_node_by_pid(s, p.pid);
    if target_node < 0 || target_node == current_node {
        return -1;
    }
    if !can_use_node(s, p, target_node) {
        return -1;
    }
    -1
}

/// A CPU that is faster than another is a different CPU, and the other is not
/// faster than it.
pub proof fn law_faster_is_strict(s: Cosmos, a: i32, b: i32)
    requires
        s.faster(a, b),
    ensures
        a != b,
        !s.faster(b, a),
{
}

/// Without NUMA all CPUs consume from the one shared queue. With it, two CPUs
/// of one node consume from one queue.
pub proof fn law_node_mates_share_queue(s: Cosmos, a: i32, b: i32)
    requires
        s.node_of(a) == s.node_of(b),
    ensures
        s.queue_of(a) == s.queue_of(b),
        !s.cfg.numa_enabled ==> s.queue_of(a) == SHARED_DSQ,
{
}

/// Where the kernel's answer for the sibling agrees with the idle CPUs, a core is
/// contended exactly if its sibling is not idle and some CPU is. On a machine
/// without an idle CPU no core is contended.
pub proof fn law_contention_needs_idle_cpu(s: Cosmos, cpu: i32, idle: CpuMask)
    requires
        s.cfg.smt_enabled,
    ensures
        ({
            let claimed = idle@.contains(s.sibling(cpu) as int);
            s.contended(cpu, claimed, idle) <==> !claimed && exists|any: int| idle@.contains(any)
        }),
        idle@ == Set::<int>::empty() ==> !s.contended(cpu, false, idle),
{
}

} // verus!
