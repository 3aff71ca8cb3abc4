//! What is asked of CPUs and nodes, in terms of settings, tables and masks.
use crate::cosmos::state::Cosmos;
use crate::cosmos::task::TaskRef;
use crate::cosmos::topology::{in_mask, masks_meet, others_idle};
use crate::cpumask::CpuMask;
use crate::defs::{MAX_CPUS, MAX_NODES};
use vstd::prelude::*;

verus! {

/// A CPU exists exactly if its number is below the number of CPUs and the tables
/// have room for it.
pub proof fn law_existing_cpus(s: Cosmos, cpu: i32)
    ensures
        s.valid(cpu) <==> 0 <= cpu && cpu < s.nr_cpu_ids && cpu < MAX_CPUS,
{
}

/// With a threshold, a CPU that exists is busy exactly if its utilisation has
/// reached it. Without one, no CPU is busy.
pub proof fn law_busy_from_threshold_on(s: Cosmos, cpu: i32)
    ensures
        s.cfg.busy_threshold == 0 ==> !s.busy(cpu),
        s.busy(cpu) ==> 0 <= cpu < s.nr_cpu_ids && cpu < MAX_CPUS,
        s.cfg.busy_threshold > 0 && 0 <= cpu < s.nr_cpu_ids && cpu < MAX_CPUS ==> (s.busy(cpu)
            <==> s.topo.cpu_util@[cpu as int] >= s.cfg.busy_threshold),
{
}

/// A busy CPU stays busy when its utilisation rises or the threshold falls, as
/// long as there is one.
pub proof fn law_busier_stays_busy(a: Cosmos, b: Cosmos, cpu: i32)
    requires
        a.busy(cpu),
        a.nr_cpu_ids <= b.nr_cpu_ids,
        a.topo.cpu_util@[cpu as int] <= b.topo.cpu_util@[cpu as int],
        0 < b.cfg.busy_threshold <= a.cfg.busy_threshold,
    ensures
        b.busy(cpu),
{
}

/// Capacity comes from the table, and is full outside it.
pub proof fn law_capacity_comes_from_table(s: Cosmos, cpu: i32)
    ensures
        0 <= cpu < MAX_CPUS ==> s.capacity(cpu) == s.topo.cpu_capacity@[cpu as int],
        cpu < 0 || cpu >= MAX_CPUS ==> s.capacity(cpu) == 1024,
{
}

/// Between existing CPUs whose capacities may differ, the one with more is the
/// faster one. Nothing is faster otherwise.
pub proof fn law_faster_has_more_capacity(s: Cosmos, a: i32, b: i32)
    ensures
        s.faster(a, b) <==> !s.cfg.all_cpus_same_capacity && 0 <= a < s.nr_cpu_ids && a < MAX_CPUS
            && 0 <= b < s.nr_cpu_ids && b < MAX_CPUS && s.topo.cpu_capacity@[a as int]
            > s.topo.cpu_capacity@[b as int],
{
}

/// A sibling that is recorded is read back. Every other CPU is its own sibling.
pub proof fn law_sibling_comes_from_table(s: Cosmos, cpu: i32)
    ensures
        0 <= cpu < MAX_CPUS && s.smt_sibling@[cpu as int] >= 0 ==> s.sibling(cpu)
            == s.smt_sibling@[cpu as int],
        0 <= cpu < MAX_CPUS && s.smt_sibling@[cpu as int] < 0 ==> s.sibling(cpu) == cpu,
        cpu < 0 || cpu >= MAX_CPUS ==> s.sibling(cpu) == cpu,
{
}

/// Without NUMA every CPU is of node 0. With it, a recorded node is read back and
/// an unrecorded one is -1.
pub proof fn law_node_comes_from_map(s: Cosmos, cpu: i32)
    ensures
        !s.cfg.numa_enabled ==> s.node_of(cpu) == 0,
        s.cfg.numa_enabled ==> (match s.cpu_node_map {
            Some(m) if m@.contains_key(cpu as u32) => s.node_of(cpu) == m@[cpu as u32] as i32,
            _ => s.node_of(cpu) == -1,
        }),
{
}

/// The node of a GPU is read back where GPUs and NUMA are on, and is -1 where
/// nothing is recorded or either is off.
pub proof fn law_gpu_node_comes_from_map(s: Cosmos, pid: u32)
    ensures
        !s.cfg.gpu_enabled || !s.cfg.numa_enabled ==> s.gpu_node_of(pid) == -1,
        s.cfg.gpu_enabled && s.cfg.numa_enabled ==> (match s.gpu_pid_map {
            Some(m) if m@.contains_key(pid) => s.gpu_node_of(pid) == m@[pid] as i32,
            _ => s.gpu_node_of(pid) == -1,
        }),
{
}

/// With NUMA a CPU consumes from the queue with the number of its recorded node.
/// Without, and where the node is unknown, it consumes from queue 0.
pub proof fn law_queue_is_node_number(s: Cosmos, cpu: i32)
    ensures
        !s.cfg.numa_enabled ==> s.queue_of(cpu) == 0,
        s.cfg.numa_enabled ==> (match s.cpu_node_map {
            Some(m) if m@.contains_key(cpu as u32) && m@[cpu as u32] <= i32::MAX => s.queue_of(cpu)
                == m@[cpu as u32],
            _ => true,
        }),
        s.cfg.numa_enabled && (s.cpu_node_map matches Some(m) ==> !m@.contains_key(cpu as u32))
            ==> s.queue_of(cpu) == 0,
        s.node_of(cpu) < 0 ==> s.queue_of(cpu) == 0,
{
}

/// A mask that is given decides by its members. One that is not given allows
/// everything.
pub proof fn law_mask_decides(mask: CpuMask, cpu: i32)
    ensures
        in_mask(Some(mask), cpu) <==> mask@.contains(cpu as int),
        in_mask(None, cpu),
{
}

/// Every CPU is primary where all are or no mask is given. Else the members of
/// the mask are.
pub proof fn law_primary_comes_from_mask(s: Cosmos, cpu: i32)
    ensures
        s.cfg.primary_all ==> s.primary(cpu),
        s.topo.primary_mask is None ==> s.primary(cpu),
        !s.cfg.primary_all ==> (s.topo.primary_mask matches Some(mask) ==> (s.primary(cpu)
            <==> mask@.contains(cpu as int))),
{
}

/// Two masks meet exactly if they have a CPU in common, in either order.
pub proof fn law_masks_meet_in_a_cpu(a: CpuMask, b: CpuMask, cpu: int)
    ensures
        a@.contains(cpu) && b@.contains(cpu) ==> masks_meet(a, b),
        masks_meet(a, b) ==> exists|common: int| a@.contains(common) && b@.contains(common),
        masks_meet(a, b) <==> masks_meet(b, a),
{
    if masks_meet(a, b) {
        let common = choose|common: int| a@.contains(common) && b@.contains(common);
        assert(b@.contains(common) && a@.contains(common));
    }
    if masks_meet(b, a) {
        let common = choose|common: int| b@.contains(common) && a@.contains(common);
        assert(a@.contains(common) && b@.contains(common));
    }
}

/// A core is contended exactly if siblings are looked at, the CPU's sibling could
/// not be claimed, and an idle CPU other than the sibling exists.
pub proof fn law_contended_core(s: Cosmos, cpu: i32, claimed: bool, idle: CpuMask)
    ensures
        s.contended(cpu, claimed, idle) <==> s.cfg.smt_enabled && !claimed && exists|other: int|
            idle@.contains(other) && other != (if 0 <= cpu < MAX_CPUS
                && s.smt_sibling@[cpu as int] >= 0 {
                s.smt_sibling@[cpu as int]
            } else {
                cpu
            }),
        others_idle(idle, cpu) <==> exists|other: int| idle@.contains(other) && other != cpu,
{
}

/// A task is drawn to its waker exactly if that is switched on, both have one
/// address space, and the waker is not leaving.
pub proof fn law_wake_affinity(s: Cosmos, waker: TaskRef, wakee: TaskRef)
    ensures
        s.wake_affine(waker, wakee) <==> s.cfg.mm_affinity && waker.flags & 0x0000_0004 == 0
            && wakee.mm != 0 && waker.mm == wakee.mm,
{
}

/// With NUMA a task can use a node if it may use every CPU or one of the node's.
/// Without, it can use all.
pub proof fn law_usable_nodes(s: Cosmos, p: TaskRef, node: i32)
    ensures
        !s.cfg.numa_enabled ==> s.node_usable(p, node),
        p.nr_cpus_allowed == s.nr_cpu_ids ==> s.node_usable(p, node),
        s.cfg.numa_enabled && p.nr_cpus_allowed != s.nr_cpu_ids ==> (if 0 <= node < MAX_NODES
            && node < s.topo.node_cpumask@.len() {
            match s.topo.node_cpumask@[node as int] {
                Some(mask) => s.node_usable(p, node) <==> exists|cpu: int|
                    mask@.contains(cpu) && p.cpus_allowed@.contains(cpu),
                None => !s.node_usable(p, node),
            }
        } else {
            !s.node_usable(p, node)
        }),
        s.node_mask(node) == (if 0 <= node < MAX_NODES && node < s.topo.node_cpumask@.len() {
            s.topo.node_cpumask@[node as int]
        } else {
            None
        }),
{
}

} // verus!
