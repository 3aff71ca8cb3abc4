//! A scheduler with one shared queue, ordered by arrival or by virtual time.
use crate::defs::{Insert, SCX_DSQ_LOCAL, SHARED_DSQ};
use std::collections::BTreeMap;
use vstd::prelude::*;

verus! {

/// Time slice of every task: 20 ms in nanoseconds.
pub const SCX_SLICE_DFL: u64 = 20_000_000;

/// Statistic of the tasks that went straight to an idle CPU.
pub const STAT_LOCAL: u32 = 0;

/// Statistic of the tasks that went through the shared queue.
pub const STAT_GLOBAL: u32 = 1;

/// The scheduling fields of a kernel task. The caller fills them in before a
/// callback and writes `dsq_vtime` back after it.
#[derive(Clone, Copy, Debug, PartialEq, Eq, Structural)]
pub struct SchedExtEntity {
    pub dsq_vtime: u64,
    /// What is left of the time slice.
    pub slice: u64,
    pub weight: u32,
}

/// The state of the scheduler.
pub struct Simple {
    /// The shared queue is ordered by arrival.
    pub fifo_sched: bool,
    pub vtime_now: u64,
    /// Statistics by key. Absent until the scheduler is initialised.
    pub stats: Option<BTreeMap<u32, u64>>,
}

/// The earliest virtual time that a task is queued by: one slice behind the
/// scheduler's own time, on the wrapping 64-bit clock.
pub open spec fn budget_floor(vtime_now: u64) -> int {
    (vtime_now - SCX_SLICE_DFL) % 0x1_0000_0000_0000_0000
}

/// A virtual time held to the floor.
pub open spec fn within_budget(vtime_now: u64, vtime: u64) -> u64 {
    if vtime < budget_floor(vtime_now) {
        budget_floor(vtime_now) as u64
    } else {
        vtime
    }
}

/// Virtual time that a task is charged for the part of its slice that it used.
pub open spec fn slice_charge(e: SchedExtEntity) -> int {
    (SCX_SLICE_DFL - e.slice) * 100 / e.weight as int
}

/// The charge can be computed, and the new virtual time fits in 64 bits.
pub open spec fn charge_fits(e: SchedExtEntity) -> bool {
    &&& e.slice <= SCX_SLICE_DFL
    &&& e.weight != 0
    &&& e.dsq_vtime + slice_charge(e) <= u64::MAX
}

impl Simple {
    /// The statistics that are kept, if any are yet.
    pub open spec fn counts(self) -> Option<Map<u32, u64>> {
        match self.stats {
            Some(m) => Some(m@),
            None => None,
        }
    }

    /// How often `key` was counted.
    pub open spec fn count(self, key: u32) -> u64 {
        match self.counts() {
            Some(m) => if m.contains_key(key) {
                m[key]
            } else {
                0
            },
            None => 0,
        }
    }

    /// The statistics after `key` was counted once more.
    pub open spec fn counts_after(self, key: u32) -> Option<Map<u32, u64>> {
        match self.counts() {
            Some(m) => Some(m.insert(key, (self.count(key) + 1) as u64)),
            None => None,
        }
    }

    /// Another count of `key` fits in 64 bits.
    pub open spec fn countable(self, key: u32) -> bool {
        self.count(key) < u64::MAX
    }

    /// Everything but the statistics is as in `other`.
    pub open spec fn same_outside_stats(self, other: Simple) -> bool {
        self.fifo_sched == other.fifo_sched && self.vtime_now == other.vtime_now
    }

    /// How a task is queued under the policy in force.
    pub open spec fn queued(self, vtime: u64, enq_flags: u64) -> Insert {
        if self.fifo_sched {
            FifoPolicy.placed(self, vtime, enq_flags)
        } else {
            VtimePolicy.placed(self, vtime, enq_flags)
        }
    }

    /// The state at load time.
    pub fn new() -> (s: Self)
        ensures
            !s.fifo_sched,
            s.vtime_now == 0,
            s.counts() is None,
    {
        Simple { fifo_sched: false, vtime_now: 0, stats: None }
    }
}

/// How tasks are put in the shared queue.
pub trait SchedPolicy {
    spec fn placed(&self, s: Simple, vtime: u64, enq_flags: u64) -> Insert;

    fn enqueue(&self, s: &Simple, vtime: u64, enq_flags: u64) -> (r: Insert)
        ensures
            r == self.placed(*s, vtime, enq_flags),
    ;
}

/// In the order in which they arrive.
pub struct FifoPolicy;

/// In the order of their virtual time.
pub struct VtimePolicy;

impl SchedPolicy for FifoPolicy {
    open spec fn placed(&self, s: Simple, vtime: u64, enq_flags: u64) -> Insert {
        Insert::Fifo { dsq: SHARED_DSQ, slice: SCX_SLICE_DFL, enq_flags }
    }

    fn enqueue(&self, _s: &Simple, _vtime: u64, enq_flags: u64) -> (r: Insert) {
        Insert::Fifo { dsq: SHARED_DSQ, slice: SCX_SLICE_DFL, enq_flags }
    }
}

impl SchedPolicy for VtimePolicy {
    open spec fn placed(&self, s: Simple, vtime: u64, enq_flags: u64) -> Insert {
        Insert::Vtime {
            dsq: SHARED_DSQ,
            slice: SCX_SLICE_DFL,
            vtime: within_budget(s.vtime_now, vtime),
            enq_flags,
        }
    }

    fn enqueue(&self, s: &Simple, vtime: u64, enq_flags: u64) -> (r: Insert) {
        let floor: u64 = s.vtime_now.wrapping_sub(SCX_SLICE_DFL);
        let vtime: u64 = if vtime < floor {
            floor
        } else {
            vtime
        };
        Insert::Vtime { dsq: SHARED_DSQ, slice: SCX_SLICE_DFL, vtime, enq_flags }
    }
}

/// Counts `key` once more. Before initialisation nothing is counted.
pub fn stat_inc(s: &mut Simple, key: u32)
    requires
        old(s).countable(key),
    ensures
        final(s).counts() == old(s).counts_after(key),
        final(s).same_outside_stats(*old(s)),
{
    if let Some(m) = &mut s.stats {
        let count: u64 = match m.get(&key) {
            Some(count) => *count,
            None => 0,
        };
        m.insert(key, count + 1);
    }
}

/// Whether `key` can be counted once more.
pub fn stat_fits(s: &Simple, key: u32) -> (r: bool)
    ensures
        r == s.countable(key),
{
    match &s.stats {
        Some(m) => match m.get(&key) {
            Some(count) => *count < u64::MAX,
            None => true,
        },
        None => true,
    }
}

/// Places a task that wakes up, given the CPU that the kernel selected and
/// whether that CPU is idle. To an idle CPU the task goes at once.
pub fn simple_select_cpu(s: &mut Simple, cpu: i32, is_idle: bool) -> (r: (i32, Option<Insert>))
    requires
        is_idle ==> old(s).countable(STAT_LOCAL),
    ensures
        r.0 == cpu,
        r.1 == (if is_idle {
            Some(Insert::Fifo { dsq: SCX_DSQ_LOCAL, slice: SCX_SLICE_DFL, enq_flags: 0 })
        } else {
            None
        }),
        final(s).counts() == (if is_idle {
            old(s).counts_after(STAT_LOCAL)
        } else {
            old(s).counts()
        }),
        final(s).same_outside_stats(*old(s)),
{
    if is_idle {
        stat_inc(s, STAT_LOCAL);
        let insert: Insert = Insert::Fifo {
            dsq: SCX_DSQ_LOCAL,
            slice: SCX_SLICE_DFL,
            enq_flags: 0,
        };
        return (cpu, Some(insert));
    }
    (cpu, None)
}

/// Queues a task that is ready to run.
pub fn simple_enqueue(s: &mut Simple, e: &SchedExtEntity, enq_flags: u64) -> (r: Insert)
    requires
        old(s).countable(STAT_GLOBAL),
    ensures
        r == old(s).queued(e.dsq_vtime, enq_flags),
        final(s).counts() == old(s).counts_after(STAT_GLOBAL),
        final(s).same_outside_stats(*old(s)),
{
    stat_inc(s, STAT_GLOBAL);
    if s.fifo_sched {
        FifoPolicy.enqueue(s, e.dsq_vtime, enq_flags)
    } else {
        VtimePolicy.enqueue(s, e.dsq_vtime, enq_flags)
    }
}

/// The queue that a CPU with nothing to run takes its next task from.
pub fn simple_dispatch() -> (r: u64)
    ensures
        r == SHARED_DSQ,
{
    SHARED_DSQ
}

/// Takes note that a task runs: the scheduler's time follows the task's where
/// that is later.
pub fn simple_running(s: &mut Simple, e: &SchedExtEntity)
    ensures
        *final(s) == (Simple {
            vtime_now: if !old(s).fifo_sched && old(s).vtime_now < e.dsq_vtime {
                e.dsq_vtime
            } else {
                old(s).vtime_now
            },
            ..*old(s)
        }),
{
    if s.fifo_sched {
        return ;
    }
    if s.vtime_now < e.dsq_vtime {
        s.vtime_now = e.dsq_vtime;
    }
}

/// Charges a task that stops for the part of its slice that it used, in inverse
/// proportion to its weight.
pub fn simple_stopping(s: &Simple, e: &mut SchedExtEntity)
    requires
        !s.fifo_sched ==> charge_fits(*old(e)),
    ensures
        *final(e) == (if s.fifo_sched {
            *old(e)
        } else {
            SchedExtEntity { dsq_vtime: (old(e).dsq_vtime + slice_charge(*old(e))) as u64, ..*old(e)
            }
        }),
        final(e).dsq_vtime >= old(e).dsq_vtime,
{
    if s.fifo_sched {
        return ;
    }
    proof {
        lemma_charge_bound(*e);
    }
    let delta: u64 = (SCX_SLICE_DFL - e.slice) * 100 / e.weight as u64;
    e.dsq_vtime = e.dsq_vtime + delta;
}

/// Whether a task can be charged for its slice.
pub fn stopping_fits(s: &Simple, e: &SchedExtEntity) -> (r: bool)
    ensures
        r == (!s.fifo_sched ==> charge_fits(*e)),
{
    if s.fifo_sched {
        return true;
    }
    if e.slice > SCX_SLICE_DFL || e.weight == 0 {
        return false;
    }
    proof {
        lemma_charge_bound(*e);
    }
    let delta: u64 = (SCX_SLICE_DFL - e.slice) * 100 / e.weight as u64;
    e.dsq_vtime.checked_add(delta).is_some()
}

/// Lets a task that enters the scheduler start at the scheduler's own time.
pub fn simple_enable(s: &Simple, e: &mut SchedExtEntity)
    ensures
        *final(e) == (SchedExtEntity { dsq_vtime: s.vtime_now, ..*old(e) }),
{
    e.dsq_vtime = s.vtime_now;
}

/// Starts the scheduler with no statistics. The queue that is to be created is
/// returned, with its node; what the kernel answers is how the start ends.
pub fn simple_init(s: &mut Simple) -> (r: (u64, i32))
    ensures
        r == (SHARED_DSQ, -1i32),
        final(s).counts() == Some(Map::<u32, u64>::empty()),
        final(s).same_outside_stats(*old(s)),
{
    s.stats = Some(BTreeMap::new());
    (SHARED_DSQ, -1)
}

proof fn lemma_charge_bound(e: SchedExtEntity)
    requires
        e.slice <= SCX_SLICE_DFL,
        e.weight != 0,
    ensures
        0 <= slice_charge(e) <= 100 * SCX_SLICE_DFL,
{
    let used = (SCX_SLICE_DFL - e.slice) * 100;
    let w = e.weight as int;
    assert(0 <= used / w <= used) by (nonlinear_arith)
        requires
            used >= 0,
            w >= 1,
    ;
}

/// A task is queued at most one slice behind the scheduler's time, however long
/// it was idle.
pub proof fn law_idle_budget_is_limited(vtime_now: u64, vtime: u64)
    ensures
        vtime_now - within_budget(vtime_now, vtime) <= SCX_SLICE_DFL,
{
}

/// A task whose time is at most one slice behind keeps it, once the scheduler's
/// time has come to a full slice.
pub proof fn law_budget_keeps_recent(vtime_now: u64, vtime: u64)
    requires
        vtime_now >= SCX_SLICE_DFL,
        vtime_now - vtime <= SCX_SLICE_DFL,
    ensures
        within_budget(vtime_now, vtime) == vtime,
{
}

/// Of two tasks, the one with the earlier virtual time is not queued after the
/// other.
pub proof fn law_budget_keeps_order(vtime_now: u64, early: u64, late: u64)
    requires
        early <= late,
    ensures
        within_budget(vtime_now, early) <= within_budget(vtime_now, late),
{
}

/// The heavier of two tasks is charged no more for the same use of its slice. A
/// task that used none of it is charged nothing, and one of the standard weight
/// is charged what it used.
pub proof fn law_weight_favours(light: SchedExtEntity, heavy: SchedExtEntity)
    requires
        0 < light.weight <= heavy.weight,
        light.slice == heavy.slice,
        light.slice <= SCX_SLICE_DFL,
    ensures
        slice_charge(heavy) <= slice_charge(light),
        light.slice == SCX_SLICE_DFL ==> slice_charge(light) == 0,
        light.weight == 100 ==> slice_charge(light) == SCX_SLICE_DFL - light.slice,
{
    let used = (SCX_SLICE_DFL - light.slice) * 100;
    let l = light.weight as int;
    let h = heavy.weight as int;
    assert(used / h <= used / l) by (nonlinear_arith)
        requires
            used >= 0,
            0 < l <= h,
    ;
    assert(used == 0 ==> used / l == 0) by (nonlinear_arith)
        requires
            l > 0,
    ;
    assert(l == 100 ==> used / l == SCX_SLICE_DFL - light.slice) by {
        assert(used / 100 == SCX_SLICE_DFL - light.slice);
    }
}

/// Counting one key leaves the others alone, and nothing is counted before the
/// scheduler has started.
pub proof fn law_counts_are_separate(before: Simple, after: Simple, key: u32, other: u32)
    requires
        before.countable(key),
        after.counts() == before.counts_after(key),
        other != key,
    ensures
        after.count(key) == before.count(key) + (if before.counts() is Some {
            1int
        } else {
            0int
        }),
        after.count(other) == before.count(other),
        after.stats is Some <==> before.stats is Some,
{
}

/// The floor lies one slice of 20 ms behind the scheduler's time, round the clock
/// where need be. A virtual time below it is raised to it, and any other is kept.
pub proof fn law_floor_is_one_slice_behind(vtime_now: u64, vtime: u64)
    ensures
        ({
            let floor = if vtime_now >= 20_000_000 {
                vtime_now - 20_000_000
            } else {
                vtime_now - 20_000_000 + 0x1_0000_0000_0000_0000
            };
            &&& budget_floor(vtime_now) == floor
            &&& vtime < floor ==> within_budget(vtime_now, vtime) == floor
            &&& vtime >= floor ==> within_budget(vtime_now, vtime) == vtime
        }),
{
}

/// A task goes into the shared queue for 20 ms with the flags that are given: by
/// arrival in one mode, by its virtual time held to the floor in the other.
pub proof fn law_how_a_task_is_queued(s: Simple, vtime: u64, enq_flags: u64)
    ensures
        s.fifo_sched ==> s.queued(vtime, enq_flags) == (Insert::Fifo {
            dsq: 0,
            slice: 20_000_000,
            enq_flags,
        }),
        !s.fifo_sched ==> s.queued(vtime, enq_flags) == (Insert::Vtime {
            dsq: 0,
            slice: 20_000_000,
            vtime: within_budget(s.vtime_now, vtime),
            enq_flags,
        }),
        FifoPolicy.placed(s, vtime, enq_flags) == (Insert::Fifo {
            dsq: 0,
            slice: 20_000_000,
            enq_flags,
        }),
        VtimePolicy.placed(s, vtime, enq_flags) == (Insert::Vtime {
            dsq: 0,
            slice: 20_000_000,
            vtime: within_budget(s.vtime_now, vtime),
            enq_flags,
        }),
{
}

/// The charge is what was used of 20 ms, a hundred times over the weight, rounded
/// down.
pub proof fn law_charge_is_used_slice(e: SchedExtEntity)
    requires
        e.slice <= 20_000_000,
        e.weight != 0,
    ensures
        ({
            let charge = slice_charge(e);
            charge * e.weight <= (20_000_000 - e.slice) * 100 < (charge + 1) * e.weight
        }),
{
    let x = (20_000_000 - e.slice) * 100;
    let w = e.weight as int;
    let q = x / w;
    assert(q * w <= x < (q + 1) * w) by (nonlinear_arith)
        requires
            q == x / w,
            w > 0,
    ;
}

/// A task can be charged exactly if it has a weight, has not more than a slice
/// left, and its new virtual time fits.
pub proof fn law_who_can_be_charged(e: SchedExtEntity)
    ensures
        charge_fits(e) <==> e.slice <= 20_000_000 && e.weight > 0 && e.dsq_vtime + slice_charge(e)
            <= u64::MAX,
{
}

/// Of two tasks of the standard weight, the one that used more of its slice is
/// charged more, by just the difference.
pub proof fn law_use_is_charged_in_full(a: SchedExtEntity, b: SchedExtEntity)
    requires
        a.weight == 100,
        b.weight == 100,
        a.slice <= 20_000_000,
        b.slice <= 20_000_000,
    ensures
        slice_charge(b) - slice_charge(a) == a.slice - b.slice,
{
}

/// A count is what the map holds, and zero where there is no map or no entry. It
/// can be raised unless it is at its largest.
pub proof fn law_count_is_map_value(s: Simple, key: u32)
    ensures
        s.count(key) == (match s.stats {
            Some(m) => if m@.contains_key(key) {
                m@[key]
            } else {
                0
            },
            None => 0,
        }),
        s.countable(key) <==> s.count(key) < u64::MAX,
        s.counts() is Some <==> s.stats is Some,
{
}

/// What is the same outside the statistics differs in the statistics at most.
pub proof fn law_only_stats_differ(a: Simple, b: Simple)
    requires
        a.same_outside_stats(b),
    ensures
        a == (Simple { stats: a.stats, ..b }),
{
}

} // verus!
