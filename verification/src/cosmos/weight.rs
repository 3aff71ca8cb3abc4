//! Time slices, deadlines and charges, scaled by weight and capacity.
use crate::arith::{clock_before, clock_distance, time_before};
use crate::cosmos::state::{slice_lag, slice_ns, Cosmos};
use crate::cosmos::task::{TaskCtx, TaskRef};
use crate::cosmos::topology::cpu_cap;
use crate::defs::{MAX_WAKEUP_FREQ, SCX_CPUPERF_ONE};
use vstd::prelude::*;

verus! {

/// `val` in proportion to a weight, where 100 is the standard weight and an
/// unset weight leaves `val` as it is.
pub open spec fn weighted(weight: u32, val: int) -> int {
    if weight == 0 {
        val
    } else {
        val * weight / 100
    }
}

/// `val` in inverse proportion to a weight.
pub open spec fn weighted_inverse(weight: u32, val: int) -> int {
    if weight == 0 {
        val
    } else {
        val * 100 / weight as int
    }
}

/// The product behind `weighted` fits in 64 bits.
pub open spec fn weighted_fits(weight: u32, val: int) -> bool {
    val * weight <= u64::MAX
}

/// The product behind `weighted_inverse` fits in 64 bits.
pub open spec fn weighted_inverse_fits(weight: u32, val: int) -> bool {
    weight == 0 || val * 100 <= u64::MAX
}

impl Cosmos {
    /// The time slice of a task.
    pub open spec fn slice_for(self, p: TaskRef) -> int {
        weighted(p.weight, self.cfg.slice_ns as int)
    }

    pub open spec fn slice_fits(self, p: TaskRef) -> bool {
        weighted_fits(p.weight, self.cfg.slice_ns as int)
    }

    /// Run time in proportion to the capacity of the CPU that it was spent on.
    pub open spec fn scaled_run(self, run: u64, cpu: i32) -> int {
        if self.cfg.all_cpus_same_capacity {
            run as int
        } else {
            run * self.capacity(cpu) / SCX_CPUPERF_ONE as int
        }
    }

    pub open spec fn scaled_run_fits(self, run: u64, cpu: i32) -> bool {
        self.cfg.all_cpus_same_capacity || run * self.capacity(cpu) <= u64::MAX
    }

    /// Sleep that a task can be credited with before the frequency of its
    /// wakeups is weighted.
    pub open spec fn sleep_credit(self, tctx: TaskCtx) -> int {
        self.cfg.slice_lag * (if tctx.wakeup_freq >= 1 {
            tctx.wakeup_freq as int
        } else {
            1
        })
    }

    /// The earliest virtual time that a task may claim.
    pub open spec fn vtime_floor(self, p: TaskRef, tctx: TaskCtx) -> int {
        (self.vtime_now - weighted(p.weight, self.sleep_credit(tctx))) % 0x1_0000_0000_0000_0000
    }

    /// The virtual time of a task, held to the floor.
    pub open spec fn claimed_vtime(self, p: TaskRef, tctx: TaskCtx) -> u64 {
        let floor = self.vtime_floor(p, tctx) as u64;
        if clock_before(p.dsq_vtime, floor) {
            floor
        } else {
            p.dsq_vtime
        }
    }

    /// The virtual time that a task is queued by.
    pub open spec fn deadline(self, p: TaskRef, tctx: TaskCtx) -> int {
        self.claimed_vtime(p, tctx) + weighted_inverse(p.weight, tctx.exec_runtime as int)
    }

    /// Every sum and product behind `deadline` fits in 64 bits.
    pub open spec fn deadline_fits(self, p: TaskRef, tctx: TaskCtx) -> bool {
        &&& self.sleep_credit(tctx) <= u64::MAX
        &&& weighted_fits(p.weight, self.sleep_credit(tctx))
        &&& weighted_inverse_fits(p.weight, tctx.exec_runtime as int)
        &&& self.deadline(p, tctx) <= u64::MAX
    }
}

proof fn lemma_weighted_bound(weight: u32, val: int)
    requires
        val >= 0,
        weighted_fits(weight, val),
        val <= u64::MAX,
    ensures
        0 <= weighted(weight, val) <= u64::MAX,
{
    if weight != 0 {
        assert(0 <= val * weight) by (nonlinear_arith)
            requires
                val >= 0,
        ;
    }
}

pub proof fn lemma_weighted_inverse_bound(weight: u32, val: int)
    requires
        val >= 0,
        weighted_inverse_fits(weight, val),
        val <= u64::MAX,
    ensures
        0 <= weighted_inverse(weight, val) <= u64::MAX,
{
    if weight != 0 {
        let w = weight as int;
        assert(0 <= val * 100 / w <= val * 100) by (nonlinear_arith)
            requires
                val >= 0,
                w >= 1,
        ;
    }
}

/// A value in proportion to a task's weight.
pub fn scale_by_weight(p: &TaskRef, val: u64) -> (r: u64)
    requires
        weighted_fits(p.weight, val as int),
    ensures
        r == weighted(p.weight, val as int),
{
    proof {
        lemma_weighted_bound(p.weight, val as int);
    }
    let w: u64 = p.weight as u64;
    if w == 0 {
        val
    } else {
        val * w / 100
    }
}

/// A value in inverse proportion to a task's weight.
pub fn scale_by_weight_inverse(p: &TaskRef, val: u64) -> (r: u64)
    requires
        weighted_inverse_fits(p.weight, val as int),
    ensures
        r == weighted_inverse(p.weight, val as int),
{
    proof {
        lemma_weighted_inverse_bound(p.weight, val as int);
    }
    let w: u64 = p.weight as u64;
    if w == 0 {
        val
    } else {
        val * 100 / w
    }
}

/// Run time in proportion to a CPU's capacity.
pub fn scale_by_cpu_capacity(s: &Cosmos, slice: u64, cpu: i32) -> (r: u64)
    requires
        s.scaled_run_fits(slice, cpu),
    ensures
        r == s.scaled_run(slice, cpu),
{
    if s.cfg.all_cpus_same_capacity {
        return slice;
    }
    proof {
        let cap = s.capacity(cpu);
        assert(0 <= slice * cap) by (nonlinear_arith);
    }
    slice * cpu_cap(s, cpu) / SCX_CPUPERF_ONE
}

/// The time slice of a task.
pub fn task_slice(s: &Cosmos, p: &TaskRef) -> (r: u64)
    requires
        s.slice_fits(*p),
    ensures
        r == s.slice_for(*p),
{
    scale_by_weight(p, slice_ns(s))
}

/// Whether the time slice of a task can be computed in 64 bits.
pub fn task_slice_fits(s: &Cosmos, p: &TaskRef) -> (r: bool)
    ensures
        r == s.slice_fits(*p),
{
    slice_ns(s).checked_mul(p.weight as u64).is_some()
}

/// The virtual time that a task is to be queued by. A task that slept for long
/// is first brought up to the earliest time that it may claim.
pub fn task_deadline(s: &Cosmos, p: &mut TaskRef, tctx: &TaskCtx) -> (r: u64)
    requires
        s.deadline_fits(*old(p), *tctx),
    ensures
        r == s.deadline(*old(p), *tctx),
        *final(p) == (TaskRef { dsq_vtime: s.claimed_vtime(*old(p), *tctx), ..*old(p) }),
{
    let lag_scale: u64 = if tctx.wakeup_freq >= 1 {
        tctx.wakeup_freq
    } else {
        1
    };
    proof {
        assert(0 <= s.cfg.slice_lag * lag_scale) by (nonlinear_arith);
        lemma_weighted_bound(p.weight, s.sleep_credit(*tctx));
        lemma_weighted_inverse_bound(p.weight, tctx.exec_runtime as int);
    }
    let vsleep_max: u64 = scale_by_weight(p, slice_lag(s) * lag_scale);
    let vtime_min: u64 = s.vtime_now.wrapping_sub(vsleep_max);
    assert(vtime_min == s.vtime_floor(*p, *tctx));
    let mut vtime: u64 = p.dsq_vtime;
    if time_before(vtime, vtime_min) {
        vtime = vtime_min;
        p.dsq_vtime = vtime_min;
    }
    vtime + scale_by_weight_inverse(p, tctx.exec_runtime)
}

/// Whether the deadline of a task can be computed in 64 bits.
pub fn task_deadline_fits(s: &Cosmos, p: &TaskRef, tctx: &TaskCtx) -> (r: bool)
    ensures
        r == s.deadline_fits(*p, *tctx),
{
    let lag_scale: u64 = if tctx.wakeup_freq >= 1 {
        tctx.wakeup_freq
    } else {
        1
    };
    let credit: u64 = match slice_lag(s).checked_mul(lag_scale) {
        Some(credit) => credit,
        None => return false,
    };
    if credit.checked_mul(p.weight as u64).is_none() {
        return false;
    }
    if p.weight != 0 && tctx.exec_runtime.checked_mul(100).is_none() {
        return false;
    }
    proof {
        lemma_weighted_bound(p.weight, s.sleep_credit(*tctx));
        lemma_weighted_inverse_bound(p.weight, tctx.exec_runtime as int);
    }
    let vtime_min: u64 = s.vtime_now.wrapping_sub(scale_by_weight(p, credit));
    assert(vtime_min == s.vtime_floor(*p, *tctx));
    let vtime: u64 = if time_before(p.dsq_vtime, vtime_min) {
        vtime_min
    } else {
        p.dsq_vtime
    };
    vtime.checked_add(scale_by_weight_inverse(p, tctx.exec_runtime)).is_some()
}

/// Of two tasks the heavier one gets the longer slice and is charged less for
/// the same run time.
pub proof fn law_weight_favours(light: u32, heavy: u32, val: u64)
    requires
        0 < light <= heavy,
    ensures
        weighted(light, val as int) <= weighted(heavy, val as int),
        weighted_inverse(heavy, val as int) <= weighted_inverse(light, val as int),
{
    let l = light as int;
    let h = heavy as int;
    let v = val as int;
    assert(v * l <= v * h) by (nonlinear_arith)
        requires
            l <= h,
            v >= 0,
    ;
    assert(v * 100 / h <= v * 100 / l) by (nonlinear_arith)
        requires
            0 < l <= h,
            v >= 0,
    ;
}

/// The standard weight changes nothing.
pub proof fn law_standard_weight(val: u64)
    ensures
        weighted(100, val as int) == val,
        weighted_inverse(100, val as int) == val,
{
}

/// A task is never queued by a time behind the floor, so what it can gain by
/// sleeping is bounded, and the floor lies its weighted credit behind the
/// scheduler's own time.
pub proof fn law_sleep_credit_is_bounded(s: Cosmos, p: TaskRef, tctx: TaskCtx)
    requires
        s.deadline_fits(p, tctx),
    ensures
        !clock_before(s.claimed_vtime(p, tctx), s.vtime_floor(p, tctx) as u64),
        clock_distance(s.vtime_now, s.vtime_floor(p, tctx) as u64) == weighted(
            p.weight,
            s.sleep_credit(tctx),
        ),
        s.deadline(p, tctx) >= s.claimed_vtime(p, tctx),
{
    assert(0 <= s.sleep_credit(tctx)) by {
        let lag = s.cfg.slice_lag as int;
        let freq = tctx.wakeup_freq as int;
        assert(0 <= lag * freq) by (nonlinear_arith)
            requires
                lag >= 0,
                freq >= 0,
        ;
    }
    lemma_weighted_bound(p.weight, s.sleep_credit(tctx));
    lemma_weighted_inverse_bound(p.weight, tctx.exec_runtime as int);
}

/// Computing a deadline twice gives the same deadline: once brought up to the
/// floor, a task stays where it is.
pub proof fn law_deadline_is_stable(s: Cosmos, p: TaskRef, tctx: TaskCtx)
    requires
        s.deadline_fits(p, tctx),
    ensures
        ({
            let held = TaskRef { dsq_vtime: s.claimed_vtime(p, tctx), ..p };
            s.claimed_vtime(held, tctx) == s.claimed_vtime(p, tctx) && s.deadline(held, tctx)
                == s.deadline(p, tctx)
        }),
{
}

/// With the standard slice and lag and the kernel's range of weights, slices
/// and sleep credits are far from the 64-bit limit, whatever the task did.
pub proof fn law_standard_settings_fit(s: Cosmos, p: TaskRef, tctx: TaskCtx)
    requires
        s.cfg.slice_ns == 1_000_000,
        s.cfg.slice_lag == 20_000_000,
        p.weight <= 10_000,
        tctx.wakeup_freq <= MAX_WAKEUP_FREQ,
        tctx.exec_runtime <= s.cfg.slice_lag,
    ensures
        s.slice_fits(p),
        s.sleep_credit(tctx) <= u64::MAX,
        weighted_fits(p.weight, s.sleep_credit(tctx)),
        weighted_inverse_fits(p.weight, tctx.exec_runtime as int),
        s.deadline(p, tctx) <= u64::MAX <==> s.deadline_fits(p, tctx),
{
    let credit = s.sleep_credit(tctx);
    let w = p.weight as int;
    assert(credit * w <= 20_480_000_000 * 10_000) by (nonlinear_arith)
        requires
            0 <= credit <= 20_480_000_000,
            0 <= w <= 10_000,
    ;
}

/// Of two tasks that claim the same virtual time at the same weight, the one
/// that ran less since it woke up is queued no later.
pub proof fn law_short_runs_first(s: Cosmos, p: TaskRef, brief: TaskCtx, long: TaskCtx)
    requires
        brief.exec_runtime <= long.exec_runtime,
        brief.wakeup_freq == long.wakeup_freq,
    ensures
        s.deadline(p, brief) <= s.deadline(p, long),
{
    assert(s.sleep_credit(brief) == s.sleep_credit(long));
    if p.weight != 0 {
        let w = p.weight as int;
        let a = brief.exec_runtime as int;
        let b = long.exec_runtime as int;
        assert(a * 100 / w <= b * 100 / w) by (nonlinear_arith)
            requires
                a <= b,
                w > 0,
        ;
    }
}

/// A task that wakes up more often can be credited with at least as much sleep.
pub proof fn law_frequent_wakers_gain(s: Cosmos, weight: u32, rare: TaskCtx, frequent: TaskCtx)
    requires
        rare.wakeup_freq <= frequent.wakeup_freq,
    ensures
        s.sleep_credit(rare) <= s.sleep_credit(frequent),
        weighted(weight, s.sleep_credit(rare)) <= weighted(weight, s.sleep_credit(frequent)),
{
    let lag = s.cfg.slice_lag as int;
    let w = weight as int;
    let f = if rare.wakeup_freq >= 1 {
        rare.wakeup_freq as int
    } else {
        1
    };
    let g = if frequent.wakeup_freq >= 1 {
        frequent.wakeup_freq as int
    } else {
        1
    };
    assert(lag * f <= lag * g) by (nonlinear_arith)
        requires
            lag >= 0,
            f <= g,
    ;
    let a = s.sleep_credit(rare);
    let b = s.sleep_credit(frequent);
    assert(a * w <= b * w) by (nonlinear_arith)
        requires
            a <= b,
            w >= 0,
    ;
}

/// Of two tasks with the same virtual time, neither of them behind its floor, the
/// heavier one is queued no later for the same run time.
pub proof fn law_heavier_is_due_earlier(s: Cosmos, light: TaskRef, heavy: TaskRef, tctx: TaskCtx)
    requires
        0 < light.weight <= heavy.weight,
        light.dsq_vtime == heavy.dsq_vtime,
        s.claimed_vtime(light, tctx) == light.dsq_vtime,
        s.claimed_vtime(heavy, tctx) == heavy.dsq_vtime,
    ensures
        s.deadline(heavy, tctx) <= s.deadline(light, tctx),
{
    law_weight_favours(light.weight, heavy.weight, tctx.exec_runtime);
}

} // verus!
