//! Slices, charges and deadlines, in terms of settings, weights and times.
use crate::cosmos::state::Cosmos;
use crate::cosmos::task::{TaskCtx, TaskRef};
use crate::cosmos::weight::{
    weighted, weighted_fits, weighted_inverse, weighted_inverse_fits,
};
use crate::defs::MAX_CPUS;
use vstd::prelude::*;

verus! {

/// Scaling is by hundredths of the weight, rounded down, and an unset weight
/// scales nothing. Inverse scaling gives back the most that the weight makes no
/// more than a hundred times the value of.
pub proof fn law_scaling_by_weight(weight: u32, val: u64)
    ensures
        weight == 0 ==> weighted(weight, val as int) == val && weighted_inverse(weight, val as int)
            == val,
        weight > 0 ==> weighted(weight, val as int) == val * weight / 100,
        weight > 0 ==> {
            let q = weighted_inverse(weight, val as int);
            q * weight <= val * 100 < (q + 1) * weight
        },
        weighted_fits(weight, val as int) <==> val * weight <= u64::MAX,
        weighted_inverse_fits(weight, val as int) <==> weight == 0 || val * 100 <= u64::MAX,
{
    if weight > 0 {
        let x = val * 100;
        let w = weight as int;
        let q = x / w;
        assert(q * w <= x < (q + 1) * w) by (nonlinear_arith)
            requires
                q == x / w,
                w > 0,
        ;
    }
}

/// The slice of a task is the base slice times its weight over 100, and the base
/// slice itself where no weight is set. It can be computed exactly if the product
/// fits.
pub proof fn law_slice_is_base_times_weight(s: Cosmos, p: TaskRef)
    ensures
        p.weight > 0 ==> s.slice_for(p) == s.cfg.slice_ns * p.weight / 100,
        p.weight == 0 ==> s.slice_for(p) == s.cfg.slice_ns,
        s.slice_fits(p) <==> s.cfg.slice_ns * p.weight <= u64::MAX,
{
}

/// A run counts in 1024ths of the CPU's capacity, or in full where all CPUs are
/// alike. A CPU outside the table counts in full.
pub proof fn law_run_counts_by_capacity(s: Cosmos, run: u64, cpu: i32)
    ensures
        s.cfg.all_cpus_same_capacity ==> s.scaled_run(run, cpu) == run && s.scaled_run_fits(
            run,
            cpu,
        ),
        !s.cfg.all_cpus_same_capacity && 0 <= cpu < MAX_CPUS ==> s.scaled_run(run, cpu) == run
            * s.topo.cpu_capacity@[cpu as int] / 1024 && (s.scaled_run_fits(run, cpu) <==> run
            * s.topo.cpu_capacity@[cpu as int] <= u64::MAX),
        !s.cfg.all_cpus_same_capacity && !(0 <= cpu < MAX_CPUS) ==> s.scaled_run(run, cpu) == run
            && (s.scaled_run_fits(run, cpu) <==> run * 1024 <= u64::MAX),
{
}

/// A task is credited with one lag of sleep for each wakeup in 100 ms, and with
/// one lag at least.
pub proof fn law_credit_is_lag_per_wakeup(s: Cosmos, tctx: TaskCtx)
    ensures
        tctx.wakeup_freq > 0 ==> s.sleep_credit(tctx) == s.cfg.slice_lag * tctx.wakeup_freq,
        tctx.wakeup_freq == 0 ==> s.sleep_credit(tctx) == s.cfg.slice_lag,
{
}

/// A task keeps its virtual time unless that lies behind the scheduler's time by
/// more than the credit, on the wrapping clock. Then it gets the time that lies
/// behind by just the credit.
pub proof fn law_claim_reaches_back_by_credit(
    s: Cosmos,
    p: TaskRef,
    tctx: TaskCtx,
    credit: int,
    floor: u64,
)
    requires
        credit == s.cfg.slice_lag * (if tctx.wakeup_freq > 0 {
            tctx.wakeup_freq as int
        } else {
            1
        }),
        ({
            let reach = if p.weight > 0 {
                credit * p.weight / 100
            } else {
                credit
            };
            0 <= reach <= u64::MAX && floor == (if reach <= s.vtime_now {
                s.vtime_now - reach
            } else {
                s.vtime_now - reach + 0x1_0000_0000_0000_0000
            })
        }),
    ensures
        ({
            let behind = (p.dsq_vtime < floor && floor - p.dsq_vtime <= 0x8000_0000_0000_0000) || (
            p.dsq_vtime > floor && p.dsq_vtime - floor >= 0x8000_0000_0000_0000);
            s.claimed_vtime(p, tctx) == (if behind {
                floor
            } else {
                p.dsq_vtime
            })
        }),
        s.vtime_floor(p, tctx) == floor,
{
}

/// The deadline lies after the claimed time by the run time since the task woke
/// up, a hundred times over its weight; by the run time itself at the standard
/// weight and where no weight is set.
pub proof fn law_deadline_adds_run_time(s: Cosmos, p: TaskRef, tctx: TaskCtx)
    ensures
        p.weight == 100 || p.weight == 0 ==> s.deadline(p, tctx) == s.claimed_vtime(p, tctx)
            + tctx.exec_runtime,
        p.weight > 0 ==> {
            let late = s.deadline(p, tctx) - s.claimed_vtime(p, tctx);
            late * p.weight <= tctx.exec_runtime * 100 < (late + 1) * p.weight
        },
{
    law_scaling_by_weight(p.weight, tctx.exec_runtime);
}

/// Of two runs of a task of the standard weight that are alike but for their
/// length, the deadlines differ by just the difference of the lengths. At any
/// weight the longer run has the later deadline once it is longer by a
/// hundredth of the weight.
pub proof fn law_longer_run_is_due_later(s: Cosmos, p: TaskRef, brief: TaskCtx, long: TaskCtx)
    requires
        brief.wakeup_freq == long.wakeup_freq,
        brief.exec_runtime <= long.exec_runtime,
    ensures
        s.claimed_vtime(p, brief) == s.claimed_vtime(p, long),
        p.weight == 100 || p.weight == 0 ==> s.deadline(p, long) - s.deadline(p, brief)
            == long.exec_runtime - brief.exec_runtime,
        (long.exec_runtime - brief.exec_runtime) * 100 >= p.weight && p.weight > 0 ==> s.deadline(
            p,
            brief,
        ) < s.deadline(p, long),
{
    assert(s.sleep_credit(brief) == s.sleep_credit(long));
    law_deadline_adds_run_time(s, p, brief);
    law_deadline_adds_run_time(s, p, long);
    if p.weight > 0 && (long.exec_runtime - brief.exec_runtime) * 100 >= p.weight {
        let w = p.weight as int;
        let a = brief.exec_runtime as int;
        let b = long.exec_runtime as int;
        let x = s.deadline(p, brief) - s.claimed_vtime(p, brief);
        let y = s.deadline(p, long) - s.claimed_vtime(p, long);
        assert(x < y) by (nonlinear_arith)
            requires
                w > 0,
                x * w <= a * 100,
                b * 100 < (y + 1) * w,
                (b - a) * 100 >= w,
        ;
    }
}

/// A deadline can be computed exactly if the credit, its weighted product, the
/// hundredfold run time of a weighted task and the deadline itself fit.
pub proof fn law_deadline_fits(s: Cosmos, p: TaskRef, tctx: TaskCtx, credit: int)
    requires
        credit == s.cfg.slice_lag * (if tctx.wakeup_freq > 0 {
            tctx.wakeup_freq as int
        } else {
            1
        }),
    ensures
        s.deadline_fits(p, tctx) <==> credit <= u64::MAX && credit * p.weight <= u64::MAX && (
        p.weight == 0 || tctx.exec_runtime * 100 <= u64::MAX) && s.deadline(p, tctx) <= u64::MAX,
{
}

} // verus!
