//! What wakeups, runs and stops leave behind, in terms of times and weights.
use crate::arith::{average, next_freq};
use crate::cosmos::account::{
    in_table, later, load_sample, loaded, performance_for, woken,
};
use crate::cosmos::state::{Cosmos, CpuCtx};
use crate::cosmos::task::{TaskCtx, TaskRef};
use crate::defs::MAX_CPUS;
use vstd::prelude::*;

verus! {

/// A wakeup forgets the run time, records its time, and moves the frequency to
/// that of the time since the last wakeup, up to 1024. Nothing else changes.
pub proof fn law_wakeup_is_recorded(tctx: TaskCtx, t: u64)
    requires
        tctx.last_woke_at <= t,
    ensures
        ({
            let after = woken(tctx, t);
            let freq = next_freq(tctx.wakeup_freq, (t - tctx.last_woke_at) as u64);
            &&& after.exec_runtime == 0
            &&& after.last_woke_at == t
            &&& freq <= 1024 ==> after.wakeup_freq == freq
            &&& freq > 1024 ==> after.wakeup_freq == 1024
            &&& after.last_run_at == tctx.last_run_at
            &&& after.perf_events == tctx.perf_events
            &&& after.perf_sticky_events == tctx.perf_sticky_events
        }),
{
    let n = t - tctx.last_woke_at;
    if n > 0 {
        assert(0 <= 100_000_000int / n <= 100_000_000) by (nonlinear_arith)
            requires
                n > 0,
        ;
    }
}

/// The scheduler's time moves to the task's exactly if it lies behind it on the
/// wrapping clock.
pub proof fn law_time_follows_task(vtime_now: u64, dsq_vtime: u64)
    ensures
        ({
            let behind = (vtime_now < dsq_vtime && dsq_vtime - vtime_now <= 0x8000_0000_0000_0000)
                || (vtime_now > dsq_vtime && vtime_now - dsq_vtime >= 0x8000_0000_0000_0000);
            later(vtime_now, dsq_vtime) == (if behind {
                dsq_vtime
            } else {
                vtime_now
            })
        }),
{
}

/// A CPU is asked for full performance from a load of 768 on, for half up to a
/// load of 256, and in between for its load; where performance is managed and the
/// table has the CPU.
pub proof fn law_performance_follows_load(s: Cosmos, cpu: i32, perf_lvl: u64)
    ensures
        perf_lvl >= 768 ==> performance_for(perf_lvl) == 1024,
        perf_lvl <= 256 ==> performance_for(perf_lvl) == 512,
        256 < perf_lvl < 768 ==> performance_for(perf_lvl) == perf_lvl,
        s.cfg.cpufreq_enabled && 0 <= cpu < MAX_CPUS ==> s.performance_of(cpu) == Some(
            performance_for(s.cpu_ctxs@[cpu as int].perf_lvl),
        ),
        !s.cfg.cpufreq_enabled || cpu < 0 || cpu >= MAX_CPUS ==> s.performance_of(cpu) is None,
        in_table(cpu) <==> 0 <= cpu < MAX_CPUS,
{
}

/// A load sample is the share of the time that was spent running, in 1024ths,
/// rounded down, and never more than the whole.
pub proof fn law_load_is_share_of_time(run: u64, elapsed: u64)
    requires
        elapsed > 0,
    ensures
        ({
            let sample = load_sample(run as int, elapsed as int);
            &&& 0 <= sample <= 1024
            &&& run >= elapsed ==> sample == 1024
            &&& run < elapsed ==> sample * elapsed <= run * 1024 < (sample + 1) * elapsed
        }),
{
    let r = run as int;
    let e = elapsed as int;
    let q = r * 1024 / e;
    assert(q * e <= r * 1024 < (q + 1) * e && 0 <= q) by (nonlinear_arith)
        requires
            q == r * 1024 / e,
            e > 0,
            r >= 0,
    ;
    if r >= e {
        assert(q >= 1024) by (nonlinear_arith)
            requires
                r * 1024 < (q + 1) * e,
                r >= e,
                e > 0,
        ;
    } else {
        assert(q < 1024) by (nonlinear_arith)
            requires
                q * e <= r * 1024,
                r < e,
                e > 0,
                r >= 0,
        ;
    }
}

/// A run is averaged into the load of its CPU, and its time recorded, unless no
/// time has passed since the last time. The events stay.
pub proof fn law_run_is_averaged_into_load(cctx: CpuCtx, run: u64, t: u64)
    requires
        cctx.last_update <= t,
    ensures
        ({
            let after = loaded(cctx, run as int, t);
            &&& t == cctx.last_update ==> after == cctx
            &&& t > cctx.last_update ==> after.last_update == t && after.perf_lvl == average(
                cctx.perf_lvl,
                load_sample(run as int, t - cctx.last_update) as u64,
            )
            &&& after.perf_events == cctx.perf_events
        }),
{
    if t > cctx.last_update {
        law_load_is_share_of_time(run, (t - cctx.last_update) as u64);
    }
}

/// A run is charged at the capacity of its CPU: in 1024ths of it, or in full
/// where all CPUs are alike or the table does not have the CPU.
pub proof fn law_charge_is_run_at_capacity(s: Cosmos, p: TaskRef, tctx: TaskCtx, now: u64)
    requires
        tctx.last_run_at <= now,
    ensures
        s.cfg.all_cpus_same_capacity || p.cpu < 0 || p.cpu >= MAX_CPUS ==> s.charged(p, tctx, now)
            == now - tctx.last_run_at,
        !s.cfg.all_cpus_same_capacity && 0 <= p.cpu < MAX_CPUS ==> s.charged(p, tctx, now) == (now
            - tctx.last_run_at) * s.topo.cpu_capacity@[p.cpu as int] / 1024,
{
    let ran = now - tctx.last_run_at;
    assert(ran * 1024 / 1024 == ran);
}

/// A stop moves the virtual time on by the charge, a hundred times over the
/// weight; by the charge itself at the standard weight and where no weight is
/// set.
pub proof fn law_stop_adds_charge(s: Cosmos, p: TaskRef, tctx: TaskCtx, now: u64)
    ensures
        p.weight == 100 || p.weight == 0 ==> s.stopped_vtime(p, tctx, now) == p.dsq_vtime
            + s.charged(p, tctx, now),
        p.weight > 0 ==> {
            let moved = s.stopped_vtime(p, tctx, now) - p.dsq_vtime;
            moved * p.weight <= s.charged(p, tctx, now) * 100 < (moved + 1) * p.weight
        },
{
    if p.weight > 0 {
        let x = s.charged(p, tctx, now) * 100;
        let w = p.weight as int;
        let q = x / w;
        assert(q * w <= x < (q + 1) * w) by (nonlinear_arith)
            requires
                q == x / w,
                w > 0,
        ;
    }
}

/// A stop adds the charge to the run time, up to the lag. Nothing else of the
/// context changes.
pub proof fn law_stop_adds_run_time(s: Cosmos, p: TaskRef, tctx: TaskCtx, now: u64, load_now: u64)
    requires
        s.stop_fits(p, tctx, now, load_now),
        s.charged(p, tctx, now) >= 0,
    ensures
        ({
            let after = s.stopped(p, tctx, now);
            let run = tctx.exec_runtime + s.charged(p, tctx, now);
            &&& run <= s.cfg.slice_lag ==> after.exec_runtime == run
            &&& run > s.cfg.slice_lag ==> after.exec_runtime == s.cfg.slice_lag
            &&& after.last_run_at == tctx.last_run_at
            &&& after.wakeup_freq == tctx.wakeup_freq
            &&& after.last_woke_at == tctx.last_woke_at
            &&& after.perf_events == tctx.perf_events
            &&& after.perf_sticky_events == tctx.perf_sticky_events
        }),
{
}

/// Events of a task are added to those of its CPU where they are configured.
pub proof fn law_events_are_added(s: Cosmos, cctx: CpuCtx, tctx: TaskCtx)
    requires
        cctx.perf_events + tctx.perf_events <= u64::MAX,
    ensures
        s.counts_events() <==> s.cfg.perf_config != 0 || s.cfg.perf_sticky != 0,
        s.counted(cctx, tctx).perf_events == cctx.perf_events + (if s.cfg.perf_config != 0
            || s.cfg.perf_sticky != 0 {
            tctx.perf_events as int
        } else {
            0
        }),
        s.counted(cctx, tctx).perf_lvl == cctx.perf_lvl,
        s.counted(cctx, tctx).last_update == cctx.last_update,
{
}

/// A run changes the load of its own CPU, where performance is managed and the
/// table has it, and of no other.
pub proof fn law_run_loads_its_cpu(s: Cosmos, cpu: i32, run: int, t: u64, other: int)
    requires
        0 <= other < MAX_CPUS,
    ensures
        s.cpus_loaded(cpu, run, t).len() == s.cpu_ctxs@.len(),
        s.cpus_loaded(cpu, run, t)[other] == (if s.cfg.cpufreq_enabled && other == cpu {
            loaded(s.cpu_ctxs@[other], run, t)
        } else {
            s.cpu_ctxs@[other]
        }),
        s.load_fits(cpu, run, t) <==> (s.cfg.cpufreq_enabled && 0 <= cpu < MAX_CPUS ==> {
            let last = s.cpu_ctxs@[cpu as int].last_update;
            last == t || (last < t && run * 1024 <= u64::MAX)
        }),
{
}

/// A stop changes the context of the task's own CPU and of no other: the events
/// of the task are added where they are configured, and the charge is averaged
/// into the load where performance is managed.
pub proof fn law_stop_changes_its_cpu(
    s: Cosmos,
    p: TaskRef,
    tctx: TaskCtx,
    now: u64,
    load_now: u64,
    other: int,
)
    requires
        0 <= other < MAX_CPUS,
    ensures
        ({
            let cctx = s.counted(s.cpu_ctxs@[other], tctx);
            let after = s.cpus_stopped(p, tctx, now, load_now);
            &&& after.len() == s.cpu_ctxs@.len()
            &&& other != p.cpu ==> after[other] == s.cpu_ctxs@[other]
            &&& other == p.cpu && s.cfg.cpufreq_enabled ==> after[other] == loaded(
                cctx,
                s.charged(p, tctx, now),
                load_now,
            )
            &&& other == p.cpu && !s.cfg.cpufreq_enabled ==> after[other] == cctx
        }),
{
}

/// A stop can be accounted for exactly if the clock did not go back and every
/// product and sum behind it fits.
pub proof fn law_stop_fits(s: Cosmos, p: TaskRef, tctx: TaskCtx, now: u64, load_now: u64)
    requires
        tctx.last_run_at <= now,
    ensures
        ({
            let ran = now - tctx.last_run_at;
            let charge = s.charged(p, tctx, now);
            let known = 0 <= p.cpu < MAX_CPUS;
            s.stop_fits(p, tctx, now, load_now) <==> {
                &&& ((s.cfg.perf_config != 0 || s.cfg.perf_sticky != 0) && known
                    ==> s.cpu_ctxs@[p.cpu as int].perf_events + tctx.perf_events <= u64::MAX)
                &&& s.cfg.all_cpus_same_capacity || ran * (if known {
                    s.topo.cpu_capacity@[p.cpu as int] as int
                } else {
                    1024
                }) <= u64::MAX
                &&& p.weight == 0 || charge * 100 <= u64::MAX
                &&& s.stopped_vtime(p, tctx, now) <= u64::MAX
                &&& tctx.exec_runtime + charge <= u64::MAX
                &&& (s.cfg.cpufreq_enabled && known ==> {
                    let last = s.cpu_ctxs@[p.cpu as int].last_update;
                    last == load_now || (last < load_now && charge * 1024 <= u64::MAX)
                })
            }
        }),
{
}

/// No stop can be accounted for when the clock went back behind the start of the
/// run.
pub proof fn law_clock_back_does_not_fit(
    s: Cosmos,
    p: TaskRef,
    tctx: TaskCtx,
    now: u64,
    load_now: u64,
)
    requires
        now < tctx.last_run_at,
    ensures
        !s.stop_fits(p, tctx, now, load_now),
{
}

} // verus!
