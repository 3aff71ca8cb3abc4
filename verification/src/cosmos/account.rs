//! Time accounting: what wakeups, runs and stops leave behind.
use crate::arith::{
    average, calc_avg, clock_before, clock_distance, law_average_between, next_freq, time_before,
    update_freq,
};
use crate::cosmos::state::{get_cpu_ctx, get_task_ctx, set_task_ctx, slice_lag, Cosmos, CpuCtx};
use crate::cosmos::task::{TaskCtx, TaskRef};
use crate::cosmos::topology::cpu_cap;
use crate::cosmos::weight::{
    law_sleep_credit_is_bounded, law_weight_favours, lemma_weighted_inverse_bound,
    scale_by_cpu_capacity, scale_by_weight_inverse, weighted, weighted_inverse,
    weighted_inverse_fits,
};
use crate::defs::{
    CPUFREQ_HIGH_THRESH, CPUFREQ_LOW_THRESH, MAX_CPUS, MAX_WAKEUP_FREQ, SCX_CPUPERF_ONE,
};
use vstd::prelude::*;

verus! {

pub open spec fn smaller(a: int, b: int) -> int {
    if a <= b {
        a
    } else {
        b
    }
}

/// The context of a task after it woke up at `t`.
pub open spec fn woken(tctx: TaskCtx, t: u64) -> TaskCtx {
    TaskCtx {
        exec_runtime: 0,
        wakeup_freq: smaller(
            next_freq(tctx.wakeup_freq, (t - tctx.last_woke_at) as u64),
            MAX_WAKEUP_FREQ as int,
        ) as u64,
        last_woke_at: t,
        ..tctx
    }
}

/// The later of two times on the wrapping clock.
pub open spec fn later(a: u64, b: u64) -> u64 {
    if clock_before(a, b) {
        b
    } else {
        a
    }
}

/// Load of a CPU that ran for `run` out of `elapsed` nanoseconds.
pub open spec fn load_sample(run: int, elapsed: int) -> int {
    smaller(run * SCX_CPUPERF_ONE / elapsed, SCX_CPUPERF_ONE as int)
}

/// The context of a CPU after a run of `run` nanoseconds was added to its load
/// at `t`.
pub open spec fn loaded(cctx: CpuCtx, run: int, t: u64) -> CpuCtx {
    if t == cctx.last_update {
        cctx
    } else {
        CpuCtx {
            perf_lvl: average(
                cctx.perf_lvl,
                load_sample(run, t - cctx.last_update) as u64,
            ) as u64,
            last_update: t,
            ..cctx
        }
    }
}

/// The performance that a CPU of a given load is asked for.
pub open spec fn performance_for(perf_lvl: u64) -> u64 {
    if perf_lvl >= CPUFREQ_HIGH_THRESH {
        SCX_CPUPERF_ONE
    } else if perf_lvl <= CPUFREQ_LOW_THRESH {
        (SCX_CPUPERF_ONE / 2) as u64
    } else {
        perf_lvl
    }
}

pub open spec fn in_table(cpu: i32) -> bool {
    0 <= cpu < MAX_CPUS
}

impl Cosmos {
    pub open spec fn counts_events(self) -> bool {
        self.cfg.perf_config != 0 || self.cfg.perf_sticky != 0
    }

    /// Time since the task was put on its CPU, scaled by the CPU's capacity.
    pub open spec fn charged(self, p: TaskRef, tctx: TaskCtx, now: u64) -> int {
        self.scaled_run((now - tctx.last_run_at) as u64, p.cpu)
    }

    /// The context of a task after it stopped.
    pub open spec fn stopped(self, p: TaskRef, tctx: TaskCtx, now: u64) -> TaskCtx {
        TaskCtx {
            exec_runtime: smaller(
                tctx.exec_runtime + self.charged(p, tctx, now),
                self.cfg.slice_lag as int,
            ) as u64,
            ..tctx
        }
    }

    /// The virtual time of a task after it stopped.
    pub open spec fn stopped_vtime(self, p: TaskRef, tctx: TaskCtx, now: u64) -> int {
        p.dsq_vtime + weighted_inverse(p.weight, self.charged(p, tctx, now))
    }

    /// The context of a CPU after the events of a task were added.
    pub open spec fn counted(self, cctx: CpuCtx, tctx: TaskCtx) -> CpuCtx {
        if self.counts_events() {
            CpuCtx { perf_events: (cctx.perf_events + tctx.perf_events) as u64, ..cctx }
        } else {
            cctx
        }
    }

    /// The CPU contexts after a run of `run` nanoseconds on `cpu` was added to
    /// the CPU's load.
    pub open spec fn cpus_loaded(self, cpu: i32, run: int, t: u64) -> Seq<CpuCtx> {
        if self.cfg.cpufreq_enabled && in_table(cpu) {
            self.cpu_ctxs@.update(cpu as int, loaded(self.cpu_ctxs@[cpu as int], run, t))
        } else {
            self.cpu_ctxs@
        }
    }

    /// The sums and products behind `cpus_loaded` fit in 64 bits.
    pub open spec fn load_fits(self, cpu: i32, run: int, t: u64) -> bool {
        self.cfg.cpufreq_enabled && in_table(cpu) ==> {
            let last = self.cpu_ctxs@[cpu as int].last_update;
            last <= t && (last < t ==> run * SCX_CPUPERF_ONE <= u64::MAX)
        }
    }

    /// The CPU contexts after a task stopped.
    pub open spec fn cpus_stopped(self, p: TaskRef, tctx: TaskCtx, now: u64, load_now: u64) -> Seq<
        CpuCtx,
    > {
        if in_table(p.cpu) {
            let cctx = self.counted(self.cpu_ctxs@[p.cpu as int], tctx);
            let cctx = if self.cfg.cpufreq_enabled {
                loaded(cctx, self.charged(p, tctx, now), load_now)
            } else {
                cctx
            };
            self.cpu_ctxs@.update(p.cpu as int, cctx)
        } else {
            self.cpu_ctxs@
        }
    }

    /// Every difference, sum and product behind a stop fits in 64 bits.
    pub open spec fn stop_fits(self, p: TaskRef, tctx: TaskCtx, now: u64, load_now: u64) -> bool {
        let run = self.charged(p, tctx, now);
        &&& tctx.last_run_at <= now
        &&& self.counts_events() && in_table(p.cpu) ==> self.cpu_ctxs@[p.cpu as int].perf_events
            + tctx.perf_events <= u64::MAX
        &&& self.scaled_run_fits((now - tctx.last_run_at) as u64, p.cpu)
        &&& weighted_inverse_fits(p.weight, run)
        &&& self.stopped_vtime(p, tctx, now) <= u64::MAX
        &&& tctx.exec_runtime + run <= u64::MAX
        &&& self.load_fits(p.cpu, run, load_now)
    }

    /// The performance to ask for on a CPU, where it is managed.
    pub open spec fn performance_of(self, cpu: i32) -> Option<u64> {
        if self.cfg.cpufreq_enabled && in_table(cpu) {
            Some(performance_for(self.cpu_ctxs@[cpu as int].perf_lvl))
        } else {
            None
        }
    }
}

/// Adds the events of a task to those of the CPU that it ran on.
pub fn update_counters(s: &mut Cosmos, tctx: &TaskCtx, cpu: i32)
    requires
        in_table(cpu) ==> old(s).cpu_ctxs@[cpu as int].perf_events + tctx.perf_events <= u64::MAX,
    ensures
        final(s).same_outside_ctxs(*old(s)),
        final(s).task_ctxs == old(s).task_ctxs,
        final(s).cpu_ctxs@ == (if in_table(cpu) {
            let cctx = old(s).cpu_ctxs@[cpu as int];
            old(s).cpu_ctxs@.update(
                cpu as int,
                CpuCtx { perf_events: (cctx.perf_events + tctx.perf_events) as u64, ..cctx },
            )
        } else {
            old(s).cpu_ctxs@
        }),
{
    if let Some(mut cctx) = get_cpu_ctx(s, cpu) {
        cctx.perf_events = cctx.perf_events + tctx.perf_events;
        s.cpu_ctxs[cpu as usize] = cctx;
    }
}

/// The performance to ask the kernel for on a CPU, if any.
pub fn update_cpufreq(s: &Cosmos, cpu: i32) -> (r: Option<u64>)
    ensures
        r == s.performance_of(cpu),
{
    if !s.cfg.cpufreq_enabled {
        return None;
    }
    let cctx: CpuCtx = match get_cpu_ctx(s, cpu) {
        Some(cctx) => cctx,
        None => return None,
    };
    let perf_lvl: u64 = if cctx.perf_lvl >= CPUFREQ_HIGH_THRESH {
        SCX_CPUPERF_ONE
    } else if cctx.perf_lvl <= CPUFREQ_LOW_THRESH {
        SCX_CPUPERF_ONE / 2
    } else {
        cctx.perf_lvl
    };
    Some(perf_lvl)
}

/// Adds a run of `slice` nanoseconds to the load of the task's CPU.
pub fn update_cpu_load(s: &mut Cosmos, p: &TaskRef, slice: u64, t: u64)
    requires
        old(s).load_fits(p.cpu, slice as int, t),
    ensures
        final(s).same_outside_ctxs(*old(s)),
        final(s).task_ctxs == old(s).task_ctxs,
        final(s).cpu_ctxs@ == old(s).cpus_loaded(p.cpu, slice as int, t),
{
    if !s.cfg.cpufreq_enabled {
        return ;
    }
    let cpu: i32 = p.cpu();
    let mut cctx: CpuCtx = match get_cpu_ctx(s, cpu) {
        Some(cctx) => cctx,
        None => return ,
    };
    let delta_t: u64 = t - cctx.last_update;
    if delta_t == 0 {
        assert(s.cpu_ctxs@.update(cpu as int, cctx) =~= s.cpu_ctxs@);
        return ;
    }
    proof {
        let run = slice as int;
        let elapsed = delta_t as int;
        assert(0 <= run * 1024 / elapsed <= run * 1024) by (nonlinear_arith)
            requires
                run >= 0,
                elapsed >= 1,
        ;
    }
    let share: u64 = slice * SCX_CPUPERF_ONE / delta_t;
    let perf_lvl: u64 = if share <= SCX_CPUPERF_ONE {
        share
    } else {
        SCX_CPUPERF_ONE
    };
    cctx.perf_lvl = calc_avg(cctx.perf_lvl, perf_lvl);
    cctx.last_update = t;
    s.cpu_ctxs[cpu as usize] = cctx;
}

/// Takes note that a task woke up at `t`.
pub fn cosmos_runnable(s: &mut Cosmos, p: &TaskRef, t: u64)
    requires
        old(s).ctx_of(p.pid) matches Some(tctx) ==> tctx.last_woke_at <= t,
    ensures
        final(s).same_outside_ctxs(*old(s)),
        final(s).cpu_ctxs == old(s).cpu_ctxs,
        final(s).tasks() == (match old(s).ctx_of(p.pid) {
            Some(tctx) => old(s).tasks_with(p.pid, woken(tctx, t)),
            None => old(s).tasks(),
        }),
        old(s).capped() ==> final(s).capped(),
        old(s).recorded_by(t) ==> final(s).recorded_by(t),
{
    let mut tctx: TaskCtx = match get_task_ctx(s, p.pid) {
        Some(tctx) => tctx,
        None => return ,
    };
    tctx.exec_runtime = 0;
    let delta_t: u64 = t - tctx.last_woke_at;
    tctx.wakeup_freq = update_freq(tctx.wakeup_freq, delta_t);
    if tctx.wakeup_freq > MAX_WAKEUP_FREQ {
        tctx.wakeup_freq = MAX_WAKEUP_FREQ;
    }
    tctx.last_woke_at = t;
    set_task_ctx(s, p.pid, tctx);
    proof {
        lemma_task_kept(*old(s), *s, p.pid, tctx);
    }
}

/// Whether the time since a task last woke up can be computed.
pub fn runnable_fits(s: &Cosmos, p: &TaskRef, t: u64) -> (r: bool)
    ensures
        r == (s.ctx_of(p.pid) matches Some(tctx) ==> tctx.last_woke_at <= t),
{
    match get_task_ctx(s, p.pid) {
        Some(tctx) => tctx.last_woke_at <= t,
        None => true,
    }
}

/// Takes note that a task was put on its CPU. The scheduler's time follows the
/// task's where that is later. The performance to ask for on the CPU is returned.
pub fn cosmos_running(s: &mut Cosmos, p: &TaskRef, now: u64) -> (r: Option<u64>)
    ensures
        match old(s).ctx_of(p.pid) {
            Some(tctx) => {
                &&& final(s).tasks() == old(s).tasks_with(
                    p.pid,
                    TaskCtx { last_run_at: now, ..tctx },
                )
                &&& final(s).vtime_now == later(old(s).vtime_now, p.dsq_vtime)
                &&& r == old(s).performance_of(p.cpu)
            },
            None => {
                &&& final(s).tasks() == old(s).tasks()
                &&& final(s).vtime_now == old(s).vtime_now
                &&& r is None
            },
        },
        final(s).same_outside_ctxs(Cosmos { vtime_now: final(s).vtime_now, ..*old(s) }),
        final(s).cpu_ctxs == old(s).cpu_ctxs,
        old(s).capped() ==> final(s).capped(),
        old(s).recorded_by(now) ==> final(s).recorded_by(now),
{
    let mut tctx: TaskCtx = match get_task_ctx(s, p.pid) {
        Some(tctx) => tctx,
        None => return None,
    };
    tctx.last_run_at = now;
    set_task_ctx(s, p.pid, tctx);
    if time_before(s.vtime_now, p.dsq_vtime) {
        s.vtime_now = p.dsq_vtime;
    }
    proof {
        lemma_task_kept(*old(s), *s, p.pid, tctx);
    }
    update_cpufreq(s, p.cpu())
}

/// Takes note that a task stopped, and charges it for the time that it ran.
/// `load_now` is the time at which the load of the CPU is brought up to date.
pub fn cosmos_stopping(s: &mut Cosmos, p: &mut TaskRef, now: u64, load_now: u64)
    requires
        old(s).ctx_of(old(p).pid) matches Some(tctx) ==> old(s).stop_fits(
            *old(p),
            tctx,
            now,
            load_now,
        ),
    ensures
        match old(s).ctx_of(old(p).pid) {
            Some(tctx) => {
                &&& *final(p) == (TaskRef {
                    dsq_vtime: old(s).stopped_vtime(*old(p), tctx, now) as u64,
                    ..*old(p)
                })
                &&& final(s).tasks() == old(s).tasks_with(
                    old(p).pid,
                    old(s).stopped(*old(p), tctx, now),
                )
                &&& final(s).cpu_ctxs@ == old(s).cpus_stopped(*old(p), tctx, now, load_now)
            },
            None => {
                &&& *final(p) == *old(p)
                &&& final(s).tasks() == old(s).tasks()
                &&& final(s).cpu_ctxs == old(s).cpu_ctxs
            },
        },
        final(s).same_outside_ctxs(*old(s)),
        final(p).dsq_vtime >= old(p).dsq_vtime,
        old(s).capped() ==> final(s).capped(),
        old(s).recorded_by(load_now) ==> final(s).recorded_by(load_now),
{
    let cpu: i32 = p.cpu();
    let mut tctx: TaskCtx = match get_task_ctx(s, p.pid) {
        Some(tctx) => tctx,
        None => return ,
    };
    let ghost before = tctx;
    if s.cfg.perf_config != 0 || s.cfg.perf_sticky != 0 {
        update_counters(s, &tctx, cpu);
    }
    let slice: u64 = now - tctx.last_run_at;
    let scaled: u64 = scale_by_cpu_capacity(s, slice, cpu);
    proof {
        lemma_weighted_inverse_bound(p.weight, scaled as int);
    }
    p.dsq_vtime = p.dsq_vtime + scale_by_weight_inverse(p, scaled);
    let runtime: u64 = tctx.exec_runtime + scaled;
    tctx.exec_runtime = if runtime <= slice_lag(s) {
        runtime
    } else {
        slice_lag(s)
    };
    set_task_ctx(s, p.pid, tctx);
    update_cpu_load(s, p, scaled, load_now);
    proof {
        lemma_task_kept(*old(s), *s, p.pid, tctx);
        let cpus = old(s).cpus_stopped(*old(p), before, now, load_now);
        assert(s.cpu_ctxs@ =~= cpus);
        if in_table(cpu) {
            let cctx = old(s).cpu_ctxs@[cpu as int];
            let sample = load_sample(scaled as int, load_now - cctx.last_update);
            law_average_between(cctx.perf_lvl, sample as u64);
        }
    }
}

/// Whether a stop can be accounted for in 64 bits.
pub fn stopping_fits(s: &Cosmos, p: &TaskRef, now: u64, load_now: u64) -> (r: bool)
    ensures
        r == (s.ctx_of(p.pid) matches Some(tctx) ==> s.stop_fits(*p, tctx, now, load_now)),
{
    let cpu: i32 = p.cpu();
    let tctx: TaskCtx = match get_task_ctx(s, p.pid) {
        Some(tctx) => tctx,
        None => return true,
    };
    if now < tctx.last_run_at {
        return false;
    }
    let cctx: Option<CpuCtx> = get_cpu_ctx(s, cpu);
    if s.cfg.perf_config != 0 || s.cfg.perf_sticky != 0 {
        if let Some(c) = cctx {
            if c.perf_events.checked_add(tctx.perf_events).is_none() {
                return false;
            }
        }
    }
    let slice: u64 = now - tctx.last_run_at;
    if !s.cfg.all_cpus_same_capacity && slice.checked_mul(cpu_cap(s, cpu)).is_none() {
        return false;
    }
    let scaled: u64 = scale_by_cpu_capacity(s, slice, cpu);
    if p.weight != 0 && scaled.checked_mul(100).is_none() {
        return false;
    }
    proof {
        lemma_weighted_inverse_bound(p.weight, scaled as int);
    }
    if p.dsq_vtime.checked_add(scale_by_weight_inverse(p, scaled)).is_none() {
        return false;
    }
    if tctx.exec_runtime.checked_add(scaled).is_none() {
        return false;
    }
    if s.cfg.cpufreq_enabled {
        if let Some(c) = cctx {
            if load_now < c.last_update {
                return false;
            }
            if c.last_update < load_now && scaled.checked_mul(SCX_CPUPERF_ONE).is_none() {
                return false;
            }
        }
    }
    true
}

/// Lets a task that enters the scheduler start at the scheduler's own time.
pub fn cosmos_enable(s: &Cosmos, p: &mut TaskRef)
    ensures
        *final(p) == (TaskRef { dsq_vtime: s.vtime_now, ..*old(p) }),
{
    p.dsq_vtime = s.vtime_now;
}

/// Only the context of `pid` changed between `before` and `after`.
proof fn lemma_task_kept(before: Cosmos, after: Cosmos, pid: u32, tctx: TaskCtx)
    requires
        before.ctx_of(pid) is Some,
        after.tasks() == before.tasks_with(pid, tctx),
    ensures
        forall|other: u32| #[trigger]
            after.ctx_of(other) == (if other == pid {
                Some(tctx)
            } else {
                before.ctx_of(other)
            }),
{
}

/// Unless a task's time lies exactly half the clock away, the scheduler's time
/// never goes back, and is not behind any task that it let run.
pub proof fn law_time_never_goes_back(vtime_now: u64, dsq_vtime: u64)
    requires
        clock_distance(vtime_now, dsq_vtime) != 0x8000_0000_0000_0000,
    ensures
        !clock_before(later(vtime_now, dsq_vtime), vtime_now),
        !clock_before(later(vtime_now, dsq_vtime), dsq_vtime),
{
}

/// A task that enters the scheduler is queued by the scheduler's own time, with
/// neither credit nor debt.
pub proof fn law_enabled_starts_level(s: Cosmos, p: TaskRef)
    requires
        p.dsq_vtime == s.vtime_now,
        s.deadline_fits(p, TaskCtx::fresh()),
        weighted(p.weight, s.sleep_credit(TaskCtx::fresh())) < 0x8000_0000_0000_0000,
    ensures
        s.deadline(p, TaskCtx::fresh()) == s.vtime_now,
{
    law_sleep_credit_is_bounded(s, p, TaskCtx::fresh());
}

/// A CPU is never asked for more than full performance, nor for as little as a
/// quarter of it.
pub proof fn law_performance_in_range(perf_lvl: u64)
    ensures
        CPUFREQ_LOW_THRESH < performance_for(perf_lvl) <= SCX_CPUPERF_ONE,
{
}

/// A heavier task is charged no more virtual time for the same run.
pub proof fn law_heavier_is_charged_less(
    s: Cosmos,
    light: TaskRef,
    heavy: TaskRef,
    tctx: TaskCtx,
    now: u64,
    load_now: u64,
)
    requires
        0 < light.weight <= heavy.weight,
        light.cpu == heavy.cpu,
        light.dsq_vtime == heavy.dsq_vtime,
        s.stop_fits(light, tctx, now, load_now),
    ensures
        s.stopped_vtime(heavy, tctx, now) <= s.stopped_vtime(light, tctx, now),
{
    law_weight_favours(
        light.weight,
        heavy.weight,
        s.charged(light, tctx, now) as u64,
    );
}

/// A stop sets back neither the virtual time of a task nor the run time that it
/// is credited with, and that run time never exceeds the lag.
pub proof fn law_stop_moves_forward(s: Cosmos, p: TaskRef, tctx: TaskCtx, now: u64, load_now: u64)
    requires
        s.stop_fits(p, tctx, now, load_now),
        tctx.exec_runtime <= s.cfg.slice_lag,
    ensures
        tctx.exec_runtime <= s.stopped(p, tctx, now).exec_runtime <= s.cfg.slice_lag,
        p.dsq_vtime <= s.stopped_vtime(p, tctx, now),
{
    let run = now - tctx.last_run_at;
    let cap = s.capacity(p.cpu) as int;
    assert(0 <= run * cap) by (nonlinear_arith)
        requires
            0 <= run,
            0 <= cap,
    ;
    lemma_weighted_inverse_bound(p.weight, s.charged(p, tctx, now));
}

/// Under a hundred days of uptime, with capacities up to the full one, virtual
/// times in the lower half of the clock and no events to count, every stop can
/// be accounted for.
pub proof fn law_stop_fits_for_days(
    s: Cosmos,
    p: TaskRef,
    tctx: TaskCtx,
    now: u64,
    load_now: u64,
)
    requires
        s.ctx_of(p.pid) == Some(tctx),
        s.recorded_by(now),
        s.capped(),
        now <= load_now,
        now < 100 * 24 * 3600 * 1_000_000_000,
        s.capacity(p.cpu) <= SCX_CPUPERF_ONE,
        p.dsq_vtime < 0x8000_0000_0000_0000,
        s.cfg.slice_lag < 0x8000_0000_0000_0000,
        !s.counts_events(),
    ensures
        s.stop_fits(p, tctx, now, load_now),
{
    let run = now - tctx.last_run_at;
    let cap = s.capacity(p.cpu) as int;
    assert(0 <= run * cap <= run * 1024) by (nonlinear_arith)
        requires
            0 <= run,
            0 <= cap <= 1024,
    ;
    let charged = s.charged(p, tctx, now);
    assert(0 <= charged <= run);
    lemma_weighted_inverse_bound(p.weight, charged);
    if p.weight != 0 {
        let w = p.weight as int;
        assert(charged * 100 / w <= charged * 100) by (nonlinear_arith)
            requires
                charged >= 0,
                w >= 1,
        ;
    }
    if in_table(p.cpu) {
        assert(s.cpu_ctxs@[p.cpu as int].last_update <= now);
    }
}

} // verus!
