use scx_sched::cosmos::account::{
    cosmos_enable, cosmos_runnable, cosmos_running, cosmos_stopping, runnable_fits,
    stopping_fits, update_counters, update_cpu_load, update_cpufreq,
};
use scx_sched::cosmos::dispatch::{
    cosmos_dispatch, dispatch_idle_read, dispatch_moved, dispatch_sibling_probed, keep_running,
    needs_sibling, Dispatch,
};
use scx_sched::cosmos::lifecycle::{
    cosmos_exit_task, cosmos_init, cosmos_init_task, enable_primary_cpu, enable_sibling_cpu,
    init_created, CpuArg, DomainArg, Init,
};
use scx_sched::cosmos::state::{
    get_cpu_ctx, get_task_ctx, nr_cpu_ids, set_task_ctx, slice_lag, slice_ns, Config, Cosmos,
    CpuCtx,
};
use scx_sched::cosmos::task::{task_should_migrate, TaskCtx, TaskRef};
use scx_sched::cosmos::tick::{
    cosmos_tick, tick_idle_read, tick_local_counted, tick_shared_counted, tick_sibling_probed, Tick,
};
use scx_sched::cosmos::topology::{
    can_use_node, cpu_cap, cpu_node, cpus_share_cache, gpu_node_by_pid, is_core_contended,
    is_cpu_busy,
    is_cpu_faster, is_cpu_idle, is_cpu_valid, is_primary_cpu, is_smt_contended, is_wake_affine,
    node_cpumask, pick_cpu_on_gpu_node, shared_dsq, smt_sibling, test_cpu_idle,
};
use scx_sched::cosmos::weight::{
    scale_by_cpu_capacity, scale_by_weight, scale_by_weight_inverse, task_deadline,
    task_deadline_fits, task_slice, task_slice_fits,
};
use scx_sched::cpumask::CpuMask;
use scx_sched::defs::{SCX_DSQ_LOCAL_ON, SCX_TASK_QUEUED, SHARED_DSQ};

fn mask(cpus: &[i32]) -> CpuMask {
    let mut m = CpuMask::empty();
    for &cpu in cpus {
        m.set_cpu(cpu);
    }
    m
}

fn task(cpus: &[i32], cpu: i32) -> TaskRef {
    TaskRef {
        pid: 7,
        flags: 0,
        nr_cpus_allowed: cpus.len() as u32,
        mm: 0,
        cpus_allowed: mask(cpus),
        first_allowed: cpus[0],
        dsq_vtime: 0,
        slice: 0,
        weight: 100,
        scx_flags: 0,
        cpu,
        running: false,
    }
}

fn with_task(nr_cpus: u64, p: &TaskRef) -> Cosmos {
    let mut s = Cosmos::new();
    cosmos_init(&mut s, nr_cpus);
    cosmos_init_task(&mut s, p);
    s
}

#[test]
fn standard_settings() {
    let s = Cosmos::new();
    assert_eq!(s.cfg, Config::new());
    assert_eq!(slice_ns(&s), 1_000_000);
    assert_eq!(slice_lag(&s), 20_000_000);
    assert_eq!(nr_cpu_ids(&s), 0);
    assert!(s.cfg.primary_all && s.cfg.smt_enabled && s.cfg.cpufreq_enabled);
    assert!(s.cfg.gpu_enabled && s.cfg.avoid_smt && s.cfg.tick_preempt);
    assert!(!s.cfg.flat_idle_scan && !s.cfg.preferred_idle_scan && !s.cfg.numa_enabled);
    assert!(!s.cfg.all_cpus_same_capacity && !s.cfg.mm_affinity);
    assert!(!s.cfg.no_wake_sync && !s.cfg.no_early_clear);
    assert_eq!(s.smt_sibling[0], -1);
    assert_eq!(s.topo.cpu_capacity[1023], 1024);
    assert_eq!(CpuCtx::new(), CpuCtx { last_update: 0, perf_lvl: 0, perf_events: 0 });
    assert_eq!(get_cpu_ctx(&s, 0), Some(CpuCtx::new()));
    assert_eq!(get_cpu_ctx(&s, -1), None);
    assert_eq!(get_cpu_ctx(&s, 1024), None);
}

#[test]
fn task_flags() {
    let mut p = task(&[0, 1], 1);
    assert!(!p.is_queued());
    p.scx_flags = SCX_TASK_QUEUED | 8;
    assert!(p.is_queued());
    assert!(!p.is_pcpu());
    assert!(task(&[4], 4).is_pcpu());
    assert_eq!(p.cpu(), 1);
    assert!(p.cpu_allowed(1));
    assert!(!p.cpu_allowed(2));
    assert!(task_should_migrate(&p));
    p.running = true;
    assert!(p.is_running());
    assert!(!task_should_migrate(&p));
}

#[test]
fn scaling_by_weight() {
    let mut p = task(&[0], 0);
    assert_eq!(scale_by_weight(&p, 1_000), 1_000);
    assert_eq!(scale_by_weight_inverse(&p, 1_000), 1_000);
    p.weight = 50;
    assert_eq!(scale_by_weight(&p, 1_001), 500);
    assert_eq!(scale_by_weight_inverse(&p, 1_000), 2_000);
    p.weight = 300;
    assert_eq!(scale_by_weight(&p, 1_000), 3_000);
    assert_eq!(scale_by_weight_inverse(&p, 1_000), 333);
    p.weight = 0;
    assert_eq!(scale_by_weight(&p, 1_000), 1_000);
    assert_eq!(scale_by_weight_inverse(&p, u64::MAX), u64::MAX);
}

#[test]
fn scaling_by_capacity() {
    let mut s = Cosmos::new();
    s.topo.cpu_capacity[2] = 512;
    assert_eq!(scale_by_cpu_capacity(&s, 1_000, 2), 500);
    assert_eq!(scale_by_cpu_capacity(&s, 1_000, 0), 1_000);
    assert_eq!(scale_by_cpu_capacity(&s, 1_000, -1), 1_000);
    s.cfg.all_cpus_same_capacity = true;
    assert_eq!(scale_by_cpu_capacity(&s, 1_000, 2), 1_000);
}

#[test]
fn slices_follow_the_weight() {
    let s = Cosmos::new();
    let mut p = task(&[0], 0);
    assert_eq!(task_slice(&s, &p), 1_000_000);
    p.weight = 250;
    assert_eq!(task_slice(&s, &p), 2_500_000);
}

#[test]
fn slices_that_do_not_fit_are_told_apart() {
    let mut s = Cosmos::new();
    let mut p = task(&[0], 0);
    assert!(task_slice_fits(&s, &p));
    s.cfg.slice_ns = u64::MAX;
    assert!(!task_slice_fits(&s, &p));
    p.weight = 1;
    assert!(task_slice_fits(&s, &p));
    p.weight = 0;
    assert!(task_slice_fits(&s, &p));
}

#[test]
fn deadline_is_held_to_the_floor() {
    let mut s = Cosmos::new();
    s.vtime_now = 100_000_000;
    let mut p = task(&[0], 0);
    let tctx = TaskCtx { exec_runtime: 500, wakeup_freq: 2, ..TaskCtx::new() };
    p.dsq_vtime = 1_000;
    assert!(task_deadline_fits(&s, &p, &tctx));
    // Two lags of 20 ms behind 100 ms.
    assert_eq!(task_deadline(&s, &mut p, &tctx), 60_000_500);
    assert_eq!(p.dsq_vtime, 60_000_000);
    assert_eq!(task_deadline(&s, &mut p, &tctx), 60_000_500);
    p.dsq_vtime = 70_000_000;
    assert_eq!(task_deadline(&s, &mut p, &tctx), 70_000_500);
    assert_eq!(p.dsq_vtime, 70_000_000);
}

#[test]
fn deadline_of_a_heavy_task() {
    let mut s = Cosmos::new();
    s.vtime_now = 100_000_000;
    let mut p = task(&[0], 0);
    p.weight = 200;
    let tctx = TaskCtx { exec_runtime: 500, ..TaskCtx::new() };
    // No wakeups count as one; a double weight doubles the credit and halves
    // the run time.
    assert_eq!(task_deadline(&s, &mut p, &tctx), 60_000_250);
}

#[test]
fn deadline_floor_wraps() {
    let s = Cosmos::new();
    let mut p = task(&[0], 0);
    p.dsq_vtime = u64::MAX - 30_000_000;
    let tctx = TaskCtx::new();
    assert_eq!(task_deadline(&s, &mut p, &tctx), u64::MAX - 19_999_999);
    p.dsq_vtime = 5;
    assert_eq!(task_deadline(&s, &mut p, &tctx), 5);
}

#[test]
fn deadlines_that_do_not_fit_are_told_apart() {
    let mut s = Cosmos::new();
    let mut p = task(&[0], 0);
    let run = TaskCtx { exec_runtime: 1, ..TaskCtx::new() };
    p.dsq_vtime = u64::MAX;
    assert!(!task_deadline_fits(&s, &p, &run));
    p.dsq_vtime = u64::MAX - 1;
    assert!(task_deadline_fits(&s, &p, &run));
    let long = TaskCtx { exec_runtime: u64::MAX / 99, ..TaskCtx::new() };
    p.dsq_vtime = 0;
    assert!(!task_deadline_fits(&s, &p, &long));
    p.weight = 0;
    assert!(task_deadline_fits(&s, &p, &long));
    s.cfg.slice_lag = u64::MAX;
    let often = TaskCtx { wakeup_freq: 2, ..TaskCtx::new() };
    assert!(!task_deadline_fits(&s, &p, &often));
    assert!(task_deadline_fits(&s, &p, &TaskCtx::new()));
    p.weight = 2;
    assert!(!task_deadline_fits(&s, &p, &TaskCtx::new()));
}

#[test]
fn shorter_runs_and_more_wakeups_give_earlier_deadlines() {
    let mut s = Cosmos::new();
    s.vtime_now = 1_000_000_000;
    let deadline = |run: u64, freq: u64| {
        let tctx = TaskCtx { exec_runtime: run, wakeup_freq: freq, ..TaskCtx::new() };
        task_deadline(&s, &mut task(&[0], 0), &tctx)
    };
    assert!(deadline(100, 1) < deadline(200, 1));
    assert!(deadline(100, 10) < deadline(100, 1));
    assert_eq!(deadline(100, 0), deadline(100, 1));
}

#[test]
fn wakeups_are_recorded() {
    let p = task(&[0], 0);
    let mut s = with_task(1, &p);
    set_task_ctx(&mut s, 7, TaskCtx { exec_runtime: 77, last_woke_at: 5, ..TaskCtx::new() });
    assert!(runnable_fits(&s, &p, 10_000_005));
    cosmos_runnable(&mut s, &p, 10_000_005);
    let tctx = TaskCtx { wakeup_freq: 2, last_woke_at: 10_000_005, ..TaskCtx::new() };
    assert_eq!(get_task_ctx(&s, 7), Some(tctx));
    assert!(!runnable_fits(&s, &p, 10_000_004));
}

#[test]
fn wakeup_frequency_is_capped() {
    let p = task(&[0], 0);
    let mut s = with_task(1, &p);
    cosmos_runnable(&mut s, &p, 1);
    assert_eq!(get_task_ctx(&s, 7).unwrap().wakeup_freq, 1024);
    // At one and the same time nothing is added.
    cosmos_runnable(&mut s, &p, 1);
    assert_eq!(get_task_ctx(&s, 7).unwrap().wakeup_freq, 1024);
    cosmos_runnable(&mut s, &p, 1_000_000_001);
    assert_eq!(get_task_ctx(&s, 7).unwrap().wakeup_freq, 768);
}

#[test]
fn unknown_tasks_are_not_recorded() {
    let p = task(&[0], 0);
    let mut s = Cosmos::new();
    cosmos_init(&mut s, 1);
    cosmos_runnable(&mut s, &p, 5);
    assert_eq!(cosmos_running(&mut s, &p, 5), None);
    let mut q = p.clone();
    assert!(stopping_fits(&s, &q, 0, 0));
    cosmos_stopping(&mut s, &mut q, 9, 9);
    assert_eq!(q.dsq_vtime, 0);
    assert_eq!(get_task_ctx(&s, 7), None);
    assert_eq!(get_cpu_ctx(&s, 0), Some(CpuCtx::new()));
}

#[test]
fn running_moves_the_time_on() {
    let mut p = task(&[0], 0);
    let mut s = with_task(1, &p);
    p.dsq_vtime = 50;
    assert_eq!(cosmos_running(&mut s, &p, 123), Some(512));
    assert_eq!(s.vtime_now, 50);
    assert_eq!(get_task_ctx(&s, 7).unwrap().last_run_at, 123);
    p.dsq_vtime = 40;
    cosmos_running(&mut s, &p, 124);
    assert_eq!(s.vtime_now, 50);
    s.vtime_now = u64::MAX;
    cosmos_running(&mut s, &p, 125);
    assert_eq!(s.vtime_now, 40);
}

#[test]
fn time_half_the_clock_away_goes_back_and_forth() {
    let mut p = task(&[0], 0);
    let mut s = with_task(1, &p);
    p.dsq_vtime = 1 << 63;
    cosmos_running(&mut s, &p, 0);
    assert_eq!(s.vtime_now, 1 << 63);
    p.dsq_vtime = 0;
    cosmos_running(&mut s, &p, 0);
    assert_eq!(s.vtime_now, 0);
}

#[test]
fn performance_follows_the_load() {
    let mut s = Cosmos::new();
    let ask = |s: &mut Cosmos, lvl: u64| {
        s.cpu_ctxs[1].perf_lvl = lvl;
        update_cpufreq(s, 1)
    };
    assert_eq!(ask(&mut s, 0), Some(512));
    assert_eq!(ask(&mut s, 256), Some(512));
    assert_eq!(ask(&mut s, 257), Some(257));
    assert_eq!(ask(&mut s, 767), Some(767));
    assert_eq!(ask(&mut s, 768), Some(1024));
    assert_eq!(ask(&mut s, 5_000), Some(1024));
    assert_eq!(update_cpufreq(&s, -1), None);
    assert_eq!(update_cpufreq(&s, 1024), None);
    s.cfg.cpufreq_enabled = false;
    assert_eq!(update_cpufreq(&s, 1), None);
}

#[test]
fn load_is_averaged() {
    let p = task(&[0], 0);
    let mut s = Cosmos::new();
    s.cpu_ctxs[0] = CpuCtx { last_update: 1_000, perf_lvl: 400, perf_events: 9 };
    // Half of the time since the last update: a sample of 512.
    update_cpu_load(&mut s, &p, 500, 2_000);
    let now = CpuCtx { last_update: 2_000, perf_lvl: 428, perf_events: 9 };
    assert_eq!(get_cpu_ctx(&s, 0), Some(now));
    update_cpu_load(&mut s, &p, 500, 2_000);
    assert_eq!(get_cpu_ctx(&s, 0), Some(now));
    // More than all of the time counts as all of it.
    update_cpu_load(&mut s, &p, 9_999, 2_001);
    assert_eq!(get_cpu_ctx(&s, 0).unwrap().perf_lvl, 321 + 256);
    s.cfg.cpufreq_enabled = false;
    update_cpu_load(&mut s, &p, 1, 3_000);
    assert_eq!(get_cpu_ctx(&s, 0).unwrap().last_update, 2_001);
}

#[test]
fn events_add_up_per_cpu() {
    let mut s = Cosmos::new();
    let tctx = TaskCtx { perf_events: 5, ..TaskCtx::new() };
    update_counters(&mut s, &tctx, 3);
    update_counters(&mut s, &tctx, 3);
    update_counters(&mut s, &tctx, -1);
    assert_eq!(s.cpu_ctxs[3].perf_events, 10);
    assert_eq!(s.cpu_ctxs[0].perf_events, 0);
}

#[test]
fn stop_charges_the_task() {
    let mut p = task(&[1], 1);
    p.weight = 50;
    p.dsq_vtime = 10;
    let mut s = with_task(2, &p);
    s.topo.cpu_capacity[1] = 512;
    set_task_ctx(&mut s, 7, TaskCtx { last_run_at: 1_000, exec_runtime: 7, ..TaskCtx::new() });
    assert!(stopping_fits(&s, &p, 3_000, 4_000));
    cosmos_stopping(&mut s, &mut p, 3_000, 4_000);
    // Ran for 2000 at half capacity, at half the weight.
    assert_eq!(p.dsq_vtime, 2_010);
    assert_eq!(get_task_ctx(&s, 7).unwrap().exec_runtime, 1_007);
    let cpu = CpuCtx { last_update: 4_000, perf_lvl: 64, perf_events: 0 };
    assert_eq!(get_cpu_ctx(&s, 1), Some(cpu));
}

#[test]
fn run_time_is_capped_by_the_lag() {
    let mut p = task(&[0], 0);
    let mut s = with_task(1, &p);
    cosmos_stopping(&mut s, &mut p, 90_000_000, 90_000_000);
    assert_eq!(get_task_ctx(&s, 7).unwrap().exec_runtime, 20_000_000);
    assert_eq!(p.dsq_vtime, 90_000_000);
}

#[test]
fn stop_counts_events_when_configured() {
    let mut p = task(&[0], 0);
    let mut s = with_task(1, &p);
    set_task_ctx(&mut s, 7, TaskCtx { perf_events: 6, ..TaskCtx::new() });
    cosmos_stopping(&mut s, &mut p, 0, 0);
    assert_eq!(s.cpu_ctxs[0].perf_events, 0);
    s.cfg.perf_sticky = 1;
    cosmos_stopping(&mut s, &mut p, 0, 0);
    assert_eq!(s.cpu_ctxs[0].perf_events, 6);
    s.cfg.perf_config = 1;
    cosmos_stopping(&mut s, &mut p, 0, 0);
    assert_eq!(s.cpu_ctxs[0].perf_events, 12);
}

#[test]
fn heavier_task_is_charged_less() {
    let mut light = task(&[0], 0);
    let mut s = with_task(1, &light);
    let mut heavy = light.clone();
    heavy.weight = 400;
    cosmos_stopping(&mut s, &mut light, 1_000, 1_000);
    cosmos_stopping(&mut s, &mut heavy, 1_000, 1_000);
    assert_eq!(light.dsq_vtime, 1_000);
    assert_eq!(heavy.dsq_vtime, 250);
}

#[test]
fn stops_that_do_not_fit_are_told_apart() {
    let mut p = task(&[0], 0);
    let mut s = with_task(1, &p);
    let ctx = TaskCtx { last_run_at: 100, perf_events: 1, ..TaskCtx::new() };
    set_task_ctx(&mut s, 7, ctx);
    assert!(stopping_fits(&s, &p, 100, 100));
    assert!(!stopping_fits(&s, &p, 99, 100));
    // Capacity, weight, virtual time, run time, events and load.
    assert!(!stopping_fits(&s, &p, u64::MAX, u64::MAX));
    s.cfg.all_cpus_same_capacity = true;
    assert!(!stopping_fits(&s, &p, u64::MAX, u64::MAX));
    p.weight = 0;
    s.cfg.cpufreq_enabled = false;
    assert!(stopping_fits(&s, &p, u64::MAX, u64::MAX));
    p.dsq_vtime = 101;
    assert!(!stopping_fits(&s, &p, u64::MAX, u64::MAX));
    p.dsq_vtime = 100;
    assert!(stopping_fits(&s, &p, u64::MAX, u64::MAX));
    set_task_ctx(&mut s, 7, TaskCtx { exec_runtime: 101, ..ctx });
    assert!(!stopping_fits(&s, &p, u64::MAX, u64::MAX));
    set_task_ctx(&mut s, 7, ctx);
    s.cfg.perf_config = 1;
    s.cpu_ctxs[0].perf_events = u64::MAX;
    assert!(!stopping_fits(&s, &p, 100, 100));
    s.cpu_ctxs[0].perf_events = u64::MAX - 1;
    assert!(stopping_fits(&s, &p, 100, 100));
    s.cfg.cpufreq_enabled = true;
    s.cpu_ctxs[0].last_update = 200;
    assert!(!stopping_fits(&s, &p, 150, 199));
    assert!(stopping_fits(&s, &p, 150, 200));
    assert!(!stopping_fits(&s, &p, u64::MAX / 1024 + 101, 201));
    assert!(stopping_fits(&s, &p, u64::MAX / 1024 + 101, 200));
}

#[test]
fn enabled_task_starts_at_the_current_time() {
    let mut s = Cosmos::new();
    s.vtime_now = 123_456;
    let mut p = task(&[0], 0);
    cosmos_enable(&s, &mut p);
    assert_eq!(p.dsq_vtime, 123_456);
    assert_eq!(task_deadline(&s, &mut p, &TaskCtx::new()), 123_456);
}

#[test]
fn tick_leaves_tasks_within_their_slice() {
    let p = task(&[0], 0);
    let mut s = with_task(1, &p);
    set_task_ctx(&mut s, 7, TaskCtx { last_run_at: 500, ..TaskCtx::new() });
    assert_eq!(cosmos_tick(&s, &p, 1_000_500), Tick::Done);
    assert_eq!(cosmos_tick(&s, &p, 1_000_501), Tick::ProbeSibling { cpu: 0 });
    // The clock went back: on the wrapping clock that is long ago.
    assert_eq!(cosmos_tick(&s, &p, 499), Tick::ProbeSibling { cpu: 0 });
    s.cfg.tick_preempt = false;
    assert_eq!(cosmos_tick(&s, &p, 9_000_000), Tick::Done);
    s.cfg.tick_preempt = true;
    let stranger = TaskRef { pid: 8, ..p.clone() };
    assert_eq!(cosmos_tick(&s, &stranger, 9_000_000), Tick::Done);
}

#[test]
fn tick_asks_sibling_and_queues() {
    let p = task(&[2, 3], 2);
    let mut s = with_task(4, &p);
    s.smt_sibling[2] = 3;
    assert_eq!(cosmos_tick(&s, &p, 2_000_000), Tick::ProbeSibling { cpu: 3 });
    let dsq = SCX_DSQ_LOCAL_ON | 2;
    assert_eq!(tick_sibling_probed(&s, &p, true), Tick::CountLocal { dsq, contended: false });
    assert_eq!(tick_sibling_probed(&s, &p, false), Tick::ReadIdle);
    assert_eq!(
        tick_idle_read(&s, &p, &mask(&[0])),
        Tick::CountLocal { dsq, contended: true }
    );
    assert_eq!(
        tick_idle_read(&s, &p, &mask(&[])),
        Tick::CountLocal { dsq, contended: false }
    );
    s.cfg.avoid_smt = false;
    assert_eq!(cosmos_tick(&s, &p, 2_000_000), Tick::CountLocal { dsq, contended: false });
}

#[test]
fn contended_core_preempts() {
    let mut p = task(&[0], 0);
    p.slice = 44;
    let s = with_task(1, &p);
    let next = tick_local_counted(&s, &mut p, true, 0);
    assert_eq!(next, Tick::CountShared { dsq: 0, contended: true });
    assert_eq!(p.slice, 44);
    tick_shared_counted(&s, &mut p, true, 0);
    assert_eq!(p.slice, 0);
    p.slice = 44;
    assert_eq!(tick_local_counted(&s, &mut p, true, 1), Tick::Done);
    assert_eq!(p.slice, 0);
}

#[test]
fn busy_cpu_preempts_only_for_waiting_tasks() {
    let mut p = task(&[0], 0);
    p.slice = 44;
    let mut s = with_task(1, &p);
    assert_eq!(tick_local_counted(&s, &mut p, false, 3), Tick::Done);
    assert_eq!(p.slice, 44);
    s.cfg.busy_threshold = 10;
    s.topo.cpu_util[0] = 10;
    tick_shared_counted(&s, &mut p, false, 0);
    assert_eq!(p.slice, 44);
    tick_shared_counted(&s, &mut p, false, 1);
    assert_eq!(p.slice, 0);
    p.slice = 44;
    assert_eq!(tick_local_counted(&s, &mut p, false, 1), Tick::Done);
    assert_eq!(p.slice, 0);
}

#[test]
fn dispatch_takes_from_the_shared_queue_first() {
    let mut s = Cosmos::new();
    assert_eq!(cosmos_dispatch(&s, 0), Dispatch::MoveToLocal { dsq: SHARED_DSQ });
    cosmos_init(&mut s, 4);
    s.cfg.numa_enabled = true;
    if let Some(map) = &mut s.cpu_node_map {
        map.insert(2, 5);
    }
    assert_eq!(cosmos_dispatch(&s, 2), Dispatch::MoveToLocal { dsq: 5 });
    let mut p = task(&[2, 3], 2);
    p.scx_flags = SCX_TASK_QUEUED;
    let mut prev = Some(p.clone());
    assert_eq!(dispatch_moved(&s, 2, &mut prev, true), Dispatch::Done);
    assert_eq!(prev.as_ref().unwrap().slice, 0);
    let mut nobody = None;
    assert_eq!(dispatch_moved(&s, 2, &mut nobody, false), Dispatch::Done);
    assert!(nobody.is_none());
}

#[test]
fn dispatch_lets_a_ready_task_go_on() {
    let mut p = task(&[2, 3], 2);
    p.scx_flags = SCX_TASK_QUEUED;
    let mut s = with_task(4, &p);
    s.smt_sibling[2] = 3;
    let mut prev = Some(p.clone());
    assert_eq!(
        dispatch_moved(&s, 2, &mut prev, false),
        Dispatch::ProbeSibling { cpu: 3 }
    );
    let mut q = p.clone();
    assert_eq!(dispatch_sibling_probed(&s, 2, &mut q, true), Dispatch::Done);
    assert_eq!(q.slice, 1_000_000);
    let mut q = p.clone();
    assert_eq!(dispatch_sibling_probed(&s, 2, &mut q, false), Dispatch::ReadIdle);
    assert_eq!(q.slice, 0);
    dispatch_idle_read(&s, 2, &mut q, &mask(&[0]));
    assert_eq!(q.slice, 0);
    // With no CPU to move to, the task stays although its sibling is taken.
    dispatch_idle_read(&s, 2, &mut q, &mask(&[]));
    assert_eq!(q.slice, 1_000_000);
    s.cfg.avoid_smt = false;
    assert_eq!(dispatch_moved(&s, 2, &mut prev, false), Dispatch::Done);
    assert_eq!(prev.as_ref().unwrap().slice, 1_000_000);
}

#[test]
fn dispatch_stops_a_task_that_is_not_ready() {
    let p = task(&[2, 3], 2);
    let s = with_task(4, &p);
    let mut prev = Some(p.clone());
    assert_eq!(dispatch_moved(&s, 2, &mut prev, false), Dispatch::Done);
    assert_eq!(prev.as_ref().unwrap().slice, 0);
}

#[test]
fn pinned_task_goes_on_whatever_its_core_does() {
    let mut p = task(&[2], 2);
    p.scx_flags = SCX_TASK_QUEUED;
    let s = with_task(4, &p);
    assert!(keep_running(&s, &p, 2, true));
    let mut prev = Some(p.clone());
    assert_eq!(dispatch_moved(&s, 2, &mut prev, false), Dispatch::Done);
    assert_eq!(prev.as_ref().unwrap().slice, 1_000_000);
}

#[test]
fn task_outside_the_domain_is_stopped_if_it_can_go_there() {
    let mut p = task(&[0, 1], 0);
    p.scx_flags = SCX_TASK_QUEUED;
    let mut s = with_task(4, &p);
    s.cfg.primary_all = false;
    assert!(keep_running(&s, &p, 0, false));
    s.topo.primary_mask = Some(mask(&[1]));
    assert!(!keep_running(&s, &p, 0, false));
    assert!(keep_running(&s, &p, 1, false));
    assert!(!keep_running(&s, &p, 1, true));
    s.topo.primary_mask = Some(mask(&[3]));
    assert!(keep_running(&s, &p, 0, false));
}

#[test]
fn start_creates_the_shared_queue() {
    let mut s = Cosmos::new();
    s.cpu_ctxs[5].perf_events = 3;
    s.cpu_ctxs[5].perf_lvl = 4;
    assert_eq!(cosmos_init(&mut s, 16), Init::CreateDsq { dsq: SHARED_DSQ, node: -1 });
    assert_eq!(nr_cpu_ids(&s), 16);
    assert_eq!(init_created(&mut s, -1, -12), Init::Done(-12));
    assert_eq!(s.cpu_ctxs[5].perf_events, 3);
    assert_eq!(init_created(&mut s, -1, 0), Init::Done(0));
    assert_eq!(s.cpu_ctxs[5], CpuCtx { last_update: 0, perf_lvl: 4, perf_events: 0 });
}

#[test]
fn start_creates_a_queue_for_each_node() {
    let mut s = Cosmos::new();
    s.cfg.numa_enabled = true;
    s.cfg.nr_node_ids = 3;
    let mut created = Vec::new();
    let mut state = cosmos_init(&mut s, 8);
    while let Init::CreateDsq { dsq, node } = state {
        created.push((dsq, node));
        state = init_created(&mut s, node, 0);
    }
    assert_eq!(created, vec![(0, 0), (1, 1), (2, 2)]);
    assert_eq!(state, Init::Done(0));
    cosmos_init(&mut s, 8);
    assert_eq!(init_created(&mut s, 1, 5), Init::Done(5));
}

#[test]
fn start_without_nodes_creates_nothing() {
    let mut s = Cosmos::new();
    s.cfg.numa_enabled = true;
    s.cpu_ctxs[0].perf_events = 3;
    assert_eq!(cosmos_init(&mut s, 8), Init::Done(0));
    assert_eq!(s.cpu_ctxs[0].perf_events, 0);
}

#[test]
fn consumed_queues_are_among_the_created() {
    let mut s = Cosmos::new();
    s.cfg.numa_enabled = true;
    s.cfg.nr_node_ids = 2;
    let mut created = Vec::new();
    let mut state = cosmos_init(&mut s, 4);
    while let Init::CreateDsq { dsq, node } = state {
        created.push(dsq);
        state = init_created(&mut s, node, 0);
    }
    if let Some(map) = &mut s.cpu_node_map {
        map.insert(0, 0);
        map.insert(1, 1);
    }
    assert!(created.contains(&shared_dsq(&s, 0)));
    assert!(created.contains(&shared_dsq(&s, 1)));
}

#[test]
fn tasks_come_and_go() {
    let p = task(&[0], 0);
    let q = TaskRef { pid: 8, ..p.clone() };
    let mut s = with_task(1, &p);
    assert_eq!(get_task_ctx(&s, 7), Some(TaskCtx::new()));
    assert_eq!(get_task_ctx(&s, 8), None);
    let ctx = TaskCtx { last_run_at: 4, ..TaskCtx::new() };
    set_task_ctx(&mut s, 7, ctx);
    assert_eq!(cosmos_init_task(&mut s, &q), 0);
    assert_eq!(get_task_ctx(&s, 7), Some(ctx));
    cosmos_exit_task(&mut s, &q);
    assert_eq!(get_task_ctx(&s, 7), Some(ctx));
    assert_eq!(get_task_ctx(&s, 8), None);
    // Taken in once more, the task starts afresh.
    cosmos_init_task(&mut s, &p);
    assert_eq!(get_task_ctx(&s, 7), Some(TaskCtx::new()));
    cosmos_init(&mut s, 1);
    assert_eq!(get_task_ctx(&s, 7), None);
}

#[test]
fn no_task_is_known_before_the_start() {
    let p = task(&[0], 0);
    let mut s = Cosmos::new();
    assert_eq!(cosmos_init_task(&mut s, &p), 0);
    assert_eq!(get_task_ctx(&s, 7), None);
    cosmos_exit_task(&mut s, &p);
    assert_eq!(get_task_ctx(&s, 7), None);
}

#[test]
fn siblings_are_read_back() {
    let mut s = Cosmos::new();
    cosmos_init(&mut s, 4);
    assert_eq!(smt_sibling(&s, 2), 2);
    assert_eq!(enable_sibling_cpu(&mut s, &DomainArg { cpu_id: 2, sibling_cpu_id: 3 }), 0);
    assert_eq!(smt_sibling(&s, 2), 3);
    assert_eq!(smt_sibling(&s, 3), 3);
    for &(cpu_id, sibling_cpu_id) in &[(-1, 0), (0, -1), (4, 0), (0, 4)] {
        assert_eq!(enable_sibling_cpu(&mut s, &DomainArg { cpu_id, sibling_cpu_id }), -1);
    }
    assert_eq!(smt_sibling(&s, 0), 0);
    assert_eq!(smt_sibling(&s, -1), -1);
    assert_eq!(smt_sibling(&s, 2000), 2000);
    assert_eq!(enable_primary_cpu(&CpuArg { cpu_id: 1 }), 0);
}

#[test]
fn nodes_of_cpus() {
    let mut s = Cosmos::new();
    assert_eq!(cpu_node(&s, 9), 0);
    s.cfg.numa_enabled = true;
    assert_eq!(cpu_node(&s, 9), -1);
    cosmos_init(&mut s, 16);
    if let Some(map) = &mut s.cpu_node_map {
        map.insert(9, 2);
    }
    assert_eq!(cpu_node(&s, 9), 2);
    assert_eq!(cpu_node(&s, 8), -1);
    assert_eq!(shared_dsq(&s, 9), 2);
    assert_eq!(shared_dsq(&s, 8), SHARED_DSQ);
    s.cfg.numa_enabled = false;
    assert_eq!(shared_dsq(&s, 9), SHARED_DSQ);
}

#[test]
fn nodes_of_gpus() {
    let p = task(&[0, 1], 0);
    let mut s = Cosmos::new();
    cosmos_init(&mut s, 4);
    s.cfg.numa_enabled = true;
    if let Some(map) = &mut s.gpu_pid_map {
        map.insert(7, 2);
    }
    assert_eq!(gpu_node_by_pid(&s, 7), 2);
    assert_eq!(gpu_node_by_pid(&s, 8), -1);
    assert_eq!(pick_cpu_on_gpu_node(&s, &p, 0), -1);
    s.cfg.gpu_enabled = false;
    assert_eq!(gpu_node_by_pid(&s, 7), -1);
    s.cfg.gpu_enabled = true;
    s.cfg.numa_enabled = false;
    assert_eq!(gpu_node_by_pid(&s, 7), -1);
}

#[test]
fn nodes_that_a_task_can_use() {
    let p = task(&[0, 1], 0);
    let mut s = Cosmos::new();
    cosmos_init(&mut s, 4);
    assert!(can_use_node(&s, &p, 1));
    s.cfg.numa_enabled = true;
    assert!(!can_use_node(&s, &p, 1));
    s.topo.node_cpumask[1] = Some(mask(&[2, 3]));
    assert!(!can_use_node(&s, &p, 1));
    s.topo.node_cpumask[1] = Some(mask(&[1, 3]));
    assert!(can_use_node(&s, &p, 1));
    assert!(node_cpumask(&s, 1).is_some());
    assert!(node_cpumask(&s, -1).is_none());
    assert!(node_cpumask(&s, 1024).is_none());
    let everywhere = task(&[0, 1, 2, 3], 0);
    assert!(can_use_node(&s, &everywhere, -1));
}

#[test]
fn cpu_tests() {
    let mut s = Cosmos::new();
    cosmos_init(&mut s, 4);
    assert!(is_cpu_valid(&s, 3));
    assert!(!is_cpu_valid(&s, 4));
    assert!(!is_cpu_valid(&s, -1));
    s.nr_cpu_ids = 5_000;
    assert!(is_cpu_valid(&s, 1023));
    assert!(!is_cpu_valid(&s, 1024));
    s.nr_cpu_ids = 4;
    assert!(!is_cpu_busy(&s, 1));
    s.cfg.busy_threshold = 7;
    s.topo.cpu_util[1] = 7;
    s.topo.cpu_util[2] = 6;
    s.topo.cpu_util[6] = 9;
    assert!(is_cpu_busy(&s, 1));
    assert!(!is_cpu_busy(&s, 2));
    assert!(!is_cpu_busy(&s, 6));
    s.topo.cpu_capacity[0] = 800;
    assert_eq!(cpu_cap(&s, 0), 800);
    assert_eq!(cpu_cap(&s, 5_000), 1024);
    assert!(is_cpu_faster(&s, 1, 0));
    assert!(!is_cpu_faster(&s, 0, 1));
    assert!(!is_cpu_faster(&s, 1, 2));
    assert!(!is_cpu_faster(&s, 6, 0));
    assert!(cpus_share_cache(2, 2));
    assert!(!cpus_share_cache(2, 3));
    assert!(!is_cpu_idle(0));
    assert!(is_primary_cpu(&s, 2));
    s.cfg.primary_all = false;
    assert!(is_primary_cpu(&s, 2));
    s.topo.primary_mask = Some(mask(&[1]));
    assert!(is_primary_cpu(&s, 1));
    assert!(!is_primary_cpu(&s, 2));
}

#[test]
fn answers_of_the_kernel() {
    let mut s = Cosmos::new();
    assert!(test_cpu_idle(&s, 0, true));
    assert!(!test_cpu_idle(&s, 0, false));
    s.cfg.no_early_clear = true;
    assert!(!test_cpu_idle(&s, 0, true));
    assert!(is_smt_contended(&s, false, true));
    assert!(!is_smt_contended(&s, false, false));
    assert!(!is_smt_contended(&s, true, true));
    assert!(!is_smt_contended(&s, true, false));
    s.cfg.smt_enabled = false;
    assert!(!is_smt_contended(&s, false, true));
}

#[test]
fn wake_affinity() {
    let mut s = Cosmos::new();
    let mut a = task(&[0], 0);
    let mut b = task(&[0], 0);
    a.mm = 5;
    b.mm = 5;
    assert!(!is_wake_affine(&s, &a, &b));
    s.cfg.mm_affinity = true;
    assert!(is_wake_affine(&s, &a, &b));
    b.mm = 6;
    assert!(!is_wake_affine(&s, &a, &b));
}

#[test]
fn cpus_of_one_node_share_a_queue() {
    let mut s = Cosmos::new();
    cosmos_init(&mut s, 4);
    s.cfg.numa_enabled = true;
    if let Some(map) = &mut s.cpu_node_map {
        map.insert(0, 1);
        map.insert(1, 1);
        map.insert(2, 0);
    }
    assert_eq!(shared_dsq(&s, 0), shared_dsq(&s, 1));
    assert_ne!(shared_dsq(&s, 0), shared_dsq(&s, 2));
}

#[test]
fn standard_settings_fit_for_every_weight() {
    let s = Cosmos::new();
    let mut p = task(&[0], 0);
    let tctx = TaskCtx { wakeup_freq: 1024, exec_runtime: 20_000_000, ..TaskCtx::new() };
    for &weight in &[0, 1, 100, 10_000] {
        p.weight = weight;
        assert!(task_slice_fits(&s, &p));
        p.dsq_vtime = 1 << 62;
        assert!(task_deadline_fits(&s, &p, &tctx));
    }
}

#[test]
fn stops_fit_for_a_hundred_days() {
    let mut p = task(&[0], 0);
    let s = with_task(1, &p);
    let now = 100 * 24 * 3600 * 1_000_000_000 - 1;
    p.dsq_vtime = (1 << 63) - 1;
    p.weight = 1;
    assert!(stopping_fits(&s, &p, now, now + 5));
}

#[test]
fn sibling_matters_to_ready_tasks_that_can_move() {
    let mut p = task(&[0, 1], 0);
    let mut s = Cosmos::new();
    assert!(!needs_sibling(&s, &p));
    p.scx_flags = SCX_TASK_QUEUED;
    assert!(needs_sibling(&s, &p));
    s.cfg.smt_enabled = false;
    assert!(!needs_sibling(&s, &p));
    s.cfg.smt_enabled = true;
    s.cfg.avoid_smt = false;
    assert!(!needs_sibling(&s, &p));
    s.cfg.avoid_smt = true;
    p.nr_cpus_allowed = 1;
    assert!(!needs_sibling(&s, &p));
}

#[test]
fn heavier_task_is_due_earlier() {
    let s = Cosmos::new();
    let mut light = task(&[0], 0);
    let mut heavy = light.clone();
    light.dsq_vtime = 70;
    heavy.dsq_vtime = 70;
    heavy.weight = 200;
    let tctx = TaskCtx { exec_runtime: 1_000, ..TaskCtx::new() };
    assert_eq!(task_deadline(&s, &mut light, &tctx), 1_070);
    assert_eq!(task_deadline(&s, &mut heavy, &tctx), 570);
}

#[test]
fn contention_needs_another_idle_cpu() {
    let mut s = Cosmos::new();
    s.smt_sibling[2] = 3;
    assert!(!is_core_contended(&s, 2, &mask(&[])));
    assert!(!is_core_contended(&s, 2, &mask(&[3])));
    assert!(is_core_contended(&s, 2, &mask(&[7])));
    assert!(is_core_contended(&s, 2, &mask(&[3, 1023])));
    s.cfg.smt_enabled = false;
    assert!(!is_core_contended(&s, 2, &mask(&[7])));
}

#[test]
fn full_machine_keeps_its_tasks() {
    let mut p = task(&[2, 3], 2);
    p.scx_flags = SCX_TASK_QUEUED;
    p.slice = 44;
    let mut s = with_task(4, &p);
    s.smt_sibling[2] = 3;
    let contended = match tick_idle_read(&s, &p, &mask(&[])) {
        Tick::CountLocal { dsq: _, contended } => contended,
        _ => panic!("the local queue is to be counted"),
    };
    tick_shared_counted(&s, &mut p, contended, 5);
    assert_eq!(p.slice, 44);
    dispatch_idle_read(&s, 2, &mut p, &mask(&[]));
    assert_eq!(p.slice, 1_000_000);
}

#[test]
fn masks_reach_beyond_the_tables() {
    let mut p = task(&[5, 1100], 1100);
    p.scx_flags = SCX_TASK_QUEUED;
    let mut s = with_task(1200, &p);
    assert!(p.cpu_allowed(1100));
    assert!(!p.cpu_allowed(1101));
    s.cfg.primary_all = false;
    s.topo.primary_mask = Some(mask(&[1100]));
    assert!(is_primary_cpu(&s, 1100));
    assert!(!is_primary_cpu(&s, 1101));
    assert!(keep_running(&s, &p, 1100, false));
    assert!(!keep_running(&s, &p, 5, false));
    s.cfg.numa_enabled = true;
    s.topo.node_cpumask[2] = Some(mask(&[1100]));
    assert!(can_use_node(&s, &p, 2));
    // The tables end earlier.
    assert!(!is_cpu_valid(&s, 1100));
    assert_eq!(cpu_cap(&s, 1100), 1024);
    assert_eq!(get_cpu_ctx(&s, 1100), None);
    assert!(is_core_contended(&s, 1100, &mask(&[1199])));
}
