use scx_sched::cosmos::enqueue::{
    cosmos_enqueue, enqueue_by_deadline, enqueue_idle_read, enqueue_needs_idle_cores,
    enqueue_probed, enqueue_selected, enqueue_sibling_probed, is_event_heavy,
    is_sticky_event_heavy, search_needs_idle_cores, Enqueue,
};
use scx_sched::cosmos::idle::{
    idle_probed, idle_selected, needs_idle_cores, pick_idle_cpu, pick_idle_cpu_flat,
    pick_idle_cpu_pref_smt, IdlePick,
};
use scx_sched::cosmos::lifecycle::{cosmos_init, cosmos_init_task};
use scx_sched::cosmos::select::{
    cosmos_select_cpu, select_cpu_probed, select_cpu_selected, select_needs_idle_cores,
    SelectCpu,
};
use scx_sched::cosmos::state::{get_task_ctx, set_task_ctx, Cosmos};
use scx_sched::cosmos::task::{TaskCtx, TaskRef};
use scx_sched::cpumask::CpuMask;
use scx_sched::defs::{
    Insert, PF_EXITING, SCX_DSQ_LOCAL, SCX_DSQ_LOCAL_ON, SCX_PICK_IDLE_CORE, SCX_WAKE_SYNC,
    SCX_WAKE_TTWU,
};

fn mask(cpus: &[i32]) -> CpuMask {
    let mut m = CpuMask::empty();
    for &cpu in cpus {
        m.set_cpu(cpu);
    }
    m
}

fn task(cpus: &[i32], cpu: i32) -> TaskRef {
    TaskRef {
        pid: 7,
        flags: 0,
        nr_cpus_allowed: cpus.len() as u32,
        mm: 0,
        cpus_allowed: mask(cpus),
        first_allowed: cpus[0],
        dsq_vtime: 0,
        slice: 0,
        weight: 100,
        scx_flags: 0,
        cpu,
        running: false,
    }
}

fn started(nr_cpus: u64) -> Cosmos {
    let mut s = Cosmos::new();
    cosmos_init(&mut s, nr_cpus);
    s
}

fn with_task(nr_cpus: u64, p: &TaskRef) -> Cosmos {
    let mut s = started(nr_cpus);
    cosmos_init_task(&mut s, p);
    s
}

fn local(slice: u64, enq_flags: u64) -> Insert {
    Insert::Fifo { dsq: SCX_DSQ_LOCAL, slice, enq_flags }
}

fn local_on(cpu: u64, slice: u64, enq_flags: u64) -> Insert {
    Insert::Fifo { dsq: SCX_DSQ_LOCAL_ON | cpu, slice, enq_flags }
}

/// Runs a flat scan against a set of idle CPUs. The CPUs that were asked for
/// come first in the result.
fn scan(
    s: &mut Cosmos,
    p: &TaskRef,
    prev: i32,
    smt: &Option<CpuMask>,
    idle: &[i32],
) -> (Vec<i32>, i32) {
    let mut asked = Vec::new();
    let mut pick = pick_idle_cpu_flat(s, p, prev, smt);
    loop {
        match pick {
            IdlePick::Probe { cpu, rest: _ } => {
                asked.push(cpu);
                pick = idle_probed(s, p, prev, smt, pick, idle.contains(&cpu));
            }
            IdlePick::Picked(cpu) => return (asked, cpu),
            _ => panic!("a flat scan asks for single CPUs"),
        }
    }
}

#[test]
fn scan_tries_previous_cpu_first() {
    let p = task(&[0, 1, 2, 3], 2);
    let mut s = with_task(4, &p);
    s.cfg.smt_enabled = false;
    let (asked, cpu) = scan(&mut s, &p, 2, &None, &[2, 3]);
    assert_eq!(asked, vec![2]);
    assert_eq!(cpu, 2);
    assert_eq!(s.flat_last_cpu, 0);
}

#[test]
fn scan_rotates_from_the_last_claim() {
    let p = task(&[0, 1, 2, 3], 2);
    let mut s = with_task(4, &p);
    s.cfg.smt_enabled = false;
    let (asked, cpu) = scan(&mut s, &p, 2, &None, &[1, 3]);
    assert_eq!(asked, vec![2, 0, 1]);
    assert_eq!(cpu, 1);
    assert_eq!(s.flat_last_cpu, 2);
    let (asked, cpu) = scan(&mut s, &p, 2, &None, &[1]);
    assert_eq!(asked, vec![2, 3, 0, 1]);
    assert_eq!(cpu, 1);
}

#[test]
fn rotation_wraps_round_the_table() {
    let p = task(&[0, 1, 2, 3], 0);
    let mut s = with_task(4, &p);
    s.cfg.smt_enabled = false;
    s.flat_last_cpu = 4;
    let (asked, _) = scan(&mut s, &p, 0, &None, &[]);
    assert_eq!(asked, vec![0, 1, 2, 3]);
    s.flat_last_cpu = 7;
    let (asked, _) = scan(&mut s, &p, 0, &None, &[]);
    assert_eq!(asked, vec![0, 3, 1, 2]);
}

#[test]
fn scan_without_idle_cpus_finds_none() {
    let p = task(&[0, 1, 2, 3], 0);
    let mut s = with_task(4, &p);
    let smt = Some(mask(&[1]));
    let (asked, cpu) = scan(&mut s, &p, 0, &smt, &[]);
    // First the idle core, then everything.
    assert_eq!(asked, vec![1, 0, 1, 2, 3]);
    assert_eq!(cpu, -1);
}

#[test]
fn scan_keeps_to_allowed_cpus() {
    let p = task(&[1, 3], 0);
    let mut s = with_task(4, &p);
    s.cfg.smt_enabled = false;
    let (asked, cpu) = scan(&mut s, &p, 0, &None, &[0, 2, 3]);
    assert_eq!(asked, vec![1, 3]);
    assert_eq!(cpu, 3);
}

#[test]
fn scan_keeps_to_existing_cpus() {
    let p = task(&[0, 1, 2, 3], 0);
    let mut s = with_task(2, &p);
    s.cfg.smt_enabled = false;
    let (asked, cpu) = scan(&mut s, &p, 0, &None, &[3]);
    assert_eq!(asked, vec![0, 1]);
    assert_eq!(cpu, -1);
}

#[test]
fn scan_prefers_idle_cores() {
    let p = task(&[0, 1, 2, 3], 0);
    let mut s = with_task(4, &p);
    let smt = Some(mask(&[2]));
    let (asked, cpu) = scan(&mut s, &p, 0, &smt, &[0, 1, 2, 3]);
    assert_eq!(asked, vec![2]);
    assert_eq!(cpu, 2);
    assert_eq!(s.flat_last_cpu, 3);
}

#[test]
fn scan_goes_through_four_passes() {
    let p = task(&[0, 1, 2, 3], 0);
    let mut s = with_task(4, &p);
    s.cfg.primary_all = false;
    s.topo.primary_mask = Some(mask(&[2, 3]));
    let smt = Some(mask(&[1, 3]));
    let (asked, cpu) = scan(&mut s, &p, 0, &smt, &[]);
    assert_eq!(asked, vec![3, 2, 3, 1, 3, 0, 1, 2, 3]);
    assert_eq!(cpu, -1);
    // A CPU of the domain goes before an idle core outside it.
    let (_, cpu) = scan(&mut s, &p, 0, &smt, &[1, 2]);
    assert_eq!(cpu, 2);
}

#[test]
fn preferred_order_is_followed_and_not_rotated() {
    let p = task(&[0, 1, 2, 3], 3);
    let mut s = with_task(4, &p);
    s.cfg.smt_enabled = false;
    s.cfg.preferred_idle_scan = true;
    for (i, &cpu) in [2u64, 0, 3, 1].iter().enumerate() {
        s.topo.preferred_cpus[i] = cpu;
    }
    let (asked, cpu) = scan(&mut s, &p, 3, &None, &[1]);
    assert_eq!(asked, vec![3, 2, 0, 1]);
    assert_eq!(cpu, 1);
    assert_eq!(s.flat_last_cpu, 0);
}

#[test]
fn pinned_task_tries_its_cpu_alone() {
    let p = task(&[2], 2);
    let mut s = with_task(4, &p);
    let (asked, cpu) = scan(&mut s, &p, 2, &None, &[0, 1]);
    assert_eq!(asked, vec![2]);
    assert_eq!(cpu, -1);
    let (_, cpu) = scan(&mut s, &p, 2, &None, &[2]);
    assert_eq!(cpu, 2);
}

#[test]
fn nothing_is_claimed_without_early_clearing() {
    let p = task(&[0, 1], 0);
    let mut s = with_task(2, &p);
    s.cfg.no_early_clear = true;
    let (asked, cpu) = scan(&mut s, &p, 0, &None, &[0, 1]);
    assert!(asked.is_empty());
    assert_eq!(cpu, -1);
    let pinned = task(&[0], 0);
    let (asked, cpu) = scan(&mut s, &pinned, 0, &None, &[0]);
    assert!(asked.is_empty());
    assert_eq!(cpu, -1);
}

#[test]
fn flat_search_needs_an_idle_previous_cpu() {
    let p = task(&[0, 1], 0);
    let mut s = with_task(2, &p);
    s.cfg.flat_idle_scan = true;
    s.cfg.busy_threshold = 50;
    s.topo.cpu_util[0] = 49;
    let pick = pick_idle_cpu(&s, &p, 0, -1, 0, &None);
    assert!(matches!(pick, IdlePick::Probe { cpu: 0, rest: _ }));
    s.topo.cpu_util[0] = 50;
    let pick = pick_idle_cpu(&s, &p, 0, -1, 0, &None);
    assert_eq!(pick, IdlePick::SelectAny { prev: 0, wake_flags: 0 });
}

#[test]
fn kernel_search_tries_primary_domain_first() {
    let p = task(&[0, 1, 2, 3], 0);
    let mut s = with_task(4, &p);
    s.cfg.primary_all = false;
    s.topo.primary_mask = Some(mask(&[2, 3]));
    let pick = pick_idle_cpu(&s, &p, 0, -1, SCX_WAKE_TTWU, &None);
    let first = IdlePick::SelectPrimary {
        prev: 0,
        wake_flags: SCX_WAKE_TTWU,
        flags: SCX_PICK_IDLE_CORE,
    };
    assert_eq!(pick, first);
    assert_eq!(idle_selected(first, 3), IdlePick::Picked(3));
    let second = IdlePick::SelectAny { prev: 0, wake_flags: SCX_WAKE_TTWU };
    assert_eq!(idle_selected(first, -16), second);
    assert_eq!(idle_selected(second, 1), IdlePick::Picked(1));
    assert_eq!(idle_selected(second, -16), IdlePick::Picked(-16));
    s.cfg.avoid_smt = false;
    let pick = pick_idle_cpu(&s, &p, 0, -1, 0, &None);
    assert_eq!(pick, IdlePick::SelectPrimary { prev: 0, wake_flags: 0, flags: 0 });
    s.topo.primary_mask = None;
    let pick = pick_idle_cpu(&s, &p, 0, -1, 0, &None);
    assert_eq!(pick, IdlePick::SelectAny { prev: 0, wake_flags: 0 });
}

#[test]
fn sync_wakeups_can_be_turned_off() {
    let p = task(&[0, 1], 0);
    let mut s = with_task(2, &p);
    let both = SCX_WAKE_TTWU | SCX_WAKE_SYNC;
    let pick = pick_idle_cpu(&s, &p, 0, -1, both, &None);
    assert_eq!(pick, IdlePick::SelectAny { prev: 0, wake_flags: both });
    s.cfg.no_wake_sync = true;
    let pick = pick_idle_cpu(&s, &p, 0, -1, both, &None);
    assert_eq!(pick, IdlePick::SelectAny { prev: 0, wake_flags: SCX_WAKE_TTWU });
}

#[test]
fn faster_waker_draws_the_task() {
    let p = task(&[0, 1], 0);
    let mut s = with_task(2, &p);
    s.topo.cpu_capacity[0] = 512;
    let origin = |s: &Cosmos, this_cpu: i32, flags: u64| {
        match pick_idle_cpu(s, &p, 0, this_cpu, flags, &None) {
            IdlePick::SelectAny { prev, wake_flags: _ } => prev,
            _ => panic!("the kernel is to search"),
        }
    };
    assert_eq!(origin(&s, 1, SCX_WAKE_TTWU), 1);
    assert_eq!(origin(&s, 1, 0), 0);
    assert_eq!(origin(&s, -1, SCX_WAKE_TTWU), 0);
    s.cfg.all_cpus_same_capacity = true;
    assert_eq!(origin(&s, 1, SCX_WAKE_TTWU), 0);
    s.cfg.all_cpus_same_capacity = false;
    s.topo.cpu_capacity[1] = 512;
    assert_eq!(origin(&s, 1, SCX_WAKE_TTWU), 0);
}

#[test]
fn unknown_task_keeps_its_cpu() {
    let p = task(&[0, 1], 0);
    let mut s = started(2);
    let waker = task(&[0, 1], 1);
    let r = cosmos_select_cpu(&mut s, &p, &waker, 1, 0, 0, &None);
    assert_eq!(r, SelectCpu::Done { cpu: 0, insert: None });
    assert_eq!(cosmos_enqueue(&mut s, &p, 0, &None), Enqueue::Ignored);
}

#[test]
fn task_stays_with_a_waker_of_its_memory() {
    let mut p = task(&[0, 1], 1);
    p.mm = 99;
    p.weight = 200;
    let mut s = with_task(2, &p);
    s.cfg.mm_affinity = true;
    let mut waker = task(&[0, 1], 1);
    waker.mm = 99;
    let r = cosmos_select_cpu(&mut s, &p, &waker, 1, 1, 0, &None);
    assert_eq!(r, SelectCpu::Done { cpu: 1, insert: Some(local(2_000_000, 0)) });
    // Not from another CPU, not with a leaving waker, not without memory.
    let r = cosmos_select_cpu(&mut s, &p, &waker, 0, 1, 0, &None);
    assert!(matches!(r, SelectCpu::Searching { .. }));
    waker.flags = PF_EXITING;
    let r = cosmos_select_cpu(&mut s, &p, &waker, 1, 1, 0, &None);
    assert!(matches!(r, SelectCpu::Searching { .. }));
    waker.flags = 0;
    waker.mm = 0;
    p.mm = 0;
    let r = cosmos_select_cpu(&mut s, &p, &waker, 1, 1, 0, &None);
    assert!(matches!(r, SelectCpu::Searching { .. }));
}

#[test]
fn search_starts_from_a_usable_cpu() {
    let p = task(&[2, 3], 0);
    let mut s = with_task(4, &p);
    let waker = task(&[0, 1, 2, 3], 3);
    let start = |s: &mut Cosmos, this_cpu: i32, prev_cpu: i32| {
        match cosmos_select_cpu(s, &p, &waker, this_cpu, prev_cpu, 0, &None) {
            SelectCpu::Searching { pick: _, prev, busy: _ } => prev,
            SelectCpu::Done { cpu: _, insert: _ } => panic!("a search was expected"),
        }
    };
    assert_eq!(start(&mut s, 0, 3), 3);
    assert_eq!(start(&mut s, 3, 0), 3);
    assert_eq!(start(&mut s, 1, 0), 2);
}

#[test]
fn found_cpu_is_taken_and_none_falls_back() {
    let p = task(&[0, 1], 0);
    let mut s = with_task(2, &p);
    let waker = task(&[0, 1], 1);
    let state = cosmos_select_cpu(&mut s, &p, &waker, 1, 0, SCX_WAKE_TTWU, &None);
    let pick = IdlePick::SelectAny { prev: 0, wake_flags: SCX_WAKE_TTWU };
    assert_eq!(state, SelectCpu::Searching { pick, prev: 0, busy: false });
    assert_eq!(
        select_cpu_selected(&s, &p, state, 1),
        SelectCpu::Done { cpu: 1, insert: Some(local(1_000_000, 0)) }
    );
    assert_eq!(
        select_cpu_selected(&s, &p, state, -1),
        SelectCpu::Done { cpu: 0, insert: Some(local(1_000_000, 0)) }
    );
}

#[test]
fn busy_cpu_leaves_the_task_to_enqueue() {
    let p = task(&[0, 1], 0);
    let mut s = with_task(2, &p);
    s.cfg.busy_threshold = 10;
    s.topo.cpu_util[0] = 10;
    let waker = task(&[0, 1], 1);
    let state = cosmos_select_cpu(&mut s, &p, &waker, 1, 0, 0, &None);
    assert_eq!(
        select_cpu_selected(&s, &p, state, -1),
        SelectCpu::Done { cpu: 0, insert: None }
    );
    assert_eq!(
        select_cpu_selected(&s, &p, state, 1),
        SelectCpu::Done { cpu: 1, insert: Some(local(1_000_000, 0)) }
    );
}

#[test]
fn flat_select_walks_the_scan() {
    let p = task(&[0, 1, 2, 3], 0);
    let mut s = with_task(4, &p);
    s.cfg.flat_idle_scan = true;
    s.cfg.smt_enabled = false;
    let waker = task(&[0, 1, 2, 3], 1);
    let mut state = cosmos_select_cpu(&mut s, &p, &waker, 1, 0, 0, &None);
    let mut asked = Vec::new();
    while let SelectCpu::Searching { pick, prev: _, busy: _ } = state {
        match pick {
            IdlePick::Probe { cpu, rest: _ } => {
                asked.push(cpu);
                state = select_cpu_probed(&mut s, &p, &None, state, cpu == 2);
            }
            _ => panic!("a flat scan asks for single CPUs"),
        }
    }
    assert_eq!(asked, vec![0, 1, 2]);
    assert_eq!(state, SelectCpu::Done { cpu: 2, insert: Some(local(1_000_000, 0)) });
    assert_eq!(s.flat_last_cpu, 3);
}

#[test]
fn gpu_node_picks_no_cpu() {
    let p = task(&[0, 1], 0);
    let mut s = started(2);
    s.cfg.numa_enabled = true;
    cosmos_init_task(&mut s, &p);
    if let Some(map) = &mut s.gpu_pid_map {
        map.insert(7, 1);
    }
    s.topo.node_cpumask[1] = Some(mask(&[1]));
    let waker = task(&[0, 1], 1);
    let state = cosmos_select_cpu(&mut s, &p, &waker, 1, 0, 0, &None);
    assert!(matches!(state, SelectCpu::Searching { .. }));
    let state = cosmos_enqueue(&mut s, &p, 0, &None);
    assert!(matches!(state, Enqueue::Searching { .. }));
    assert_eq!(s.counters.nr_gpu_dispatches, 0);
}

#[test]
fn enqueue_to_a_found_cpu_wakes_it() {
    let mut p = task(&[0, 1], 0);
    let mut s = with_task(2, &p);
    let tctx = TaskCtx::new();
    let pick = IdlePick::SelectAny { prev: 0, wake_flags: 0 };
    let state = cosmos_enqueue(&mut s, &p, 5, &None);
    assert_eq!(state, Enqueue::Searching { pick, tctx });
    assert_eq!(
        enqueue_selected(&mut s, &p, 5, pick, tctx, 1),
        Enqueue::Done { insert: local_on(1, 1_000_000, 5), kick: Some(1) }
    );
    p.running = true;
    assert_eq!(
        enqueue_selected(&mut s, &p, 5, pick, tctx, 1),
        Enqueue::Done { insert: local_on(1, 1_000_000, 5), kick: Some(1) }
    );
    assert_eq!(
        enqueue_selected(&mut s, &p, 5, pick, tctx, 0),
        Enqueue::Done { insert: local_on(0, 1_000_000, 5), kick: None }
    );
}

#[test]
fn enqueue_without_idle_cpu_stays_on_a_quiet_one() {
    let mut p = task(&[0, 1], 0);
    let mut s = with_task(2, &p);
    let tctx = TaskCtx::new();
    let pick = IdlePick::SelectAny { prev: 0, wake_flags: 0 };
    assert_eq!(
        enqueue_selected(&mut s, &p, 0, pick, tctx, -1),
        Enqueue::Done { insert: local_on(0, 1_000_000, 0), kick: Some(0) }
    );
    p.running = true;
    assert_eq!(
        enqueue_selected(&mut s, &p, 0, pick, tctx, -1),
        Enqueue::Done { insert: local_on(0, 1_000_000, 0), kick: None }
    );
}

#[test]
fn enqueue_tries_the_domain_then_any_cpu() {
    let p = task(&[0, 1], 0);
    let mut s = with_task(2, &p);
    s.cfg.primary_all = false;
    s.topo.primary_mask = Some(mask(&[1]));
    let tctx = TaskCtx::new();
    let state = cosmos_enqueue(&mut s, &p, 0, &None);
    let first = IdlePick::SelectPrimary { prev: 0, wake_flags: 0, flags: SCX_PICK_IDLE_CORE };
    assert_eq!(state, Enqueue::Searching { pick: first, tctx });
    let second = IdlePick::SelectAny { prev: 0, wake_flags: 0 };
    assert_eq!(
        enqueue_selected(&mut s, &p, 0, first, tctx, -1),
        Enqueue::Searching { pick: second, tctx }
    );
    // CPU 0 is not in the domain, so the task is queued by its deadline.
    assert_eq!(
        enqueue_selected(&mut s, &p, 0, second, tctx, -1),
        Enqueue::ByDeadline { tctx }
    );
}

#[test]
fn busy_cpu_sends_the_task_to_the_shared_queue() {
    let mut p = task(&[0, 1], 0);
    let mut s = with_task(2, &p);
    s.cfg.busy_threshold = 1;
    s.topo.cpu_util[0] = 1;
    s.vtime_now = 100_000_000;
    p.dsq_vtime = 90_000_000;
    let tctx = TaskCtx { exec_runtime: 3_000, ..TaskCtx::new() };
    let pick = IdlePick::SelectAny { prev: 0, wake_flags: 0 };
    assert_eq!(
        enqueue_selected(&mut s, &p, 0, pick, tctx, -1),
        Enqueue::ByDeadline { tctx }
    );
    let insert = Insert::Vtime { dsq: 0, slice: 1_000_000, vtime: 90_003_000, enq_flags: 4 };
    assert_eq!(
        enqueue_by_deadline(&s, &mut p, 4, tctx),
        Enqueue::Done { insert, kick: Some(0) }
    );
    assert_eq!(p.dsq_vtime, 90_000_000);
    // Asleep for too long: the task is brought up to one lag behind.
    p.dsq_vtime = 10;
    p.running = true;
    let insert = Insert::Vtime { dsq: 0, slice: 1_000_000, vtime: 80_003_000, enq_flags: 4 };
    assert_eq!(enqueue_by_deadline(&s, &mut p, 4, tctx), Enqueue::Done { insert, kick: None });
    assert_eq!(p.dsq_vtime, 80_000_000);
}

#[test]
fn deadline_queue_is_that_of_the_node() {
    let mut p = task(&[0, 1], 1);
    let mut s = started(2);
    s.cfg.numa_enabled = true;
    if let Some(map) = &mut s.cpu_node_map {
        map.insert(1, 3);
    }
    let r = enqueue_by_deadline(&s, &mut p, 0, TaskCtx::new());
    let insert = Insert::Vtime { dsq: 3, slice: 1_000_000, vtime: 0, enq_flags: 0 };
    assert_eq!(r, Enqueue::Done { insert, kick: Some(1) });
}

#[test]
fn pinned_enqueue_probes_its_cpu() {
    let p = task(&[1], 1);
    let mut s = with_task(2, &p);
    s.cfg.busy_threshold = 1;
    s.topo.cpu_util[1] = 1;
    let tctx = TaskCtx::new();
    let pick = match cosmos_enqueue(&mut s, &p, 0, &None) {
        Enqueue::Searching { pick, tctx: _ } => pick,
        _ => panic!("the CPU is to be probed"),
    };
    assert!(matches!(pick, IdlePick::Probe { cpu: 1, rest: _ }));
    assert_eq!(
        enqueue_probed(&mut s, &p, 0, &None, pick, tctx, true),
        Enqueue::Done { insert: local_on(1, 1_000_000, 0), kick: Some(1) }
    );
    assert_eq!(
        enqueue_probed(&mut s, &p, 0, &None, pick, tctx, false),
        Enqueue::ByDeadline { tctx }
    );
    assert_eq!(s.flat_last_cpu, 0);
}

#[test]
fn pinned_enqueue_without_early_clearing_asks_nothing() {
    let p = task(&[1], 1);
    let mut s = with_task(2, &p);
    s.cfg.no_early_clear = true;
    assert_eq!(
        cosmos_enqueue(&mut s, &p, 0, &None),
        Enqueue::Done { insert: local_on(1, 1_000_000, 0), kick: Some(1) }
    );
}

#[test]
fn flat_enqueue_marks_the_claimed_cpu() {
    let p = task(&[0, 1, 2], 0);
    let mut s = with_task(3, &p);
    s.cfg.flat_idle_scan = true;
    s.cfg.smt_enabled = false;
    let mut state = cosmos_enqueue(&mut s, &p, 0, &None);
    while let Enqueue::Searching { pick, tctx } = state {
        let claimed = matches!(pick, IdlePick::Probe { cpu: 1, rest: _ });
        state = enqueue_probed(&mut s, &p, 0, &None, pick, tctx, claimed);
    }
    assert_eq!(state, Enqueue::Done { insert: local_on(1, 1_000_000, 0), kick: Some(1) });
    assert_eq!(s.flat_last_cpu, 2);
}

#[test]
fn event_heavy_moves_are_counted() {
    let p = task(&[0, 1], 0);
    let mut s = with_task(2, &p);
    s.cfg.perf_config = 1;
    s.cfg.perf_threshold = 10;
    let heavy = TaskCtx { perf_events: 11, ..TaskCtx::new() };
    let light = TaskCtx { perf_events: 10, ..TaskCtx::new() };
    assert!(is_event_heavy(&s, &heavy));
    assert!(!is_event_heavy(&s, &light));
    let pick = IdlePick::SelectAny { prev: 0, wake_flags: 0 };
    enqueue_selected(&mut s, &p, 0, pick, light, 1);
    enqueue_selected(&mut s, &p, 0, pick, heavy, 0);
    enqueue_selected(&mut s, &p, 0, pick, heavy, -1);
    assert_eq!(s.counters.nr_event_dispatches, 0);
    enqueue_selected(&mut s, &p, 0, pick, heavy, 1);
    assert_eq!(s.counters.nr_event_dispatches, 1);
    s.counters.nr_event_dispatches = u64::MAX;
    enqueue_selected(&mut s, &p, 0, pick, heavy, 1);
    assert_eq!(s.counters.nr_event_dispatches, 0);
    s.cfg.perf_config = 0;
    assert!(!is_event_heavy(&s, &heavy));
}

#[test]
fn sticky_task_stays_unless_its_core_is_contended() {
    let mut p = task(&[0, 1], 0);
    let mut s = with_task(2, &p);
    s.cfg.perf_sticky = 1;
    s.cfg.perf_sticky_threshold = 3;
    let tctx = TaskCtx { perf_sticky_events: 4, ..TaskCtx::new() };
    set_task_ctx(&mut s, 7, tctx);
    assert_eq!(get_task_ctx(&s, 7), Some(tctx));
    assert!(is_sticky_event_heavy(&s, &tctx));
    s.smt_sibling[0] = 1;
    assert_eq!(
        cosmos_enqueue(&mut s, &p, 2, &None),
        Enqueue::ProbeSibling { cpu: 1, tctx }
    );
    assert_eq!(
        enqueue_sibling_probed(&mut s, &p, 2, tctx, true),
        Enqueue::Done { insert: local(1_000_000, 2), kick: Some(0) }
    );
    assert_eq!(s.counters.nr_ev_sticky_dispatches, 1);
    let pick = IdlePick::SelectAny { prev: 0, wake_flags: 0 };
    assert_eq!(
        enqueue_sibling_probed(&mut s, &p, 2, tctx, false),
        Enqueue::ReadIdle { tctx }
    );
    assert_eq!(
        enqueue_idle_read(&mut s, &p, 2, &None, tctx, &mask(&[0])),
        Enqueue::Searching { pick, tctx }
    );
    assert_eq!(s.counters.nr_ev_sticky_dispatches, 1);
    // The sibling is taken, but no other CPU is idle.
    assert_eq!(
        enqueue_idle_read(&mut s, &p, 2, &None, tctx, &mask(&[])),
        Enqueue::Done { insert: local(1_000_000, 2), kick: Some(0) }
    );
    assert_eq!(s.counters.nr_ev_sticky_dispatches, 2);
    // With shared cores not avoided nothing is asked.
    s.cfg.avoid_smt = false;
    p.running = true;
    assert_eq!(
        cosmos_enqueue(&mut s, &p, 2, &None),
        Enqueue::Done { insert: local(1_000_000, 2), kick: None }
    );
    assert_eq!(s.counters.nr_ev_sticky_dispatches, 3);
}

#[test]
fn sticky_task_outside_the_domain_moves_unless_pinned() {
    let p = task(&[0, 1], 0);
    let mut s = with_task(2, &p);
    s.cfg.perf_sticky = 1;
    s.cfg.avoid_smt = false;
    s.cfg.primary_all = false;
    s.topo.primary_mask = Some(mask(&[1]));
    let tctx = TaskCtx { perf_sticky_events: 1, ..TaskCtx::new() };
    set_task_ctx(&mut s, 7, tctx);
    let state = cosmos_enqueue(&mut s, &p, 0, &None);
    assert!(matches!(state, Enqueue::Searching { .. }));
    let pinned = task(&[0], 0);
    assert_eq!(
        cosmos_enqueue(&mut s, &pinned, 0, &None),
        Enqueue::Done { insert: local(1_000_000, 0), kick: Some(0) }
    );
}

#[test]
fn placement_leaves_the_records_alone() {
    let p = task(&[0, 1], 0);
    let mut s = with_task(2, &p);
    s.vtime_now = 9;
    let ctx = TaskCtx { last_run_at: 1, exec_runtime: 2, ..TaskCtx::new() };
    set_task_ctx(&mut s, 7, ctx);
    s.cpu_ctxs[0].perf_lvl = 3;
    let pick = IdlePick::SelectAny { prev: 0, wake_flags: 0 };
    cosmos_enqueue(&mut s, &p, 0, &None);
    enqueue_selected(&mut s, &p, 0, pick, ctx, 1);
    assert_eq!(get_task_ctx(&s, 7), Some(ctx));
    assert_eq!(s.cpu_ctxs[0].perf_lvl, 3);
    assert_eq!(s.vtime_now, 9);
}

#[test]
fn idle_cores_go_first_in_and_out_of_the_domain() {
    let p = task(&[0, 1, 2, 3], 0);
    let mut s = with_task(4, &p);
    s.cfg.primary_all = false;
    s.topo.primary_mask = Some(mask(&[2, 3]));
    let smt = Some(mask(&[1, 3]));
    let (_, cpu) = scan(&mut s, &p, 0, &smt, &[0, 1, 2, 3]);
    assert_eq!(cpu, 3);
    let (_, cpu) = scan(&mut s, &p, 0, &smt, &[0, 1]);
    assert_eq!(cpu, 1);
    let (_, cpu) = scan(&mut s, &p, 0, &smt, &[0]);
    assert_eq!(cpu, 0);
}

#[test]
fn pass_tries_the_previous_cpu_only_if_allowed() {
    let p = task(&[0, 1], 0);
    let s = with_task(2, &p);
    let next = |allowed: bool, primary: &Option<CpuMask>, pos: usize| {
        pick_idle_cpu_pref_smt(&s, &p, 0, allowed, primary, &None, pos)
    };
    assert_eq!(next(true, &None, 0), Some((0, 1)));
    assert_eq!(next(true, &None, 1), Some((1, 3)));
    assert_eq!(next(true, &None, 3), None);
    assert_eq!(next(false, &None, 0), Some((1, 3)));
    assert_eq!(next(true, &Some(mask(&[1])), 0), Some((1, 3)));
    assert_eq!(next(true, &Some(mask(&[])), 0), None);
}

#[test]
fn idle_cores_are_read_for_flat_scans_alone() {
    let p = task(&[0, 1], 0);
    let pinned = task(&[0], 0);
    let waker = task(&[0, 1], 1);
    let mut s = started(2);
    s.cfg.flat_idle_scan = true;
    assert!(needs_idle_cores(&s, 0));
    // Not for an unknown task.
    assert!(!select_needs_idle_cores(&s, &p, &waker, 1, 0));
    assert!(!enqueue_needs_idle_cores(&s, &p));
    cosmos_init_task(&mut s, &p);
    assert!(select_needs_idle_cores(&s, &p, &waker, 1, 0));
    assert!(enqueue_needs_idle_cores(&s, &p));
    // Nor where a pinned task is queued, a CPU is busy or no scan is made.
    assert!(!enqueue_needs_idle_cores(&s, &pinned));
    assert!(!search_needs_idle_cores(&s, &pinned));
    s.cfg.busy_threshold = 1;
    s.topo.cpu_util[0] = 1;
    assert!(!select_needs_idle_cores(&s, &p, &waker, 1, 0));
    assert!(!enqueue_needs_idle_cores(&s, &p));
    s.cfg.busy_threshold = 0;
    s.cfg.perf_sticky = 1;
    set_task_ctx(&mut s, 7, TaskCtx { perf_sticky_events: 1, ..TaskCtx::new() });
    assert!(!enqueue_needs_idle_cores(&s, &p));
    assert!(search_needs_idle_cores(&s, &p));
    s.cfg.smt_enabled = false;
    assert!(!needs_idle_cores(&s, 0));
}

#[test]
fn allowed_cpu_beyond_the_tables_is_kept() {
    let p = task(&[5, 1100], 1100);
    let mut s = with_task(1200, &p);
    let waker = task(&[5], 5);
    let state = cosmos_select_cpu(&mut s, &p, &waker, 5, 1100, 0, &None);
    let pick = IdlePick::SelectAny { prev: 1100, wake_flags: 0 };
    assert_eq!(state, SelectCpu::Searching { pick, prev: 1100, busy: false });
    assert_eq!(
        select_cpu_selected(&s, &p, state, -1),
        SelectCpu::Done { cpu: 1100, insert: Some(local(1_000_000, 0)) }
    );
}

#[test]
fn scans_reach_beyond_the_tables_by_previous_cpu_and_preference() {
    let p = task(&[5, 1100, 1150], 1100);
    let mut s = with_task(1200, &p);
    s.cfg.smt_enabled = false;
    let (asked, cpu) = scan(&mut s, &p, 1100, &None, &[1100]);
    assert_eq!(asked, vec![1100]);
    assert_eq!(cpu, 1100);
    // A rotating scan covers the tables alone.
    let (asked, cpu) = scan(&mut s, &p, 1100, &None, &[1150]);
    assert_eq!(asked, vec![1100, 5]);
    assert_eq!(cpu, -1);
    s.cfg.preferred_idle_scan = true;
    s.topo.preferred_cpus[0] = 1150;
    let (asked, cpu) = scan(&mut s, &p, 1100, &None, &[1150]);
    assert_eq!(asked, vec![1100, 1150]);
    assert_eq!(cpu, 1150);
    assert_eq!(s.flat_last_cpu, 0);
}
