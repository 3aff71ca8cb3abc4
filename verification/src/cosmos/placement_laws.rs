//! What holds of every placement of a task.
use crate::cosmos::enqueue::{count_after, local_queue_on, Enqueue};
use crate::cosmos::idle::{flat_candidates, scanning, upcoming, IdlePick};
use crate::cosmos::idle_laws::{law_scan_tries_allowed, scan_outcome};
use crate::cosmos::select::{usable_prev, waker_cpu, SelectCpu};
use crate::cosmos::state::{law_records_are_contexts, Cosmos, Counters};
use crate::cosmos::task::{TaskCtx, TaskRef};
use crate::cpumask::CpuMask;
use crate::defs::{Insert, MAX_CPUS};
use vstd::prelude::*;

verus! {

/// Asking step by step ends where the scan as a whole does: a search that is
/// over has its outcome, a claim ends the search in its outcome, and a refusal
/// leaves an outcome that depends on the remaining CPUs and answers alone.
pub proof fn law_steps_reach_outcome(
    s: Cosmos,
    p: TaskRef,
    prev: i32,
    smt: Option<CpuMask>,
    pick: IdlePick,
    pending: Seq<i32>,
    answers: Seq<bool>,
)
    requires
        scanning(s, p, prev, smt, pick, pending),
        answers.len() >= pending.len(),
    ensures
        match pick {
            IdlePick::Probe { cpu, rest } => scan_outcome(pending, answers) == (if answers[0] {
                cpu
            } else {
                scan_outcome(upcoming(s, p, prev, smt, rest), answers.drop_first())
            }) && upcoming(s, p, prev, smt, rest).len() + 1 == pending.len(),
            IdlePick::Picked(cpu) => scan_outcome(pending, answers) == cpu,
            _ => false,
        },
{
    if let IdlePick::Probe { cpu, rest } = pick {
        let after = upcoming(s, p, prev, smt, rest);
        assert(pending.drop_first() =~= after);
    }
}

proof fn lemma_outcome_is_candidate(pending: Seq<i32>, answers: Seq<bool>)
    ensures
        scan_outcome(pending, answers) == -1 || pending.contains(scan_outcome(pending, answers)),
    decreases pending.len(),
{
    if pending.len() > 0 {
        if answers[0] {
            assert(pending[0] == scan_outcome(pending, answers));
        } else {
            let rest = pending.drop_first();
            lemma_outcome_is_candidate(rest, answers.drop_first());
            let picked = scan_outcome(rest, answers.drop_first());
            if rest.contains(picked) {
                let i = choose|i: int| 0 <= i < rest.len() && rest[i] == picked;
                assert(pending[i + 1] == picked);
            }
        }
    }
}

/// What a flat scan picks for a task, it may use, whatever the kernel answers;
/// a pinned task gets its CPU or none.
pub proof fn law_scan_respects_affinity(
    s: Cosmos,
    p: TaskRef,
    prev: i32,
    smt: Option<CpuMask>,
    answers: Seq<bool>,
)
    ensures
        ({
            let picked = scan_outcome(flat_candidates(s, p, prev, smt), answers);
            picked == -1 || (if p.pinned() {
                picked == prev
            } else {
                p.allows(picked)
            })
        }),
{
    let all = flat_candidates(s, p, prev, smt);
    let picked = scan_outcome(all, answers);
    lemma_outcome_is_candidate(all, answers);
    if all.contains(picked) && !p.pinned() {
        law_scan_tries_allowed(s, p, prev, smt, picked);
    }
}

/// A task that wakes up goes to a CPU that it may use, if the kernel's choice of
/// a first CPU is one: after a flat scan, and when it stays with its waker.
pub proof fn law_select_respects_affinity(
    s: Cosmos,
    p: TaskRef,
    current: TaskRef,
    this_cpu: i32,
    prev_cpu: i32,
    smt: Option<CpuMask>,
    answers: Seq<bool>,
)
    requires
        p.allows(p.first_allowed),
    ensures
        ({
            let prev = usable_prev(p, this_cpu, prev_cpu);
            let found = scan_outcome(flat_candidates(s, p, prev, smt), answers);
            s.select_result(p, prev, s.busy(prev_cpu), found) matches SelectCpu::Done {
                cpu,
                insert,
            } && p.allows(cpu)
        }),
        s.stays_with_waker(p, current, this_cpu, prev_cpu) ==> p.allows(this_cpu),
{
    let prev = usable_prev(p, this_cpu, prev_cpu);
    law_scan_respects_affinity(s, p, prev, smt, answers);
}

/// A task that wakes up is left to the later placement only where its CPU is
/// busy and no idle one was found.
pub proof fn law_select_inserts(s: Cosmos, p: TaskRef, prev: i32, busy: bool, found: i32)
    ensures
        s.select_result(p, prev, busy, found) matches SelectCpu::Done { cpu, insert } && (insert
            is None <==> busy && found < 0),
{
}

/// A known task is always placed: at once, or by its deadline.
pub proof fn law_known_task_is_placed(
    s: Cosmos,
    p: TaskRef,
    tctx: TaskCtx,
    enq_flags: u64,
    found: i32,
)
    ensures
        s.stay_result(p, enq_flags) is Done,
        s.enqueue_result(p, tctx, enq_flags, found) is Done || s.enqueue_result(
            p,
            tctx,
            enq_flags,
            found,
        ) == (Enqueue::ByDeadline { tctx }),
{
}

/// A task goes through the shared queue exactly when no idle CPU was found and
/// its own CPU is busy or not its place.
pub proof fn law_shared_queue_is_last_resort(
    s: Cosmos,
    p: TaskRef,
    tctx: TaskCtx,
    enq_flags: u64,
    found: i32,
)
    ensures
        s.enqueue_result(p, tctx, enq_flags, found) is ByDeadline <==> found < 0 && (s.busy(p.cpu)
            || !s.at_home(p)),
{
}

/// A task that is not running wakes up the CPU that it is queued on. One that
/// is running never wakes up its own.
pub proof fn law_placement_wakes_cpu(
    s: Cosmos,
    p: TaskRef,
    tctx: TaskCtx,
    enq_flags: u64,
    found: i32,
)
    ensures
        s.enqueue_result(p, tctx, enq_flags, found) matches Enqueue::Done { insert, kick } ==> {
            let cpu = if found >= 0 {
                found
            } else {
                p.cpu
            };
            &&& insert matches Insert::Fifo { dsq, slice, enq_flags: flags } && dsq
                == local_queue_on(cpu) && flags == enq_flags
            &&& !p.running ==> kick == Some(cpu)
            &&& kick is None <==> p.running && cpu == p.cpu
        },
        s.stay_result(p, enq_flags) matches Enqueue::Done { insert, kick } && (kick
            is None <==> p.running),
{
}

/// Placing a task changes no record of any task or CPU, and no counter but the
/// one for events, which moves by at most one step.
pub proof fn law_placement_keeps_records(
    before: Cosmos,
    after: Cosmos,
    p: TaskRef,
    tctx: TaskCtx,
    enq_flags: u64,
    pick: IdlePick,
    r: Enqueue,
    now: u64,
)
    requires
        before.enqueue_follows(p, tctx, enq_flags, pick, r, after),
    ensures
        after.tasks() == before.tasks(),
        after.cpu_ctxs == before.cpu_ctxs,
        after.vtime_now == before.vtime_now,
        after.counters.nr_event_dispatches == before.counters.nr_event_dispatches
            || after.counters.nr_event_dispatches == count_after(
            before.counters.nr_event_dispatches,
        ),
        after.counters.nr_gpu_dispatches == before.counters.nr_gpu_dispatches,
        after.counters.nr_ev_sticky_dispatches == before.counters.nr_ev_sticky_dispatches,
        before.capped() ==> after.capped(),
        before.recorded_by(now) ==> after.recorded_by(now),
{
    law_records_are_contexts(before, after, now);
}

/// Keeping a task on its CPU changes no record either, and moves the counter for
/// such placements, and no other, by one step.
pub proof fn law_stay_keeps_records(s: Cosmos, now: u64)
    ensures
        s.after_stay().tasks() == s.tasks(),
        s.after_stay().cpu_ctxs == s.cpu_ctxs,
        s.after_stay().vtime_now == s.vtime_now,
        s.after_stay().counters.nr_event_dispatches == s.counters.nr_event_dispatches,
        s.after_stay().counters.nr_gpu_dispatches == s.counters.nr_gpu_dispatches,
        s.after_stay().counters.nr_ev_sticky_dispatches == count_after(
            s.counters.nr_ev_sticky_dispatches,
        ),
        s.capped() ==> s.after_stay().capped(),
        s.recorded_by(now) ==> s.after_stay().recorded_by(now),
{
    law_records_are_contexts(s, s.after_stay(), now);
}

/// Without event counting configured, no placement is made for the sake of
/// events and none is counted.
pub proof fn law_no_events_no_counts(s: Cosmos, p: TaskRef, tctx: TaskCtx, found: i32)
    requires
        !s.counts_events(),
    ensures
        !s.wants_stay(p, tctx),
        s.events_after(p, tctx, found) == s.counters.nr_event_dispatches,
{
}

/// The search starts from the previous CPU where the task may use it, else from
/// the waker's where it may use that, else from the first that it may use. The
/// waker's CPU counts only where the task may use it.
pub proof fn law_search_starts_where_allowed(p: TaskRef, this_cpu: i32, prev_cpu: i32)
    ensures
        ({
            let mask = p.cpus_allowed@;
            let from = usable_prev(p, this_cpu, prev_cpu);
            &&& mask.contains(prev_cpu as int) ==> from == prev_cpu
            &&& !mask.contains(prev_cpu as int) && mask.contains(this_cpu as int) ==> from
                == this_cpu
            &&& !mask.contains(prev_cpu as int) && !mask.contains(this_cpu as int) ==> from
                == p.first_allowed
            &&& mask.contains(this_cpu as int) ==> waker_cpu(p, this_cpu) == this_cpu
            &&& !mask.contains(this_cpu as int) ==> waker_cpu(p, this_cpu) == -1
        }),
{
}

/// A task stays with its waker exactly if affinity is on, both have one address
/// space, the waker is not leaving and is on the CPU that the search would start
/// from, and the CPU that the task ran on has not reached the busy threshold.
pub proof fn law_who_stays_with_waker(
    s: Cosmos,
    p: TaskRef,
    current: TaskRef,
    this_cpu: i32,
    prev_cpu: i32,
)
    ensures
        ({
            let loaded = 0 < s.cfg.busy_threshold && 0 <= prev_cpu < s.nr_cpu_ids && prev_cpu
                < MAX_CPUS && s.topo.cpu_util@[prev_cpu as int] >= s.cfg.busy_threshold;
            s.stays_with_waker(p, current, this_cpu, prev_cpu) <==> s.cfg.mm_affinity
                && current.flags & 0x0000_0004 == 0 && p.mm != 0 && p.mm == current.mm && !loaded
                && this_cpu == usable_prev(p, this_cpu, prev_cpu)
        }),
{
}

/// A choice that is over names the CPU that was found, or the fallback. Unless
/// the CPU is busy and none was found, the task goes into the local queue for the
/// base slice times its weight over 100, without flags.
pub proof fn law_chosen_cpu_gets_weighted_slice(
    s: Cosmos,
    p: TaskRef,
    prev: i32,
    busy: bool,
    found: i32,
)
    ensures
        s.select_result(p, prev, busy, found) == (SelectCpu::Done {
            cpu: if found >= 0 {
                found
            } else {
                prev
            },
            insert: if busy && found < 0 {
                None
            } else {
                Some(
                    Insert::Fifo {
                        dsq: 0xffff_ffff_ffff_ffff,
                        slice: if p.weight > 0 {
                            (s.cfg.slice_ns * p.weight / 100) as u64
                        } else {
                            s.cfg.slice_ns
                        },
                        enq_flags: 0,
                    },
                )
            },
        }),
        s.select_state(p, prev, busy, IdlePick::Picked(found)) == s.select_result(
            p,
            prev,
            busy,
            found,
        ),
{
}

/// While the search goes on, the choice waits for the same answer, with the same
/// fallback.
pub proof fn law_choice_waits_for_search(
    s: Cosmos,
    p: TaskRef,
    prev: i32,
    busy: bool,
    pick: IdlePick,
)
    requires
        !(pick is Picked),
    ensures
        s.select_state(p, prev, busy, pick) == (SelectCpu::Searching { pick, prev, busy }),
{
}

/// Of two tasks alike but for their weight, the heavier one is inserted for a
/// slice at least as long.
pub proof fn law_heavier_gets_longer_slice(
    s: Cosmos,
    light: TaskRef,
    heavy: TaskRef,
    prev: i32,
    found: i32,
    a: Insert,
    b: Insert,
)
    requires
        0 < light.weight <= heavy.weight,
        s.slice_fits(heavy),
        s.select_result(light, prev, false, found) == (SelectCpu::Done {
            cpu: if found >= 0 {
                found
            } else {
                prev
            },
            insert: Some(a),
        }),
        s.select_result(heavy, prev, false, found) == (SelectCpu::Done {
            cpu: if found >= 0 {
                found
            } else {
                prev
            },
            insert: Some(b),
        }),
    ensures
        a->Fifo_slice <= b->Fifo_slice,
{
    let base = s.cfg.slice_ns as int;
    let l = light.weight as int;
    let h = heavy.weight as int;
    assert(0 <= base * l <= base * h) by (nonlinear_arith)
        requires
            base >= 0,
            0 < l <= h,
    ;
}

/// What becomes of a task that is queued after a search. A CPU that was found
/// gets it, and is woken up unless the task is running there. Else the task's own
/// CPU gets it, if it has not reached the busy threshold and is primary or the
/// task's only one; it is woken up unless the task is running. Else the task is
/// queued by its deadline. The slice is the base slice times the weight over 100.
pub proof fn law_where_a_task_is_queued(
    s: Cosmos,
    p: TaskRef,
    tctx: TaskCtx,
    enq_flags: u64,
    found: i32,
)
    ensures
        ({
            let slice = if p.weight > 0 {
                (s.cfg.slice_ns * p.weight / 100) as u64
            } else {
                s.cfg.slice_ns
            };
            let loaded = 0 < s.cfg.busy_threshold && 0 <= p.cpu < s.nr_cpu_ids && p.cpu < MAX_CPUS
                && s.topo.cpu_util@[p.cpu as int] >= s.cfg.busy_threshold;
            let home = s.cfg.primary_all || p.nr_cpus_allowed == 1 || (
            s.topo.primary_mask matches Some(m) ==> m@.contains(p.cpu as int));
            let r = s.enqueue_result(p, tctx, enq_flags, found);
            &&& found >= 0 ==> r == (Enqueue::Done {
                insert: Insert::Fifo {
                    dsq: 0xffff_ffff_ffff_fffe | found as u64,
                    slice,
                    enq_flags,
                },
                kick: if p.running && found == p.cpu {
                    None
                } else {
                    Some(found)
                },
            })
            &&& found < 0 && !loaded && home ==> r == (Enqueue::Done {
                insert: Insert::Fifo {
                    dsq: 0xffff_ffff_ffff_fffe | p.cpu as u64,
                    slice,
                    enq_flags,
                },
                kick: if p.running {
                    None
                } else {
                    Some(p.cpu)
                },
            })
            &&& found < 0 && (loaded || !home) ==> r == (Enqueue::ByDeadline { tctx })
        }),
{
}

/// With a threshold, a task for which no idle CPU was found is sent to the shared
/// queue from every CPU that has reached it; and from no other CPU that is the
/// task's place.
pub proof fn law_loaded_cpu_sheds_task(
    s: Cosmos,
    p: TaskRef,
    tctx: TaskCtx,
    enq_flags: u64,
    found: i32,
)
    requires
        found < 0,
        s.cfg.busy_threshold > 0,
        0 <= p.cpu < s.nr_cpu_ids,
        p.cpu < MAX_CPUS,
    ensures
        s.topo.cpu_util@[p.cpu as int] >= s.cfg.busy_threshold ==> s.enqueue_result(
            p,
            tctx,
            enq_flags,
            found,
        ) == (Enqueue::ByDeadline { tctx }),
        s.topo.cpu_util@[p.cpu as int] < s.cfg.busy_threshold && s.cfg.primary_all
            ==> s.enqueue_result(p, tctx, enq_flags, found) is Done,
{
}

/// A task that was sent to the shared queue from a loaded CPU is sent there too
/// when the CPU is loaded more.
pub proof fn law_more_load_sheds_too(
    a: Cosmos,
    b: Cosmos,
    p: TaskRef,
    tctx: TaskCtx,
    enq_flags: u64,
)
    requires
        a.cfg == b.cfg,
        a.nr_cpu_ids == b.nr_cpu_ids,
        a.topo.primary_mask == b.topo.primary_mask,
        0 <= p.cpu < MAX_CPUS,
        a.topo.cpu_util@[p.cpu as int] <= b.topo.cpu_util@[p.cpu as int],
        a.enqueue_result(p, tctx, enq_flags, -1i32) is ByDeadline,
    ensures
        b.enqueue_result(p, tctx, enq_flags, -1i32) is ByDeadline,
{
}

/// A task wants to stay for its sticky events exactly if they are configured and
/// over the threshold, and its CPU is primary or its only one.
pub proof fn law_who_wants_to_stay(s: Cosmos, p: TaskRef, tctx: TaskCtx)
    ensures
        s.wants_stay(p, tctx) <==> s.cfg.perf_sticky != 0 && tctx.perf_sticky_events
            > s.cfg.perf_sticky_threshold && (s.cfg.primary_all || p.nr_cpus_allowed == 1 || (
        s.topo.primary_mask matches Some(m) ==> m@.contains(p.cpu as int))),
        s.sticky_event_heavy(tctx) <==> s.cfg.perf_sticky != 0 && tctx.perf_sticky_events
            > s.cfg.perf_sticky_threshold,
        s.event_heavy(tctx) <==> s.cfg.perf_config != 0 && tctx.perf_events > s.cfg.perf_threshold,
{
}

/// A task that stays goes into the local queue of its CPU for the base slice
/// times its weight over 100. The CPU is woken up unless the task is running, and
/// the stay is counted.
pub proof fn law_staying_task_is_inserted(s: Cosmos, p: TaskRef, enq_flags: u64)
    ensures
        s.stay_result(p, enq_flags) == (Enqueue::Done {
            insert: Insert::Fifo {
                dsq: 0xffff_ffff_ffff_ffff,
                slice: if p.weight > 0 {
                    (s.cfg.slice_ns * p.weight / 100) as u64
                } else {
                    s.cfg.slice_ns
                },
                enq_flags,
            },
            kick: if p.running {
                None
            } else {
                Some(p.cpu)
            },
        }),
        s.counters.nr_ev_sticky_dispatches < u64::MAX ==> s.after_stay() == (Cosmos {
            counters: Counters {
                nr_ev_sticky_dispatches: (s.counters.nr_ev_sticky_dispatches + 1) as u64,
                ..s.counters
            },
            ..s
        }),
        s.counters.nr_ev_sticky_dispatches == u64::MAX ==> s.after_stay() == (Cosmos {
            counters: Counters { nr_ev_sticky_dispatches: 0, ..s.counters },
            ..s
        }),
{
}

/// A search that is over places the task and counts it where it moves to another
/// CPU for its events. A search that goes on changes nothing.
pub proof fn law_step_places_or_waits(
    before: Cosmos,
    after: Cosmos,
    p: TaskRef,
    tctx: TaskCtx,
    enq_flags: u64,
    pick: IdlePick,
    r: Enqueue,
)
    requires
        before.enqueue_follows(p, tctx, enq_flags, pick, r, after),
    ensures
        match pick {
            IdlePick::Picked(found) => {
                let counted = found >= 0 && found != p.cpu && before.cfg.perf_config != 0
                    && tctx.perf_events > before.cfg.perf_threshold;
                let n = before.counters.nr_event_dispatches;
                &&& r == before.enqueue_result(p, tctx, enq_flags, found)
                &&& !counted ==> after == before
                &&& counted && n < u64::MAX ==> after == (Cosmos {
                    counters: Counters { nr_event_dispatches: (n + 1) as u64, ..before.counters },
                    ..before
                })
                &&& counted && n == u64::MAX ==> after == (Cosmos {
                    counters: Counters { nr_event_dispatches: 0, ..before.counters },
                    ..before
                })
            },
            _ => r == (Enqueue::Searching { pick, tctx }) && after == before,
        },
{
}

/// A pinned task asks for its own CPU and no other. Any other task is searched
/// for as if it were not being woken up, from its own CPU.
pub proof fn law_queued_task_searches_from_its_cpu(
    s: Cosmos,
    p: TaskRef,
    smt: Option<CpuMask>,
    pick: IdlePick,
)
    requires
        s.enqueue_search(p, smt, pick),
    ensures
        p.nr_cpus_allowed == 1 && !s.cfg.no_early_clear ==> (pick matches IdlePick::Probe {
            cpu,
            rest,
        } && cpu == p.cpu && upcoming(s, p, p.cpu, smt, rest).len() == 0),
        p.nr_cpus_allowed == 1 && s.cfg.no_early_clear ==> pick == IdlePick::Picked(-1i32),
        p.nr_cpus_allowed != 1 ==> s.pick_starts(p, p.cpu, (-1) as i32, 0, smt, pick),
        s.enqueue_scans_cores(p) <==> p.nr_cpus_allowed != 1 && s.scans_cores(p.cpu),
{
    if p.nr_cpus_allowed == 1 && !s.cfg.no_early_clear {
        if let IdlePick::Probe { cpu, rest } = pick {
            let after = upcoming(s, p, p.cpu, smt, rest);
            assert((seq![cpu] + after).len() == 1 + after.len());
            assert((seq![cpu] + after)[0] == cpu);
        }
    }
}

/// A search is always about its candidates: it asks for the first of them, or
/// there are none and no CPU is picked.
pub proof fn law_search_asks_first_candidate(
    s: Cosmos,
    p: TaskRef,
    prev: i32,
    smt: Option<CpuMask>,
    pick: IdlePick,
    pending: Seq<i32>,
)
    requires
        scanning(s, p, prev, smt, pick, pending),
    ensures
        pending.len() == 0 ==> pick == IdlePick::Picked(-1i32),
        pending.len() > 0 ==> (pick matches IdlePick::Probe { cpu, rest } && cpu == pending[0]
            && upcoming(s, p, prev, smt, rest) =~= pending.drop_first()),
{
    if let IdlePick::Probe { cpu, rest } = pick {
        let after = upcoming(s, p, prev, smt, rest);
        assert((seq![cpu] + after)[0] == cpu);
        assert((seq![cpu] + after).drop_first() =~= after);
    }
}

} // verus!
