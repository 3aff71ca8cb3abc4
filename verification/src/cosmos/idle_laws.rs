//! What holds of every search for an idle CPU.
use crate::cosmos::idle::{
    eligible, flat_candidates, lemma_tail_step, pass_cpus, pass_tail, pass_with_prev, scan_len,
    scan_order, takes, upcoming, IdlePick,
};
use crate::cosmos::state::Cosmos;
use crate::cosmos::task::TaskRef;
use crate::cosmos::topology::in_mask;
use crate::cpumask::{law_mask_holds_no_negative, CpuMask};
use crate::defs::MAX_CPUS;
use vstd::prelude::*;

verus! {

/// What a scan of `pending` ends in, where `answers` says for each try whether
/// the CPU was claimed: each refusal drops the first CPU, the first claim ends
/// the scan, and without one there is no CPU.
pub open spec fn scan_outcome(pending: Seq<i32>, answers: Seq<bool>) -> i32
    decreases pending.len(),
{
    if pending.len() == 0 {
        (-1) as i32
    } else if answers[0] {
        pending[0]
    } else {
        scan_outcome(pending.drop_first(), answers.drop_first())
    }
}

/// The answers of a kernel under which just the CPUs of `idle` can be claimed.
pub open spec fn answers_for(pending: Seq<i32>, idle: Set<i32>) -> Seq<bool> {
    Seq::new(pending.len(), |i: int| idle.contains(pending[i]))
}

proof fn lemma_filter_member(s: Seq<i32>, keep: spec_fn(i32) -> bool, x: i32)
    ensures
        s.filter(keep).contains(x) <==> s.contains(x) && keep(x),
    decreases s.len(),
{
    reveal_with_fuel(Seq::filter, 1);
    if s.len() > 0 {
        let front = s.drop_last();
        lemma_filter_member(front, keep, x);
        let kept = front.filter(keep);
        assert(s =~= front.push(s.last()));
        if s.contains(x) && keep(x) {
            if s.last() == x {
                assert(kept.push(x)[kept.len() as int] == x);
            } else {
                let i = choose|i: int| 0 <= i < s.len() && s[i] == x;
                assert(front[i] == x);
                let j = choose|j: int| 0 <= j < kept.len() && kept[j] == x;
                assert(kept.push(s.last())[j] == x);
            }
        }
        if s.filter(keep).contains(x) {
            let i = choose|i: int| 0 <= i < s.filter(keep).len() && s.filter(keep)[i] == x;
            if i < kept.len() {
                assert(kept[i] == x);
                let j = choose|j: int| 0 <= j < front.len() && front[j] == x;
                assert(s[j] == x);
            } else {
                assert(s[s.len() - 1] == x);
            }
        }
    }
}

proof fn lemma_add_member(a: Seq<i32>, b: Seq<i32>, x: i32)
    ensures
        (a + b).contains(x) <==> a.contains(x) || b.contains(x),
{
    if a.contains(x) {
        let i = choose|i: int| 0 <= i < a.len() && a[i] == x;
        assert((a + b)[i] == x);
    }
    if b.contains(x) {
        let i = choose|i: int| 0 <= i < b.len() && b[i] == x;
        assert((a + b)[a.len() + i] == x);
    }
    if (a + b).contains(x) {
        let i = choose|i: int| 0 <= i < (a + b).len() && (a + b)[i] == x;
        if i < a.len() {
            assert(a[i] == x);
        } else {
            assert(b[i - a.len()] == x);
        }
    }
}

/// One pass tries exactly the eligible CPUs among the previous one and those of
/// the scan order.
pub proof fn law_pass_tries_eligible(
    s: Cosmos,
    p: TaskRef,
    prev: i32,
    primary: Option<CpuMask>,
    smt: Option<CpuMask>,
    cpu: i32,
)
    ensures
        pass_cpus(s, p, prev, primary, smt).contains(cpu) <==> eligible(p, primary, smt, cpu) && (
        cpu == prev || scan_order(s).contains(cpu)),
        eligible(p, primary, smt, prev) ==> pass_cpus(s, p, prev, primary, smt)[0] == prev,
{
    let keep = takes(p, prev, primary, smt);
    let order = scan_order(s);
    assert(order.skip(0) =~= order);
    lemma_filter_member(order, keep, cpu);
    let first = if eligible(p, primary, smt, prev) {
        seq![prev]
    } else {
        seq![]
    };
    lemma_add_member(first, pass_tail(s, p, prev, primary, smt, 0), cpu);
    if eligible(p, primary, smt, prev) && cpu == prev {
        assert(first[0] == cpu);
    }
}

/// A refused CPU is followed by the next candidate and the first claimed one is
/// picked: when the first `k` tries fail and the next succeeds, the pick is
/// candidate `k`. When all fail, no CPU is picked.
pub proof fn law_first_claimed_wins(pending: Seq<i32>, answers: Seq<bool>, k: int)
    requires
        0 <= k <= pending.len(),
        pending.len() <= answers.len(),
        forall|i: int| 0 <= i < k ==> !#[trigger] answers[i],
        k < pending.len() ==> answers[k],
    ensures
        scan_outcome(pending, answers) == (if k < pending.len() {
            pending[k]
        } else {
            (-1) as i32
        }),
    decreases pending.len(),
{
    if pending.len() > 0 && k > 0 {
        let rest = answers.drop_first();
        assert forall|i: int| 0 <= i < k - 1 implies !#[trigger] rest[i] by {
            assert(!answers[i + 1]);
        }
        law_first_claimed_wins(pending.drop_first(), rest, k - 1);
    }
}

/// With a claimable CPU among the candidates, the scan ends in a claimable
/// candidate. If one stands in the first part of the candidates, the scan ends
/// in that part.
proof fn lemma_outcome_in_front(front: Seq<i32>, back: Seq<i32>, idle: Set<i32>, cpu: i32)
    requires
        front.contains(cpu),
        idle.contains(cpu),
    ensures
        ({
            let all = front + back;
            let picked = scan_outcome(all, answers_for(all, idle));
            front.contains(picked) && idle.contains(picked)
        }),
    decreases front.len(),
{
    let all = front + back;
    let answers = answers_for(all, idle);
    assert(front.len() > 0);
    assert(all[0] == front[0]);
    if idle.contains(front[0]) {
        assert(scan_outcome(all, answers) == front[0]);
    } else {
        let i = choose|i: int| 0 <= i < front.len() && front[i] == cpu;
        assert(i > 0);
        let rest = front.drop_first();
        assert(rest[i - 1] == cpu);
        lemma_outcome_in_front(rest, back, idle, cpu);
        assert(all.drop_first() =~= rest + back);
        assert(answers.drop_first() =~= answers_for(rest + back, idle));
        let picked = scan_outcome(rest + back, answers_for(rest + back, idle));
        let j = choose|j: int| 0 <= j < rest.len() && rest[j] == picked;
        assert(front[j + 1] == picked);
    }
}

/// A flat scan for a task that is not pinned tries only CPUs that the task may
/// use, and does not leave out any of the previous CPU and the scan order that
/// it may use.
pub proof fn law_scan_tries_allowed(
    s: Cosmos,
    p: TaskRef,
    prev: i32,
    smt: Option<CpuMask>,
    cpu: i32,
)
    requires
        !s.cfg.no_early_clear,
        !p.pinned(),
    ensures
        flat_candidates(s, p, prev, smt).contains(cpu) <==> p.allows(cpu) && (cpu == prev
            || scan_order(s).contains(cpu)),
{
    let nothing = Seq::<i32>::empty();
    let domain = s.topo.primary_mask;
    law_pass_tries_eligible(s, p, prev, domain, smt, cpu);
    law_pass_tries_eligible(s, p, prev, domain, None, cpu);
    law_pass_tries_eligible(s, p, prev, None, smt, cpu);
    law_pass_tries_eligible(s, p, prev, None, None, cpu);
    let a = if !s.cfg.primary_all && s.cfg.smt_enabled {
        pass_cpus(s, p, prev, domain, smt)
    } else {
        nothing
    };
    let b = if !s.cfg.primary_all {
        pass_cpus(s, p, prev, domain, None)
    } else {
        nothing
    };
    let c = if s.cfg.smt_enabled {
        pass_cpus(s, p, prev, None, smt)
    } else {
        nothing
    };
    let d = pass_cpus(s, p, prev, None, None);
    assert(flat_candidates(s, p, prev, smt) == a + b + c + d);
    lemma_add_member(a + b + c, d, cpu);
    lemma_add_member(a + b, c, cpu);
    lemma_add_member(a, b, cpu);
}

/// The scan finds a CPU whenever a CPU that it tries can be claimed, and what
/// it finds can be claimed and may be used by the task.
pub proof fn law_scan_finds_idle(
    s: Cosmos,
    p: TaskRef,
    prev: i32,
    smt: Option<CpuMask>,
    idle: Set<i32>,
    cpu: i32,
)
    requires
        !s.cfg.no_early_clear,
        !p.pinned(),
        p.allows(cpu),
        cpu == prev || scan_order(s).contains(cpu),
        idle.contains(cpu),
    ensures
        ({
            let all = flat_candidates(s, p, prev, smt);
            let picked = scan_outcome(all, answers_for(all, idle));
            idle.contains(picked) && p.allows(picked)
        }),
{
    let all = flat_candidates(s, p, prev, smt);
    law_scan_tries_allowed(s, p, prev, smt, cpu);
    lemma_outcome_in_front(all, Seq::empty(), idle, cpu);
    assert(all + Seq::<i32>::empty() =~= all);
    law_scan_tries_allowed(s, p, prev, smt, scan_outcome(all, answers_for(all, idle)));
}

/// Outside the primary domain a task is placed only when no CPU that it may use
/// in the domain can be claimed.
pub proof fn law_primary_domain_first(
    s: Cosmos,
    p: TaskRef,
    prev: i32,
    smt: Option<CpuMask>,
    idle: Set<i32>,
    cpu: i32,
)
    requires
        !s.cfg.no_early_clear,
        !p.pinned(),
        !s.cfg.primary_all,
        eligible(p, s.topo.primary_mask, None, cpu),
        cpu == prev || scan_order(s).contains(cpu),
        idle.contains(cpu),
    ensures
        ({
            let all = flat_candidates(s, p, prev, smt);
            let picked = scan_outcome(all, answers_for(all, idle));
            idle.contains(picked) && eligible(p, s.topo.primary_mask, None, picked)
        }),
{
    let nothing = Seq::<i32>::empty();
    let domain = s.topo.primary_mask;
    let all = flat_candidates(s, p, prev, smt);
    let picked = scan_outcome(all, answers_for(all, idle));
    let a = if s.cfg.smt_enabled {
        pass_cpus(s, p, prev, domain, smt)
    } else {
        nothing
    };
    let b = pass_cpus(s, p, prev, domain, None);
    let c = if s.cfg.smt_enabled {
        pass_cpus(s, p, prev, None, smt)
    } else {
        nothing
    };
    let d = pass_cpus(s, p, prev, None, None);
    assert(all =~= (a + b) + (c + d));
    law_pass_tries_eligible(s, p, prev, domain, None, cpu);
    lemma_add_member(a, b, cpu);
    lemma_outcome_in_front(a + b, c + d, idle, cpu);
    lemma_add_member(a, b, picked);
    law_pass_tries_eligible(s, p, prev, domain, smt, picked);
    law_pass_tries_eligible(s, p, prev, domain, None, picked);
}

/// Candidates of which none can be claimed do not affect the outcome.
proof fn lemma_outcome_behind_front(front: Seq<i32>, back: Seq<i32>, idle: Set<i32>)
    requires
        forall|i: int| 0 <= i < front.len() ==> !idle.contains(#[trigger] front[i]),
    ensures
        ({
            let all = front + back;
            scan_outcome(all, answers_for(all, idle)) == scan_outcome(back, answers_for(back, idle))
        }),
    decreases front.len(),
{
    let all = front + back;
    if front.len() == 0 {
        assert(all =~= back);
    } else {
        let rest = front.drop_first();
        assert forall|i: int| 0 <= i < rest.len() implies !idle.contains(#[trigger] rest[i]) by {
            assert(rest[i] == front[i + 1]);
        }
        lemma_outcome_behind_front(rest, back, idle);
        assert(!idle.contains(front[0]));
        assert(all[0] == front[0]);
        assert(all.drop_first() =~= rest + back);
        assert(answers_for(all, idle).drop_first() =~= answers_for(rest + back, idle));
    }
}

/// Within the primary domain, a task shares a core with another only when no CPU
/// of an idle core that it may use there can be claimed.
pub proof fn law_idle_core_of_domain_first(
    s: Cosmos,
    p: TaskRef,
    prev: i32,
    smt: Option<CpuMask>,
    idle: Set<i32>,
    cpu: i32,
)
    requires
        !s.cfg.no_early_clear,
        !p.pinned(),
        !s.cfg.primary_all,
        s.cfg.smt_enabled,
        eligible(p, s.topo.primary_mask, smt, cpu),
        cpu == prev || scan_order(s).contains(cpu),
        idle.contains(cpu),
    ensures
        ({
            let all = flat_candidates(s, p, prev, smt);
            let picked = scan_outcome(all, answers_for(all, idle));
            idle.contains(picked) && eligible(p, s.topo.primary_mask, smt, picked)
        }),
{
    let domain = s.topo.primary_mask;
    let all = flat_candidates(s, p, prev, smt);
    let picked = scan_outcome(all, answers_for(all, idle));
    let a = pass_cpus(s, p, prev, domain, smt);
    let b = pass_cpus(s, p, prev, domain, None);
    let c = pass_cpus(s, p, prev, None, smt);
    let d = pass_cpus(s, p, prev, None, None);
    assert(all =~= a + (b + c + d));
    law_pass_tries_eligible(s, p, prev, domain, smt, cpu);
    lemma_outcome_in_front(a, b + c + d, idle, cpu);
    law_pass_tries_eligible(s, p, prev, domain, smt, picked);
}

/// Where one domain holds all, or none of the primary domain can be claimed, a
/// task shares a core with another only when no CPU of an idle core that it may
/// use can be claimed.
pub proof fn law_idle_core_first(
    s: Cosmos,
    p: TaskRef,
    prev: i32,
    smt: Option<CpuMask>,
    idle: Set<i32>,
    cpu: i32,
)
    requires
        !s.cfg.no_early_clear,
        !p.pinned(),
        s.cfg.smt_enabled,
        s.cfg.primary_all || forall|other: i32| #[trigger]
            idle.contains(other) && (other == prev || scan_order(s).contains(other))
                ==> !eligible(p, s.topo.primary_mask, None, other),
        eligible(p, None, smt, cpu),
        cpu == prev || scan_order(s).contains(cpu),
        idle.contains(cpu),
    ensures
        ({
            let all = flat_candidates(s, p, prev, smt);
            let picked = scan_outcome(all, answers_for(all, idle));
            idle.contains(picked) && eligible(p, None, smt, picked)
        }),
{
    let nothing = Seq::<i32>::empty();
    let domain = s.topo.primary_mask;
    let all = flat_candidates(s, p, prev, smt);
    let picked = scan_outcome(all, answers_for(all, idle));
    let a = if !s.cfg.primary_all {
        pass_cpus(s, p, prev, domain, smt)
    } else {
        nothing
    };
    let b = if !s.cfg.primary_all {
        pass_cpus(s, p, prev, domain, None)
    } else {
        nothing
    };
    let c = pass_cpus(s, p, prev, None, smt);
    let d = pass_cpus(s, p, prev, None, None);
    assert(all =~= (a + b) + (c + d));
    assert forall|i: int| 0 <= i < (a + b).len() implies !idle.contains(#[trigger] (a + b)[i]) by {
        let other = (a + b)[i];
        assert((a + b).contains(other));
        lemma_add_member(a, b, other);
        law_pass_tries_eligible(s, p, prev, domain, smt, other);
        law_pass_tries_eligible(s, p, prev, domain, None, other);
    }
    lemma_outcome_behind_front(a + b, c + d, idle);
    law_pass_tries_eligible(s, p, prev, None, smt, cpu);
    lemma_outcome_in_front(c, d, idle, cpu);
    law_pass_tries_eligible(s, p, prev, None, smt, picked);
}

/// Which cores are idle as a whole matters to a scan only where siblings are
/// looked at and the task is not pinned.
pub proof fn law_cores_matter_only_where_read(
    s: Cosmos,
    p: TaskRef,
    prev: i32,
    smt: Option<CpuMask>,
    other: Option<CpuMask>,
)
    requires
        !s.cfg.smt_enabled || p.pinned(),
    ensures
        flat_candidates(s, p, prev, smt) == flat_candidates(s, p, prev, other),
{
}

/// A rotating scan visits every CPU of the table exactly once.
pub proof fn law_rotation_visits_all(s: Cosmos, cpu: i32)
    requires
        !s.cfg.preferred_idle_scan,
        0 <= cpu < scan_len(s),
    ensures
        scan_order(s).contains(cpu),
        scan_order(s).no_duplicates(),
{
    let len = scan_len(s);
    let start = s.flat_last_cpu as int;
    let order = scan_order(s);
    let i = (cpu - start) % len;
    assert((start + i) % len == cpu) by {
        vstd::arithmetic::div_mod::lemma_add_mod_noop(start, cpu - start, len);
        vstd::arithmetic::div_mod::lemma_add_mod_noop_right(start, cpu - start, len);
        vstd::arithmetic::div_mod::lemma_small_mod(cpu as nat, len as nat);
    }
    assert(order[i] == cpu);
    assert forall|j: int, k: int| 0 <= j < k < len implies order[j] != order[k] by {
        if (start + j) % len == (start + k) % len {
            vstd::arithmetic::div_mod::lemma_sub_mod_noop(start + k, start + j, len);
            vstd::arithmetic::div_mod::lemma_small_mod(0, len as nat);
            assert(((start + k) - (start + j)) % len == 0);
            vstd::arithmetic::div_mod::lemma_small_mod((k - j) as nat, len as nat);
        }
    }
}

/// Where a claim moves the start of the next rotating scan, it is to just
/// behind the claimed CPU.
pub proof fn law_rotation_goes_on(s: Cosmos, prev: i32, cpu: i32)
    requires
        !s.cfg.preferred_idle_scan,
        cpu != prev,
        0 <= cpu < scan_len(s),
    ensures
        ({
            let next = Cosmos { flat_last_cpu: s.scan_mark(prev, cpu), ..s };
            scan_order(next)[0] == (cpu + 1) % scan_len(s)
        }),
{
}

/// A scan covers as many entries as there are CPUs, up to the size of the
/// tables. Entry `i` is the preferred CPU of that rank, or else lies `i` places on
/// from where the last scan ended, going round.
pub proof fn law_scan_covers_all_cpus(s: Cosmos, i: int)
    ensures
        s.nr_cpu_ids <= MAX_CPUS ==> scan_order(s).len() == s.nr_cpu_ids,
        s.nr_cpu_ids > MAX_CPUS ==> scan_order(s).len() == MAX_CPUS,
        scan_len(s) == scan_order(s).len(),
        0 <= i < s.nr_cpu_ids && i < MAX_CPUS && s.cfg.preferred_idle_scan ==> scan_order(s)[i]
            == s.topo.preferred_cpus@[i] as i32,
        0 <= i < s.nr_cpu_ids && i < MAX_CPUS && !s.cfg.preferred_idle_scan ==> scan_order(s)[i]
            == (s.flat_last_cpu + i) % scan_order(s).len() as int,
{
    if 0 <= i < scan_len(s) {
        vstd::arithmetic::div_mod::lemma_mod_bound(s.flat_last_cpu + i, scan_len(s));
    }
}

/// A rotating scan tries every existing CPU that a task may use, and besides the
/// previous CPU no other. If any of these CPUs can be claimed, the scan ends in
/// one that can.
pub proof fn law_rotation_tries_every_cpu(
    s: Cosmos,
    p: TaskRef,
    prev: i32,
    smt: Option<CpuMask>,
    idle: Set<i32>,
    cpu: i32,
)
    requires
        !s.cfg.preferred_idle_scan,
        !s.cfg.no_early_clear,
        p.nr_cpus_allowed != 1,
    ensures
        flat_candidates(s, p, prev, smt).contains(cpu) <==> p.cpus_allowed@.contains(cpu as int)
            && (cpu == prev || (0 <= cpu < s.nr_cpu_ids && cpu < MAX_CPUS)),
        p.cpus_allowed@.contains(cpu as int) && (cpu == prev || (0 <= cpu < s.nr_cpu_ids && cpu
            < MAX_CPUS)) && idle.contains(cpu) ==> {
            let all = flat_candidates(s, p, prev, smt);
            let picked = scan_outcome(all, answers_for(all, idle));
            picked >= 0 && idle.contains(picked) && p.cpus_allowed@.contains(picked as int)
        },
{
    let order = scan_order(s);
    if 0 <= cpu < s.nr_cpu_ids && cpu < MAX_CPUS {
        law_rotation_visits_all(s, cpu);
    }
    if order.contains(cpu) {
        let i = choose|i: int| 0 <= i < order.len() && order[i] == cpu;
        law_scan_covers_all_cpus(s, i);
        vstd::arithmetic::div_mod::lemma_mod_bound(s.flat_last_cpu + i, order.len() as int);
    }
    law_scan_tries_allowed(s, p, prev, smt, cpu);
    if p.allows(cpu) && (cpu == prev || order.contains(cpu)) && idle.contains(cpu) {
        let all = flat_candidates(s, p, prev, smt);
        law_scan_finds_idle(s, p, prev, smt, idle, cpu);
        law_mask_holds_no_negative(
            p.cpus_allowed,
            scan_outcome(all, answers_for(all, idle)) as int,
        );
    }
}

/// A preferred scan tries every CPU of the list that a task may use, up to the
/// number of CPUs and the size of the tables. If any of these CPUs can be claimed,
/// the scan ends in one that can.
pub proof fn law_preferred_scan_tries_list(
    s: Cosmos,
    p: TaskRef,
    prev: i32,
    smt: Option<CpuMask>,
    idle: Set<i32>,
    i: int,
)
    requires
        s.cfg.preferred_idle_scan,
        !s.cfg.no_early_clear,
        p.nr_cpus_allowed != 1,
        0 <= i < s.nr_cpu_ids,
        i < MAX_CPUS,
        p.cpus_allowed@.contains(s.topo.preferred_cpus@[i] as i32 as int),
    ensures
        flat_candidates(s, p, prev, smt).contains(s.topo.preferred_cpus@[i] as i32),
        idle.contains(s.topo.preferred_cpus@[i] as i32) ==> {
            let all = flat_candidates(s, p, prev, smt);
            let picked = scan_outcome(all, answers_for(all, idle));
            picked >= 0 && idle.contains(picked) && p.cpus_allowed@.contains(picked as int)
        },
{
    let cpu = s.topo.preferred_cpus@[i] as i32;
    law_scan_covers_all_cpus(s, i);
    assert(scan_order(s)[i] == cpu);
    law_scan_tries_allowed(s, p, prev, smt, cpu);
    if idle.contains(cpu) {
        let all = flat_candidates(s, p, prev, smt);
        law_scan_finds_idle(s, p, prev, smt, idle, cpu);
        law_mask_holds_no_negative(
            p.cpus_allowed,
            scan_outcome(all, answers_for(all, idle)) as int,
        );
    }
}

/// A CPU is eligible exactly if the task may use it and each mask that is given
/// holds it.
pub proof fn law_eligible_cpus(
    p: TaskRef,
    primary: Option<CpuMask>,
    smt: Option<CpuMask>,
    cpu: i32,
)
    ensures
        eligible(p, primary, smt, cpu) <==> p.cpus_allowed@.contains(cpu as int) && (
        primary matches Some(m) ==> m@.contains(cpu as int)) && (smt matches Some(m)
            ==> m@.contains(cpu as int)),
{
}

/// The kernel's answers are, in order, whether each CPU is among those that can
/// be claimed.
pub proof fn law_answers_follow_idle(pending: Seq<i32>, idle: Set<i32>, i: int)
    requires
        0 <= i < pending.len(),
    ensures
        answers_for(pending, idle).len() == pending.len(),
        answers_for(pending, idle)[i] <==> idle.contains(pending[i]),
{
}

proof fn lemma_tail_outcome(
    s: Cosmos,
    p: TaskRef,
    prev: i32,
    primary: Option<CpuMask>,
    smt: Option<CpuMask>,
    idle: Set<i32>,
    from: int,
    k: int,
)
    requires
        0 <= from <= k < scan_order(s).len(),
        scan_order(s)[k] != prev,
        eligible(p, primary, smt, scan_order(s)[k]),
        idle.contains(scan_order(s)[k]),
        forall|i: int|
            0 <= i < k ==> !(idle.contains(#[trigger] scan_order(s)[i]) && scan_order(s)[i] != prev
                && eligible(p, primary, smt, scan_order(s)[i])),
    ensures
        ({
            let tail = pass_tail(s, p, prev, primary, smt, from);
            scan_outcome(tail, answers_for(tail, idle)) == scan_order(s)[k]
        }),
    decreases k - from,
{
    lemma_tail_step(s, p, prev, primary, smt, from);
    let tail = pass_tail(s, p, prev, primary, smt, from);
    let rest = pass_tail(s, p, prev, primary, smt, from + 1);
    let cpu = scan_order(s)[from];
    if from < k {
        lemma_tail_outcome(s, p, prev, primary, smt, idle, from + 1, k);
        if cpu != prev && eligible(p, primary, smt, cpu) {
            lemma_outcome_behind_front(seq![cpu], rest, idle);
        }
    } else {
        assert(tail[0] == cpu);
    }
}

/// One pass picks the previous CPU if that is eligible and can be claimed; else
/// the first CPU of the scan order that is and can.
pub proof fn law_pass_picks_first(
    s: Cosmos,
    p: TaskRef,
    prev: i32,
    primary: Option<CpuMask>,
    smt: Option<CpuMask>,
    idle: Set<i32>,
    k: int,
)
    requires
        eligible(p, primary, smt, prev) && idle.contains(prev) || (0 <= k < scan_order(s).len()
            && eligible(p, primary, smt, scan_order(s)[k]) && idle.contains(scan_order(s)[k])
            && forall|i: int|
            0 <= i < k ==> !(idle.contains(#[trigger] scan_order(s)[i]) && eligible(
                p,
                primary,
                smt,
                scan_order(s)[i],
            ))),
    ensures
        ({
            let all = pass_cpus(s, p, prev, primary, smt);
            scan_outcome(all, answers_for(all, idle)) == (if eligible(p, primary, smt, prev)
                && idle.contains(prev) {
                prev
            } else {
                scan_order(s)[k]
            })
        }),
{
    let all = pass_cpus(s, p, prev, primary, smt);
    let tail = pass_tail(s, p, prev, primary, smt, 0);
    if eligible(p, primary, smt, prev) && idle.contains(prev) {
        assert(all[0] == prev);
    } else {
        lemma_tail_outcome(s, p, prev, primary, smt, idle, 0, k);
        let first = if eligible(p, primary, smt, prev) {
            seq![prev]
        } else {
            Seq::<i32>::empty()
        };
        assert(all == first + tail);
        lemma_outcome_behind_front(first, tail, idle);
    }
}

/// Candidates that all are CPUs end the scan if any of them can be claimed. Else
/// the scan goes on with what comes behind.
proof fn lemma_outcome_splits(front: Seq<i32>, back: Seq<i32>, idle: Set<i32>)
    requires
        forall|i: int| 0 <= i < front.len() ==> #[trigger] front[i] >= 0,
    ensures
        ({
            let here = scan_outcome(front, answers_for(front, idle));
            let all = front + back;
            scan_outcome(all, answers_for(all, idle)) == (if here >= 0 {
                here
            } else {
                scan_outcome(back, answers_for(back, idle))
            })
        }),
    decreases front.len(),
{
    let all = front + back;
    if front.len() == 0 {
        assert(all =~= back);
    } else {
        let rest = front.drop_first();
        assert forall|i: int| 0 <= i < rest.len() implies #[trigger] rest[i] >= 0 by {
            assert(rest[i] == front[i + 1]);
        }
        lemma_outcome_splits(rest, back, idle);
        assert(front[0] >= 0);
        assert(all[0] == front[0]);
        assert(all.drop_first() =~= rest + back);
        assert(answers_for(all, idle).drop_first() =~= answers_for(rest + back, idle));
        assert(answers_for(front, idle).drop_first() =~= answers_for(rest, idle));
    }
}

proof fn lemma_pass_holds_cpus(
    s: Cosmos,
    p: TaskRef,
    prev: i32,
    primary: Option<CpuMask>,
    smt: Option<CpuMask>,
)
    ensures
        forall|i: int|
            0 <= i < pass_cpus(s, p, prev, primary, smt).len() ==> #[trigger] pass_cpus(
                s,
                p,
                prev,
                primary,
                smt,
            )[i] >= 0,
{
    let all = pass_cpus(s, p, prev, primary, smt);
    assert forall|i: int| 0 <= i < all.len() implies #[trigger] all[i] >= 0 by {
        assert(all.contains(all[i]));
        law_pass_tries_eligible(s, p, prev, primary, smt, all[i]);
        law_mask_holds_no_negative(p.cpus_allowed, all[i] as int);
    }
}

/// A scan ends as the first of its passes that finds a CPU: idle cores of the
/// primary domain, any CPU of the domain, idle cores anywhere, any CPU anywhere.
/// The domain is left out where every CPU is primary, and cores where siblings
/// are not looked at.
pub proof fn law_first_successful_pass(
    s: Cosmos,
    p: TaskRef,
    prev: i32,
    smt: Option<CpuMask>,
    idle: Set<i32>,
)
    requires
        !s.cfg.no_early_clear,
        p.nr_cpus_allowed != 1,
    ensures
        ({
            let all = flat_candidates(s, p, prev, smt);
            let a = pass_cpus(s, p, prev, s.topo.primary_mask, smt);
            let b = pass_cpus(s, p, prev, s.topo.primary_mask, None);
            let c = pass_cpus(s, p, prev, None, smt);
            let d = pass_cpus(s, p, prev, None, None);
            let in_core = scan_outcome(a, answers_for(a, idle));
            let in_domain = scan_outcome(b, answers_for(b, idle));
            let any_core = scan_outcome(c, answers_for(c, idle));
            scan_outcome(all, answers_for(all, idle)) == (if !s.cfg.primary_all
                && s.cfg.smt_enabled && in_core >= 0 {
                in_core
            } else if !s.cfg.primary_all && in_domain >= 0 {
                in_domain
            } else if s.cfg.smt_enabled && any_core >= 0 {
                any_core
            } else {
                scan_outcome(d, answers_for(d, idle))
            })
        }),
{
    let nothing = Seq::<i32>::empty();
    let domain = s.topo.primary_mask;
    let all = flat_candidates(s, p, prev, smt);
    let a = if !s.cfg.primary_all && s.cfg.smt_enabled {
        pass_cpus(s, p, prev, domain, smt)
    } else {
        nothing
    };
    let b = if !s.cfg.primary_all {
        pass_cpus(s, p, prev, domain, None)
    } else {
        nothing
    };
    let c = if s.cfg.smt_enabled {
        pass_cpus(s, p, prev, None, smt)
    } else {
        nothing
    };
    let d = pass_cpus(s, p, prev, None, None);
    lemma_pass_holds_cpus(s, p, prev, domain, smt);
    lemma_pass_holds_cpus(s, p, prev, domain, None);
    lemma_pass_holds_cpus(s, p, prev, None, smt);
    assert(all =~= a + (b + (c + d)));
    lemma_outcome_splits(a, b + (c + d), idle);
    lemma_outcome_splits(b, c + d, idle);
    lemma_outcome_splits(c, d, idle);
}

/// A pinned task tries the CPU that it is on and no other. Without early clearing
/// nothing is tried.
pub proof fn law_pinned_tries_one(s: Cosmos, p: TaskRef, prev: i32, smt: Option<CpuMask>)
    ensures
        s.cfg.no_early_clear ==> flat_candidates(s, p, prev, smt).len() == 0,
        !s.cfg.no_early_clear && p.nr_cpus_allowed == 1 ==> flat_candidates(s, p, prev, smt)
            =~= seq![prev],
{
}

/// A claim moves the start of the next scan to just behind the claimed CPU, but
/// for the previous CPU and in a preferred scan, where it stays.
pub proof fn law_claim_moves_scan(s: Cosmos, prev: i32, cpu: i32)
    ensures
        s.cfg.preferred_idle_scan || cpu == prev ==> s.scan_mark(prev, cpu) == s.flat_last_cpu,
        !s.cfg.preferred_idle_scan && cpu != prev && 0 <= cpu < MAX_CPUS ==> s.scan_mark(prev, cpu)
            == cpu + 1,
{
}

/// The scheduler scans for itself exactly where a scan is switched on and the
/// previous CPU is below the busy threshold, or there is no threshold or no such
/// CPU. It looks at cores where siblings are looked at besides.
pub proof fn law_when_to_scan(s: Cosmos, prev: i32)
    ensures
        ({
            let loaded = 0 < s.cfg.busy_threshold && 0 <= prev < s.nr_cpu_ids && prev < MAX_CPUS
                && s.topo.cpu_util@[prev as int] >= s.cfg.busy_threshold;
            &&& s.scans(prev) <==> (s.cfg.flat_idle_scan || s.cfg.preferred_idle_scan) && !loaded
            &&& s.scans_cores(prev) <==> s.scans(prev) && s.cfg.smt_enabled
        }),
{
}

/// The kernel's search starts from the waker's CPU where every CPU is primary,
/// the task is being woken up, and that CPU has more capacity than the previous
/// one; else from the previous one.
pub proof fn law_search_starts_from_faster_waker(
    s: Cosmos,
    prev: i32,
    this_cpu: i32,
    wake_flags: u64,
)
    ensures
        ({
            let faster = !s.cfg.all_cpus_same_capacity && 0 <= this_cpu < s.nr_cpu_ids && this_cpu
                < MAX_CPUS && 0 <= prev < s.nr_cpu_ids && prev < MAX_CPUS
                && s.topo.cpu_capacity@[this_cpu as int] > s.topo.cpu_capacity@[prev as int];
            s.search_origin(prev, this_cpu, wake_flags) == (if s.cfg.primary_all && wake_flags & 1
                != 0 && faster {
                this_cpu
            } else {
                prev
            })
        }),
        s.search_flags(wake_flags) == (if s.cfg.no_wake_sync {
            wake_flags & !2u64
        } else {
            wake_flags
        }),
{
}

/// Outside a flat scan the kernel is asked for the primary domain first, with a
/// preference for idle cores where shared ones are avoided; and for any CPU at
/// once where every CPU is primary or no mask is given.
pub proof fn law_search_asks_domain_first(
    s: Cosmos,
    p: TaskRef,
    prev: i32,
    this_cpu: i32,
    wake_flags: u64,
    smt: Option<CpuMask>,
    pick: IdlePick,
)
    requires
        !s.scans(prev),
        s.pick_starts(p, prev, this_cpu, wake_flags, smt, pick),
    ensures
        !s.cfg.primary_all && s.topo.primary_mask is Some ==> pick == (IdlePick::SelectPrimary {
            prev: s.search_origin(prev, this_cpu, wake_flags),
            wake_flags: s.search_flags(wake_flags),
            flags: if s.cfg.avoid_smt {
                1
            } else {
                0
            },
        }),
        s.cfg.primary_all || s.topo.primary_mask is None ==> pick == (IdlePick::SelectAny {
            prev: s.search_origin(prev, this_cpu, wake_flags),
            wake_flags: s.search_flags(wake_flags),
        }),
{
}

/// A flat scan starts with all of its candidates still to be tried.
pub proof fn law_scan_starts_with_all(
    s: Cosmos,
    p: TaskRef,
    prev: i32,
    this_cpu: i32,
    wake_flags: u64,
    smt: Option<CpuMask>,
    pick: IdlePick,
)
    requires
        s.scans(prev),
        s.pick_starts(p, prev, this_cpu, wake_flags, smt, pick),
    ensures
        match pick {
            IdlePick::Probe { cpu, rest } => flat_candidates(s, p, prev, smt) == seq![cpu]
                + upcoming(s, p, prev, smt, rest),
            IdlePick::Picked(cpu) => cpu == -1 && flat_candidates(s, p, prev, smt).len() == 0,
            _ => false,
        },
{
}

/// A pass tries the previous CPU first if that is allowed and in each mask that is
/// given, and then what it takes out of the scan order.
pub proof fn law_pass_starts_with_previous(
    s: Cosmos,
    p: TaskRef,
    prev: i32,
    is_prev_allowed: bool,
    primary: Option<CpuMask>,
    smt: Option<CpuMask>,
)
    ensures
        ({
            let first = is_prev_allowed && (primary matches Some(m) ==> m@.contains(prev as int))
                && (smt matches Some(m) ==> m@.contains(prev as int));
            let tail = pass_tail(s, p, prev, primary, smt, 0);
            pass_with_prev(s, p, prev, is_prev_allowed, primary, smt) =~= (if first {
                seq![prev] + tail
            } else {
                tail
            })
        }),
{
}

} // verus!
