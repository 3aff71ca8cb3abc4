//! The search for an idle CPU.
//!
//! Claiming a CPU's idle state and the kernel's own search are up to the
//! kernel. The search is therefore cut into steps: an [`IdlePick`] names the
//! next thing to ask of the kernel, and the answer leads to the next one, until
//! a CPU is picked.
use crate::arith::is_wakeup;
use crate::cosmos::state::{nr_cpu_ids, Cosmos};
use crate::cosmos::task::TaskRef;
use crate::cosmos::topology::{
    cpus_share_cache, in_mask, is_cpu_busy, is_cpu_faster, mask_allows, test_cpu_idle,
};
use crate::cpumask::CpuMask;
use crate::defs::{MAX_CPUS, SCX_PICK_IDLE_CORE, SCX_WAKE_SYNC, SCX_WAKE_TTWU};
use vstd::prelude::*;

verus! {

/// A place in a flat scan: the pass, and within it the next thing to look at,
/// which is the previous CPU at 0 and entry `pos - 1` of the scan order after.
#[derive(Clone, Copy, Debug, PartialEq, Eq, Structural)]
pub struct Scan {
    pub pass: u8,
    pub pos: usize,
}

/// Passes of a flat scan: idle cores in the primary domain, idle CPUs in the
/// primary domain, idle cores anywhere, idle CPUs anywhere.
pub const SCAN_PASSES: u8 = 4;

/// A step of the search.
#[derive(Clone, Copy, Debug, PartialEq, Eq, Structural)]
pub enum IdlePick {
    /// Ask the kernel to test and clear the idle state of `cpu`. If it was not
    /// idle, the scan goes on at `rest`.
    Probe { cpu: i32, rest: Scan },
    /// Ask the kernel for an idle CPU of the primary domain.
    SelectPrimary { prev: i32, wake_flags: u64, flags: u64 },
    /// Ask the kernel for any idle CPU that the task may use.
    SelectAny { prev: i32, wake_flags: u64 },
    /// The search is over. A negative number is no CPU.
    Picked(i32),
}

/// How many CPUs a flat scan covers.
pub open spec fn scan_len(s: Cosmos) -> int {
    if s.nr_cpu_ids < MAX_CPUS {
        s.nr_cpu_ids as int
    } else {
        MAX_CPUS as int
    }
}

/// The order in which a flat scan visits the CPUs: the preferred order, or
/// round the table from where the last scan ended.
pub open spec fn scan_order(s: Cosmos) -> Seq<i32> {
    Seq::new(
        scan_len(s) as nat,
        |i: int|
            if s.cfg.preferred_idle_scan {
                s.topo.preferred_cpus@[i] as i32
            } else {
                ((s.flat_last_cpu + i) % scan_len(s)) as i32
            },
    )
}

/// The task may use the CPU, and the masks that are given hold it.
pub open spec fn eligible(
    p: TaskRef,
    primary: Option<CpuMask>,
    smt: Option<CpuMask>,
    cpu: i32,
) -> bool {
    p.allows(cpu) && in_mask(primary, cpu) && in_mask(smt, cpu)
}

/// What a pass takes out of the scan order.
pub open spec fn takes(
    p: TaskRef,
    prev: i32,
    primary: Option<CpuMask>,
    smt: Option<CpuMask>,
) -> spec_fn(i32) -> bool {
    |cpu: i32| cpu != prev && eligible(p, primary, smt, cpu)
}

/// The part of the scan order from `from` on that a pass tries.
pub open spec fn pass_tail(
    s: Cosmos,
    p: TaskRef,
    prev: i32,
    primary: Option<CpuMask>,
    smt: Option<CpuMask>,
    from: int,
) -> Seq<i32> {
    scan_order(s).skip(from).filter(takes(p, prev, primary, smt))
}

/// The CPUs that one pass tries: the previous CPU first, where it is allowed and
/// in the masks, then the others in scan order.
pub open spec fn pass_with_prev(
    s: Cosmos,
    p: TaskRef,
    prev: i32,
    is_prev_allowed: bool,
    primary: Option<CpuMask>,
    smt: Option<CpuMask>,
) -> Seq<i32> {
    let first = if is_prev_allowed && in_mask(primary, prev) && in_mask(smt, prev) {
        seq![prev]
    } else {
        seq![]
    };
    first + pass_tail(s, p, prev, primary, smt, 0)
}

/// The CPUs that one pass tries for a task.
pub open spec fn pass_cpus(
    s: Cosmos,
    p: TaskRef,
    prev: i32,
    primary: Option<CpuMask>,
    smt: Option<CpuMask>,
) -> Seq<i32> {
    pass_with_prev(s, p, prev, p.allows(prev), primary, smt)
}

/// The CPUs that a flat scan tries to claim, in order. A pinned task tries its
/// CPU alone. With early clearing off nothing is claimed.
pub open spec fn flat_candidates(
    s: Cosmos,
    p: TaskRef,
    prev: i32,
    smt: Option<CpuMask>,
) -> Seq<i32> {
    let nothing = Seq::<i32>::empty();
    let domain = s.topo.primary_mask;
    if s.cfg.no_early_clear {
        nothing
    } else if p.pinned() {
        seq![prev]
    } else {
        (if !s.cfg.primary_all && s.cfg.smt_enabled {
            pass_cpus(s, p, prev, domain, smt)
        } else {
            nothing
        }) + (if !s.cfg.primary_all {
            pass_cpus(s, p, prev, domain, None)
        } else {
            nothing
        }) + (if s.cfg.smt_enabled {
            pass_cpus(s, p, prev, None, smt)
        } else {
            nothing
        }) + pass_cpus(s, p, prev, None, None)
    }
}

spec fn pass_on(s: Cosmos, pass: int) -> bool {
    if pass == 0 {
        !s.cfg.primary_all && s.cfg.smt_enabled
    } else if pass == 1 {
        !s.cfg.primary_all
    } else if pass == 2 {
        s.cfg.smt_enabled
    } else {
        pass == 3
    }
}

spec fn pass_primary(s: Cosmos, pass: int) -> Option<CpuMask> {
    if pass <= 1 {
        s.topo.primary_mask
    } else {
        None
    }
}

spec fn pass_smt(smt: Option<CpuMask>, pass: int) -> Option<CpuMask> {
    if pass == 0 || pass == 2 {
        smt
    } else {
        None
    }
}

/// What the passes from `pass` on try.
spec fn passes_from(s: Cosmos, p: TaskRef, prev: i32, smt: Option<CpuMask>, pass: int) -> Seq<i32>
    decreases SCAN_PASSES - pass,
{
    if pass >= SCAN_PASSES {
        seq![]
    } else {
        (if pass_on(s, pass) {
            pass_cpus(s, p, prev, pass_primary(s, pass), pass_smt(smt, pass))
        } else {
            seq![]
        }) + passes_from(s, p, prev, smt, pass + 1)
    }
}

/// What a flat scan still tries from a place on.
pub closed spec fn upcoming(
    s: Cosmos,
    p: TaskRef,
    prev: i32,
    smt: Option<CpuMask>,
    at: Scan,
) -> Seq<i32> {
    let pass = at.pass as int;
    if pass >= SCAN_PASSES || at.pos == 0 || !pass_on(s, pass) {
        passes_from(s, p, prev, smt, pass)
    } else {
        pass_tail(s, p, prev, pass_primary(s, pass), pass_smt(smt, pass), at.pos - 1)
            + passes_from(s, p, prev, smt, pass + 1)
    }
}

/// `pick` asks for a CPU of a flat scan, and its place is within the scan. A
/// rotating scan keeps to the table.
pub open spec fn probes(s: Cosmos, prev: i32, pick: IdlePick) -> bool {
    pick matches IdlePick::Probe { cpu, rest } && (cpu == prev || s.cfg.preferred_idle_scan || 0
        <= cpu < MAX_CPUS) && rest.pos <= scan_len(s) + 1
}

/// A search that is about to try the CPUs of `pending`, in order, and finds no
/// CPU when they run out.
pub open spec fn scanning(
    s: Cosmos,
    p: TaskRef,
    prev: i32,
    smt: Option<CpuMask>,
    pick: IdlePick,
    pending: Seq<i32>,
) -> bool {
    match pick {
        IdlePick::Probe { cpu, rest } => probes(s, prev, pick) && pending == seq![cpu] + upcoming(
            s,
            p,
            prev,
            smt,
            rest,
        ),
        IdlePick::Picked(cpu) => cpu == -1 && pending.len() == 0,
        _ => false,
    }
}

impl Cosmos {
    /// The search is a flat scan of this scheduler's own.
    pub open spec fn scans(self, prev: i32) -> bool {
        (self.cfg.flat_idle_scan || self.cfg.preferred_idle_scan) && !self.busy(prev)
    }

    /// The search depends on which cores are idle as a whole.
    pub open spec fn scans_cores(self, prev: i32) -> bool {
        self.cfg.smt_enabled && self.scans(prev)
    }

    /// The CPU that the kernel's search starts from: the waker's, where it is
    /// faster than the previous one.
    pub open spec fn search_origin(self, prev: i32, this_cpu: i32, wake_flags: u64) -> i32 {
        if self.cfg.primary_all && wake_flags & SCX_WAKE_TTWU != 0 && this_cpu >= 0
            && self.faster(this_cpu, prev) {
            this_cpu
        } else {
            prev
        }
    }

    /// The wake flags that the kernel's search is given.
    pub open spec fn search_flags(self, wake_flags: u64) -> u64 {
        if self.cfg.no_wake_sync {
            wake_flags & !SCX_WAKE_SYNC
        } else {
            wake_flags
        }
    }

    /// The first step of the kernel's search.
    pub open spec fn search_start(self, prev: i32, this_cpu: i32, wake_flags: u64) -> IdlePick {
        let origin = self.search_origin(prev, this_cpu, wake_flags);
        let wake = self.search_flags(wake_flags);
        if !self.cfg.primary_all && self.topo.primary_mask is Some {
            IdlePick::SelectPrimary {
                prev: origin,
                wake_flags: wake,
                flags: if self.cfg.avoid_smt {
                    SCX_PICK_IDLE_CORE
                } else {
                    0
                },
            }
        } else {
            IdlePick::SelectAny { prev: origin, wake_flags: wake }
        }
    }

    /// `pick` is where the search for an idle CPU starts.
    pub open spec fn pick_starts(
        self,
        p: TaskRef,
        prev: i32,
        this_cpu: i32,
        wake_flags: u64,
        smt: Option<CpuMask>,
        pick: IdlePick,
    ) -> bool {
        if self.scans(prev) {
            scanning(self, p, prev, smt, pick, flat_candidates(self, p, prev, smt))
        } else {
            pick == self.search_start(prev, this_cpu, wake_flags)
        }
    }

    /// Where the next rotating scan starts after `cpu` was claimed.
    pub open spec fn scan_mark(self, prev: i32, cpu: i32) -> u32 {
        if self.cfg.preferred_idle_scan || cpu == prev {
            self.flat_last_cpu
        } else {
            (cpu + 1) as u32
        }
    }
}

pub proof fn lemma_tail_step(
    s: Cosmos,
    p: TaskRef,
    prev: i32,
    primary: Option<CpuMask>,
    smt: Option<CpuMask>,
    from: int,
)
    requires
        0 <= from < scan_len(s),
    ensures
        ({
            let cpu = scan_order(s)[from];
            let rest = pass_tail(s, p, prev, primary, smt, from + 1);
            pass_tail(s, p, prev, primary, smt, from) == (if cpu != prev && eligible(
                p,
                primary,
                smt,
                cpu,
            ) {
                seq![cpu] + rest
            } else {
                rest
            })
        }),
{
    let order = scan_order(s);
    let keep = takes(p, prev, primary, smt);
    let head = seq![order[from]];
    assert(order.skip(from) =~= head + order.skip(from + 1));
    Seq::filter_distributes_over_add(head, order.skip(from + 1), keep);
    reveal_with_fuel(Seq::filter, 2);
    assert(head.drop_last() =~= Seq::<i32>::empty());
    assert(head.filter(keep) =~= (if keep(order[from]) {
        head
    } else {
        Seq::<i32>::empty()
    }));
    assert(Seq::<i32>::empty() + order.skip(from + 1).filter(keep) =~= order.skip(from + 1).filter(
        keep,
    ));
}

proof fn lemma_tail_end(
    s: Cosmos,
    p: TaskRef,
    prev: i32,
    primary: Option<CpuMask>,
    smt: Option<CpuMask>,
)
    ensures
        pass_tail(s, p, prev, primary, smt, scan_len(s)) == Seq::<i32>::empty(),
{
    reveal_with_fuel(Seq::filter, 1);
    assert(scan_order(s).skip(scan_len(s)) =~= Seq::<i32>::empty());
}

fn scan_limit(s: &Cosmos) -> (r: usize)
    ensures
        r == scan_len(*s),
        r <= s.nr_cpu_ids,
        r <= MAX_CPUS,
        r == s.nr_cpu_ids || r == MAX_CPUS,
{
    if nr_cpu_ids(s) < MAX_CPUS as u64 {
        nr_cpu_ids(s) as usize
    } else {
        MAX_CPUS
    }
}

fn scan_entry(s: &Cosmos, i: usize) -> (r: i32)
    requires
        i < scan_len(*s),
    ensures
        r == scan_order(*s)[i as int],
        !s.cfg.preferred_idle_scan ==> 0 <= r < MAX_CPUS,
{
    if s.cfg.preferred_idle_scan {
        s.topo.preferred_cpus[i] as i32
    } else {
        let len: u64 = scan_limit(s) as u64;
        ((s.flat_last_cpu as u64 + i as u64) % len) as i32
    }
}

fn is_eligible(
    p: &TaskRef,
    primary: &Option<CpuMask>,
    smt: &Option<CpuMask>,
    cpu: i32,
) -> (r: bool)
    ensures
        r == eligible(*p, *primary, *smt, cpu),
{
    p.cpu_allowed(cpu) && mask_allows(primary, cpu) && mask_allows(smt, cpu)
}

/// The next CPU that one pass tries, from entry `pos - 1` of the scan order on
/// or, at 0, from the previous CPU on, if that is allowed; and the place after
/// it.
pub fn pick_idle_cpu_pref_smt(
    s: &Cosmos,
    p: &TaskRef,
    prev_cpu: i32,
    is_prev_allowed: bool,
    primary: &Option<CpuMask>,
    smt: &Option<CpuMask>,
    pos: usize,
) -> (r: Option<(i32, usize)>)
    requires
        pos <= scan_len(*s) + 1,
    ensures
        ({
            let all = if pos == 0 {
                pass_with_prev(*s, *p, prev_cpu, is_prev_allowed, *primary, *smt)
            } else {
                pass_tail(*s, *p, prev_cpu, *primary, *smt, pos - 1)
            };
            match r {
                Some((cpu, next)) => {
                    &&& 0 < next <= scan_len(*s) + 1
                    &&& cpu == prev_cpu || s.cfg.preferred_idle_scan || 0 <= cpu < MAX_CPUS
                    &&& all == seq![cpu] + pass_tail(
                        *s,
                        *p,
                        prev_cpu,
                        *primary,
                        *smt,
                        next - 1,
                    )
                },
                None => all.len() == 0,
            }
        }),
{
    if pos == 0 && is_prev_allowed && mask_allows(primary, prev_cpu) && mask_allows(
        smt,
        prev_cpu,
    ) {
        return Some((prev_cpu, 1));
    }
    let ghost all = pass_tail(
        *s,
        *p,
        prev_cpu,
        *primary,
        *smt,
        if pos == 0 {
            0
        } else {
            pos - 1
        },
    );
    assert(pos == 0 ==> pass_with_prev(*s, *p, prev_cpu, is_prev_allowed, *primary, *smt) =~= all);
    let max_cpus: usize = scan_limit(s);
    let mut i: usize = if pos == 0 {
        0
    } else {
        pos - 1
    };
    while i < max_cpus
        invariant
            max_cpus == scan_len(*s),
            max_cpus <= MAX_CPUS,
            i <= max_cpus,
            all == pass_tail(*s, *p, prev_cpu, *primary, *smt, i as int),
            pos == 0 ==> pass_with_prev(*s, *p, prev_cpu, is_prev_allowed, *primary, *smt) == all,
            pos > 0 ==> pass_tail(*s, *p, prev_cpu, *primary, *smt, pos - 1) == all,
        decreases max_cpus - i,
    {
        let cpu: i32 = scan_entry(s, i);
        proof {
            lemma_tail_step(*s, *p, prev_cpu, *primary, *smt, i as int);
        }
        if cpu != prev_cpu && is_eligible(p, primary, smt, cpu) {
            return Some((cpu, i + 2));
        }
        i = i + 1;
    }
    proof {
        lemma_tail_end(*s, *p, prev_cpu, *primary, *smt);
    }
    None
}

/// The step that tries the next CPU of a flat scan.
fn next_probe(s: &Cosmos, p: &TaskRef, prev_cpu: i32, smt: &Option<CpuMask>, from: Scan) -> (r:
    IdlePick)
    requires
        from.pos <= scan_len(*s) + 1,
    ensures
        scanning(*s, *p, prev_cpu, *smt, r, upcoming(*s, *p, prev_cpu, *smt, from)),
{
    let ghost all = upcoming(*s, *p, prev_cpu, *smt, from);
    let is_prev_allowed: bool = p.cpu_allowed(prev_cpu);
    let mut at: Scan = from;
    while at.pass < SCAN_PASSES
        invariant
            is_prev_allowed == p.allows(prev_cpu),
            all == upcoming(*s, *p, prev_cpu, *smt, from),
            all == upcoming(*s, *p, prev_cpu, *smt, at),
            at.pos <= scan_len(*s) + 1,
        decreases SCAN_PASSES - at.pass,
    {
        let pass: u8 = at.pass;
        let on: bool = if pass == 0 {
            !s.cfg.primary_all && s.cfg.smt_enabled
        } else if pass == 1 {
            !s.cfg.primary_all
        } else if pass == 2 {
            s.cfg.smt_enabled
        } else {
            true
        };
        let any: Option<CpuMask> = None;
        let primary: &Option<CpuMask> = if pass <= 1 {
            &s.topo.primary_mask
        } else {
            &any
        };
        let core: &Option<CpuMask> = if pass == 0 || pass == 2 {
            smt
        } else {
            &any
        };
        let ghost later = passes_from(*s, *p, prev_cpu, *smt, pass + 1);
        assert(on == pass_on(*s, pass as int));
        assert(*primary == pass_primary(*s, pass as int));
        assert(*core == pass_smt(*smt, pass as int));
        if on {
            if let Some((cpu, next)) = pick_idle_cpu_pref_smt(
                s,
                p,
                prev_cpu,
                is_prev_allowed,
                primary,
                core,
                at.pos,
            ) {
                let rest: Scan = Scan { pass, pos: next };
                proof {
                    let tail = pass_tail(*s, *p, prev_cpu, *primary, *core, next - 1);
                    assert(seq![cpu] + tail + later =~= seq![cpu] + (tail + later));
                }
                return IdlePick::Probe { cpu, rest };
            }
        }
        assert(all =~= later);
        at = Scan { pass: pass + 1, pos: 0 };
    }
    IdlePick::Picked(-1)
}

/// Starts a flat scan.
pub fn pick_idle_cpu_flat(
    s: &Cosmos,
    p: &TaskRef,
    prev_cpu: i32,
    smt: &Option<CpuMask>,
) -> (r: IdlePick)
    ensures
        scanning(*s, *p, prev_cpu, *smt, r, flat_candidates(*s, *p, prev_cpu, *smt)),
{
    if s.cfg.no_early_clear {
        return IdlePick::Picked(-1);
    }
    if p.is_pcpu() {
        proof {
            reveal_with_fuel(passes_from, 1);
            assert(seq![prev_cpu] + Seq::<i32>::empty() =~= seq![prev_cpu]);
        }
        return IdlePick::Probe { cpu: prev_cpu, rest: Scan { pass: SCAN_PASSES, pos: 0 } };
    }
    proof {
        reveal_with_fuel(passes_from, 5);
        assert(passes_from(*s, *p, prev_cpu, *smt, 0) =~= flat_candidates(*s, *p, prev_cpu, *smt));
    }
    next_probe(s, p, prev_cpu, smt, Scan { pass: 0, pos: 0 })
}

/// Whether the search from `prev_cpu` reads the CPUs whose core is idle as a
/// whole.
pub fn needs_idle_cores(s: &Cosmos, prev_cpu: i32) -> (r: bool)
    ensures
        r == s.scans_cores(prev_cpu),
{
    s.cfg.smt_enabled && (s.cfg.flat_idle_scan || s.cfg.preferred_idle_scan) && !is_cpu_busy(
        s,
        prev_cpu,
    )
}

/// Starts the search for an idle CPU for `p`, which last ran on `prev_cpu`.
/// `this_cpu` is the CPU of the waker, where the task may run there, and `smt`
/// the set of CPUs whose core is idle as a whole, where it is known.
pub fn pick_idle_cpu(
    s: &Cosmos,
    p: &TaskRef,
    prev_cpu: i32,
    this_cpu: i32,
    wake_flags: u64,
    smt: &Option<CpuMask>,
) -> (r: IdlePick)
    ensures
        s.pick_starts(*p, prev_cpu, this_cpu, wake_flags, *smt, r),
{
    if (s.cfg.flat_idle_scan || s.cfg.preferred_idle_scan) && !is_cpu_busy(s, prev_cpu) {
        return pick_idle_cpu_flat(s, p, prev_cpu, smt);
    }
    let mut wake: u64 = wake_flags;
    if s.cfg.no_wake_sync {
        wake = wake & !SCX_WAKE_SYNC;
    }
    let mut prev: i32 = prev_cpu;
    if s.cfg.primary_all && is_wakeup(wake_flags) && this_cpu >= 0 && is_cpu_faster(
        s,
        this_cpu,
        prev,
    ) {
        // A waker that shares the cache of an idle previous CPU would leave the
        // task there. A faster CPU is never known to share it.
        let share_cache: bool = cpus_share_cache(this_cpu, prev);
        assert(!share_cache);
        prev = this_cpu;
    }
    if !s.cfg.primary_all && s.topo.primary_mask.is_some() {
        let flags: u64 = if s.cfg.avoid_smt {
            SCX_PICK_IDLE_CORE
        } else {
            0
        };
        return IdlePick::SelectPrimary { prev, wake_flags: wake, flags };
    }
    IdlePick::SelectAny { prev, wake_flags: wake }
}

/// Goes on after the kernel was asked for the idle state of a CPU.
pub fn idle_probed(
    s: &mut Cosmos,
    p: &TaskRef,
    prev_cpu: i32,
    smt: &Option<CpuMask>,
    pick: IdlePick,
    claimed: bool,
) -> (r: IdlePick)
    requires
        probes(*old(s), prev_cpu, pick),
    ensures
        pick matches IdlePick::Probe { cpu, rest } && (if claimed && !old(s).cfg.no_early_clear {
            r == IdlePick::Picked(cpu) && *final(s) == (Cosmos {
                flat_last_cpu: old(s).scan_mark(prev_cpu, cpu),
                ..*old(s)
            })
        } else {
            scanning(*old(s), *p, prev_cpu, *smt, r, upcoming(*old(s), *p, prev_cpu, *smt, rest))
                && *final(s) == *old(s)
        }),
{
    if let IdlePick::Probe { cpu, rest } = pick {
        if test_cpu_idle(s, cpu, claimed) {
            if !s.cfg.preferred_idle_scan && cpu != prev_cpu {
                s.flat_last_cpu = (cpu + 1) as u32;
            }
            return IdlePick::Picked(cpu);
        }
        return next_probe(s, p, prev_cpu, smt, rest);
    }
    pick
}

/// Goes on after the kernel searched for an idle CPU and answered `found`, which
/// is negative where it found none.
pub fn idle_selected(pick: IdlePick, found: i32) -> (r: IdlePick)
    requires
        pick is SelectPrimary || pick is SelectAny,
    ensures
        r == (match pick {
            IdlePick::SelectPrimary { prev, wake_flags, flags } => if found >= 0 {
                IdlePick::Picked(found)
            } else {
                IdlePick::SelectAny { prev, wake_flags }
            },
            _ => IdlePick::Picked(found),
        }),
{
    match pick {
        IdlePick::SelectPrimary { prev, wake_flags, flags: _ } => if found >= 0 {
            IdlePick::Picked(found)
        } else {
            IdlePick::SelectAny { prev, wake_flags }
        },
        _ => IdlePick::Picked(found),
    }
}

} // verus!
