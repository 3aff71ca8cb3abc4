//! Limits, queue ids and flag bits shared by the schedulers.
use vstd::prelude::*;

verus! {

/// CPUs that the per-CPU tables have room for.
pub const MAX_CPUS: usize = 1024;

/// NUMA nodes that the per-node tables have room for.
pub const MAX_NODES: usize = 1024;

/// Dispatch queue that every CPU consumes from.
pub const SHARED_DSQ: u64 = 0;

/// Dispatch queue of the CPU that a task is being placed on.
pub const SCX_DSQ_LOCAL: u64 = 0xffff_ffff_ffff_ffff;

/// Base of the ids that name the local queue of a given CPU.
pub const SCX_DSQ_LOCAL_ON: u64 = 0xffff_ffff_ffff_fffe;

/// Full performance level and full capacity of a CPU.
pub const SCX_CPUPERF_ONE: u64 = 1024;

/// Load at or below which a CPU is asked for half of its performance.
pub const CPUFREQ_LOW_THRESH: u64 = SCX_CPUPERF_ONE / 4;

/// Load at or above which a CPU is asked for its full performance.
pub const CPUFREQ_HIGH_THRESH: u64 = SCX_CPUPERF_ONE - SCX_CPUPERF_ONE / 4;

pub const NSEC_PER_MSEC: u64 = 1_000_000;

/// Largest wakeup frequency that a task is credited with.
pub const MAX_WAKEUP_FREQ: u64 = 1024;

pub const SCX_TASK_QUEUED: u32 = 1;

pub const SCX_WAKE_TTWU: u64 = 1;

pub const SCX_WAKE_SYNC: u64 = 2;

pub const SCX_KICK_IDLE: u64 = 1;

pub const SCX_PICK_IDLE_CORE: u64 = 1;

pub const PF_IDLE: u32 = 0x0000_0002;

pub const PF_EXITING: u32 = 0x0000_0004;

/// A task handed to a dispatch queue.
#[derive(Clone, Copy, Debug, PartialEq, Eq, Structural)]
pub enum Insert {
    /// Appended to the queue.
    Fifo { dsq: u64, slice: u64, enq_flags: u64 },
    /// Placed in the queue by virtual time.
    Vtime { dsq: u64, slice: u64, vtime: u64, enq_flags: u64 },
}

/// Copies a scheduler's name into the fixed, zero-filled field that the kernel
/// reads it from. The last byte always stays zero, so a longer name is cut.
pub fn pad_name<const N: usize>(s: &[u8; N]) -> (buf: [u8; 128])
    ensures
        forall|i: int|
            0 <= i < 128 ==> #[trigger] buf@[i] == (if i < N && i < 127 {
                s@[i]
            } else {
                0
            }),
{
    let mut buf: [u8; 128] = [0u8;128];
    let mut i: usize = 0;
    while i < N && i < 127
        invariant
            i <= N,
            i <= 127,
            forall|j: int|
                0 <= j < 128 ==> #[trigger] buf@[j] == (if j < i {
                    s@[j]
                } else {
                    0
                }),
        decreases N - i,
    {
        buf[i] = s[i];
        i = i + 1;
    }
    buf
}

} // verus!
