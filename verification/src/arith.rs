//! Wrapping clock comparisons and moving averages.
use crate::defs::{NSEC_PER_MSEC, SCX_WAKE_TTWU};
use vstd::prelude::*;

verus! {

/// How far `a` lies ahead of `b` on the wrapping 64-bit clock.
pub open spec fn clock_distance(a: u64, b: u64) -> int {
    (a - b) % 0x1_0000_0000_0000_0000
}

/// `a` lies behind `b`: going back from `b` to `a` is the shorter way round
/// the clock.
pub open spec fn clock_before(a: u64, b: u64) -> bool {
    clock_distance(a, b) >= 0x8000_0000_0000_0000
}

/// Three quarters of `avg` and one quarter of `sample`, each quarter rounded down.
pub open spec fn average(avg: u64, sample: u64) -> int {
    avg - avg / 4 + sample / 4
}

/// Events per 100 ms after one more event, `interval` nanoseconds after the last.
pub open spec fn next_freq(freq: u64, interval: u64) -> int {
    if interval == 0 {
        freq as int
    } else {
        average(freq, (100 * NSEC_PER_MSEC / interval as int) as u64)
    }
}

/// Whether `a` lies behind `b` on the wrapping clock.
pub fn time_before(a: u64, b: u64) -> (r: bool)
    ensures
        r == clock_before(a, b),
{
    let x: i64 = a as i64;
    let y: i64 = b as i64;
    proof {
        assert(x == (if a < 0x8000_0000_0000_0000 {
            a as int
        } else {
            a - 0x1_0000_0000_0000_0000
        })) by (bit_vector)
            requires
                x == a as i64,
        ;
        assert(y == (if b < 0x8000_0000_0000_0000 {
            b as int
        } else {
            b - 0x1_0000_0000_0000_0000
        })) by (bit_vector)
            requires
                y == b as i64,
        ;
    }
    x.wrapping_sub(y) < 0
}

/// How far `a` lies ahead of `b` on the wrapping clock.
pub fn time_delta(a: u64, b: u64) -> (r: u64)
    ensures
        r == clock_distance(a, b),
{
    a.wrapping_sub(b)
}

/// Whether the flags are those of a wakeup.
pub fn is_wakeup(wake_flags: u64) -> (r: bool)
    ensures
        r == (wake_flags & SCX_WAKE_TTWU != 0),
{
    wake_flags & SCX_WAKE_TTWU != 0
}

/// One step of the moving average.
pub fn calc_avg(avg: u64, sample: u64) -> (r: u64)
    ensures
        r == average(avg, sample),
{
    assert(avg >> 2 == avg / 4) by (bit_vector);
    assert(sample >> 2 == sample / 4) by (bit_vector);
    (avg - (avg >> 2)) + (sample >> 2)
}

/// One step of an event frequency.
pub fn update_freq(freq: u64, interval: u64) -> (r: u64)
    ensures
        r == next_freq(freq, interval),
{
    if interval == 0 {
        return freq;
    }
    proof {
        assert(100 * NSEC_PER_MSEC / interval as int <= 100 * NSEC_PER_MSEC) by (nonlinear_arith)
            requires
                interval > 0,
        ;
        assert(0 <= 100 * NSEC_PER_MSEC / interval as int) by (nonlinear_arith)
            requires
                interval > 0,
        ;
    }
    calc_avg(freq, (100 * NSEC_PER_MSEC) / interval)
}

/// Of two distinct times that are not exactly half the clock apart, one lies
/// behind the other and not the other way round. No time lies behind itself.
pub proof fn law_clock_order(a: u64, b: u64)
    ensures
        !clock_before(a, a),
        a != b && clock_distance(a, b) != 0x8000_0000_0000_0000 ==> (clock_before(a, b)
            <==> !clock_before(b, a)),
{
}

/// A time lies behind every later time that is at most half the clock away,
/// also where the clock wraps in between.
pub proof fn law_clock_advances(a: u64, b: u64, step: u64)
    requires
        0 < step <= 0x8000_0000_0000_0000,
        b == (a + step) % 0x1_0000_0000_0000_0000,
    ensures
        clock_before(a, b),
        clock_distance(b, a) == step,
{
}

/// The average stays between its last value and the new sample, is the sample
/// itself when both agree, and never falls when either of them rises.
pub proof fn law_average_between(avg: u64, sample: u64)
    ensures
        avg <= sample ==> avg <= average(avg, sample) <= sample,
        sample <= avg ==> sample <= average(avg, sample) <= avg,
        average(avg, avg) == avg,
        forall|a: u64, b: u64|
            avg <= a && sample <= b ==> average(avg, sample) <= #[trigger] average(a, b),
{
}

/// The distance is the difference, taken once round the clock where it is
/// negative. A time lies behind another exactly if it is different from it and
/// the way forward to the other is at most half the clock.
pub proof fn law_clock_is_difference(a: u64, b: u64)
    ensures
        clock_distance(a, b) == (if a >= b {
            a - b
        } else {
            a - b + 0x1_0000_0000_0000_0000
        }),
        clock_before(a, b) <==> (a < b && b - a <= 0x8000_0000_0000_0000) || (a > b && a - b
            >= 0x8000_0000_0000_0000),
{
}

/// Four times the average is three times its last value and once the sample, up
/// to the remainders that rounding drops.
pub proof fn law_average_weighs_quarters(avg: u64, sample: u64)
    ensures
        4 * average(avg, sample) == 3 * avg + sample + avg % 4 - sample % 4,
{
}

/// A frequency moves a quarter of the way to the number of intervals that fit
/// into 100 ms, and stays where it is when no time has passed.
pub proof fn law_frequency_follows_interval(freq: u64, interval: u64, fitting: int)
    requires
        interval > 0 ==> fitting * interval <= 100_000_000 < (fitting + 1) * interval,
    ensures
        interval == 0 ==> next_freq(freq, interval) == freq,
        interval > 0 ==> 4 * next_freq(freq, interval) == 3 * freq + fitting + freq % 4 - fitting
            % 4,
{
    if interval > 0 {
        let n = interval as int;
        assert(100_000_000int / n == fitting) by (nonlinear_arith)
            requires
                n > 0,
                fitting * n <= 100_000_000 < (fitting + 1) * n,
        ;
        assert(0 <= 100_000_000int / n <= 100_000_000) by (nonlinear_arith)
            requires
                n > 0,
        ;
    }
}

} // verus!
