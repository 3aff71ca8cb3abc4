use scx_sched::arith::{calc_avg, is_wakeup, time_before, time_delta, update_freq};
use scx_sched::cpumask::CpuMask;
use scx_sched::defs::{
    pad_name, CPUFREQ_HIGH_THRESH, CPUFREQ_LOW_THRESH, SCX_DSQ_LOCAL, SCX_DSQ_LOCAL_ON,
    SCX_WAKE_SYNC, SCX_WAKE_TTWU,
};

#[test]
fn thresholds_and_queue_ids() {
    assert_eq!(CPUFREQ_LOW_THRESH, 256);
    assert_eq!(CPUFREQ_HIGH_THRESH, 768);
    assert_eq!(SCX_DSQ_LOCAL, u64::MAX);
    assert_eq!(SCX_DSQ_LOCAL_ON, u64::MAX - 1);
}

#[test]
fn time_order_survives_wrapping() {
    assert!(time_before(1, 2));
    assert!(!time_before(2, 1));
    assert!(!time_before(5, 5));
    assert!(time_before(u64::MAX, 0));
    assert!(time_before(u64::MAX - 10, 20));
    assert!(!time_before(20, u64::MAX - 10));
}

#[test]
fn times_half_the_clock_apart_lie_behind_each_other() {
    assert!(time_before(0, 1 << 63));
    assert!(time_before(1 << 63, 0));
}

#[test]
fn time_delta_wraps() {
    assert_eq!(time_delta(10, 3), 7);
    assert_eq!(time_delta(3, 10), u64::MAX - 6);
    assert_eq!(time_delta(0, u64::MAX), 1);
}

#[test]
fn wakeup_flag() {
    assert!(is_wakeup(SCX_WAKE_TTWU));
    assert!(is_wakeup(SCX_WAKE_TTWU | SCX_WAKE_SYNC));
    assert!(!is_wakeup(SCX_WAKE_SYNC));
    assert!(!is_wakeup(0));
}

#[test]
fn average_takes_a_quarter_of_the_sample() {
    assert_eq!(calc_avg(100, 200), 125);
    assert_eq!(calc_avg(0, 1024), 256);
    assert_eq!(calc_avg(1024, 0), 768);
    assert_eq!(calc_avg(7, 7), 7);
    assert_eq!(calc_avg(3, 3), 3);
    assert_eq!(calc_avg(u64::MAX, u64::MAX), u64::MAX);
}

#[test]
fn average_stays_between_its_inputs() {
    for &(avg, sample) in &[(10u64, 90u64), (90, 10), (0, 3), (1, 1000), (1024, 1023)] {
        let r = calc_avg(avg, sample);
        assert!(avg.min(sample) <= r && r <= avg.max(sample));
    }
}

#[test]
fn frequency_counts_events_per_100_ms() {
    // Every 10 ms is ten times in 100 ms; a quarter of ten is two.
    assert_eq!(update_freq(0, 10_000_000), 2);
    assert_eq!(update_freq(100, 1_000_000), 100);
    assert_eq!(update_freq(100, 1_000_000_000), 75);
    assert_eq!(update_freq(42, 0), 42);
    assert_eq!(update_freq(0, 1), 25_000_000);
}

#[test]
fn name_is_padded_with_zeros() {
    let name = pad_name(b"cosmos");
    assert_eq!(&name[..6], b"cosmos");
    assert!(name[6..].iter().all(|&b| b == 0));
}

#[test]
fn long_name_is_cut_before_the_last_byte() {
    let name = pad_name(&[b'x'; 200]);
    assert!(name[..127].iter().all(|&b| b == b'x'));
    assert_eq!(name[127], 0);
    let name = pad_name(&[b'y'; 128]);
    assert_eq!(name[126], b'y');
    assert_eq!(name[127], 0);
}

#[test]
fn empty_name_is_all_zeros() {
    let name = pad_name(b"");
    assert!(name.iter().all(|&b| b == 0));
}

#[test]
fn mask_holds_what_was_set() {
    let mut mask = CpuMask::empty();
    for &cpu in &[0, 63, 64, 1023] {
        assert!(!mask.test_cpu(cpu));
        mask.set_cpu(cpu);
        assert!(mask.test_cpu(cpu));
    }
    assert!(!mask.test_cpu(1));
    assert!(!mask.test_cpu(65));
    assert!(!mask.test_cpu(1022));
}

#[test]
fn mask_has_no_negative_cpu() {
    let mut mask = CpuMask::empty();
    mask.set_cpu(-1);
    mask.set_cpu(i32::MIN);
    assert!(!mask.test_cpu(-1));
    assert!(!mask.test_cpu(i32::MIN));
    assert!(!mask.test_cpu(0));
    assert!(!mask.intersects(&mask));
}

#[test]
fn mask_holds_large_cpu_numbers() {
    let mut mask = CpuMask::empty();
    for &cpu in &[1024, 1100, 8191, 100_000] {
        assert!(!mask.test_cpu(cpu));
        mask.set_cpu(cpu);
        assert!(mask.test_cpu(cpu));
    }
    assert!(!mask.test_cpu(1101));
    assert!(!mask.test_cpu(i32::MAX));
    let mut small = CpuMask::empty();
    small.set_cpu(3);
    assert!(!mask.intersects(&small));
    assert!(!small.intersects(&mask));
    small.set_cpu(8191);
    assert!(mask.intersects(&small));
    assert!(small.intersects(&mask));
    assert!(mask.holds_other_than(1100));
}

#[test]
fn mask_holds_others_than_a_cpu() {
    let mut m = CpuMask::empty();
    assert!(!m.holds_other_than(3));
    m.set_cpu(3);
    assert!(!m.holds_other_than(3));
    assert!(m.holds_other_than(4));
    assert!(m.holds_other_than(-1));
    m.set_cpu(1023);
    assert!(m.holds_other_than(3));
}

#[test]
fn time_lies_behind_one_half_the_clock_later() {
    assert!(time_before(5, 5 + (1 << 63)));
    assert!(!time_before(5, 6 + (1 << 63)));
}

#[test]
fn masks_intersect_on_a_common_cpu() {
    let mut a = CpuMask::empty();
    let mut b = CpuMask::empty();
    a.set_cpu(3);
    a.set_cpu(700);
    b.set_cpu(4);
    assert!(!a.intersects(&b));
    b.set_cpu(700);
    assert!(a.intersects(&b));
    assert!(b.intersects(&a));
}
