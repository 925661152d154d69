use kv_bench::report::speedup_per_mille;
use kv_bench::timer::Timer;

#[test]
fn speedup_is_a_per_mille_ratio() {
    assert_eq!(speedup_per_mille(2000, 1000), Some(2000));
    assert_eq!(speedup_per_mille(1000, 2000), Some(500));
    assert_eq!(speedup_per_mille(1, 3), Some(333));
    assert_eq!(speedup_per_mille(0, 5), Some(0));
}

#[test]
fn speedup_with_zero_denominator_is_undefined_not_a_crash() {
    assert_eq!(speedup_per_mille(1234, 0), None);
}

#[test]
fn timer_measures_nondecreasing_nanos() {
    let t = Timer::start();
    let a = t.elapsed_nanos();
    let b = t.elapsed_nanos();
    assert!(b >= a);
}
