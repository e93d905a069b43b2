use rpi_kernel::time::{
    batch_modify_time, counter_to_duration, max_duration, percent_difference, percent_faster,
    resolution, resolution_nanos, spin_for_target, spin_plan, try_from_duration, uptime_nanos,
    DurationParts, GenericTimerCounterValue, SpinPlan,
};

const FREQ: u32 = 62_500_000;

#[test]
fn counter_values_convert_to_durations() {
    let d = counter_to_duration(GenericTimerCounterValue(2 * 62_500_000 + 31_250_000), FREQ);
    assert!(d == DurationParts { secs: 2, nanos: 500_000_000 });
    let zero = counter_to_duration(GenericTimerCounterValue(0), FREQ);
    assert!(zero == DurationParts { secs: 0, nanos: 0 });
    let one_hz = counter_to_duration(GenericTimerCounterValue(7), 1);
    assert!(one_hz == DurationParts { secs: 7, nanos: 0 });
}

#[test]
fn resolution_and_maximum() {
    assert!(resolution(FREQ) == DurationParts { secs: 0, nanos: 16 });
    assert!(max_duration(FREQ) == DurationParts { secs: 295_147_905_179, nanos: 352_825_840 });
    assert_eq!(resolution_nanos(62_500_000), 16);
    assert_eq!(uptime_nanos(62_500_000, 62_500_000), 1_000_000_000);
    assert_eq!(uptime_nanos(3, 62_500_000), 48);
}

#[test]
fn durations_convert_to_counter_values() {
    let one_sec = DurationParts { secs: 1, nanos: 0 };
    assert!(try_from_duration(one_sec, FREQ) == Ok(GenericTimerCounterValue(62_500_000)));
    let tiny = DurationParts { secs: 0, nanos: 10 };
    assert!(try_from_duration(tiny, FREQ) == Ok(GenericTimerCounterValue(0)));
    let exact_tick = DurationParts { secs: 0, nanos: 16 };
    assert!(try_from_duration(exact_tick, FREQ) == Ok(GenericTimerCounterValue(1)));
    let huge = DurationParts { secs: u64::MAX, nanos: 0 };
    assert!(try_from_duration(huge, FREQ) == Err("Conversion error. Duration too big"));
    let max = max_duration(FREQ);
    assert!(try_from_duration(max, FREQ).is_ok());
}

#[test]
fn round_trip_never_gains_ticks() {
    for counter in [0u64, 1, 2, 15, 62_499_999, 62_500_001, 1 << 40, u64::MAX] {
        let d = counter_to_duration(GenericTimerCounterValue(counter), FREQ);
        match try_from_duration(d, FREQ) {
            Ok(v) => assert!(v.0 <= counter),
            Err(e) => panic!("round trip failed: {}", e),
        }
    }
}

#[test]
fn counter_values_wrap() {
    let sum = GenericTimerCounterValue(u64::MAX) + GenericTimerCounterValue(2);
    assert!(sum == GenericTimerCounterValue(1));
    assert!(GenericTimerCounterValue::max() == GenericTimerCounterValue(u64::MAX));
    assert_eq!(DurationParts { secs: 2, nanos: 5 }.as_nanos(), 2_000_000_005);
}

#[test]
fn spin_targets() {
    let one_sec = DurationParts { secs: 1, nanos: 0 };
    assert!(
        spin_for_target(GenericTimerCounterValue(100), one_sec, FREQ)
            == Ok(GenericTimerCounterValue(62_500_100))
    );
    assert!(
        spin_for_target(GenericTimerCounterValue(u64::MAX), one_sec, FREQ)
            == Ok(GenericTimerCounterValue(62_499_999))
    );
    let huge = DurationParts { secs: u64::MAX, nanos: 999_999_999 };
    assert!(
        spin_for_target(GenericTimerCounterValue(0), huge, FREQ)
            == Err("Conversion error. Duration too big")
    );
}

#[test]
fn spin_plans() {
    assert!(spin_plan(62_500_000, 0) == SpinPlan::Immediate);
    assert!(spin_plan(62_500_000, 1_000_000_000) == SpinPlan::Wait(62_500_000));
    assert!(spin_plan(62_500_000, 10) == SpinPlan::Smaller);
    assert!(spin_plan(62_500_000, 100_000_000_000) == SpinPlan::Bigger);
    assert!(spin_plan(1_000_000_000, 100_000_000_000) == SpinPlan::TooLong);
}

#[test]
fn benchmark_arithmetic() {
    assert_eq!(batch_modify_time(100, 62_500_100, 62_500_000), Some(1000));
    assert_eq!(batch_modify_time(100, 200, 0), None);
    assert_eq!(percent_faster(300, 100), Some(200));
    assert_eq!(percent_faster(350, 100), Some(200));
    assert_eq!(percent_faster(100, 0), None);
    assert_eq!(percent_difference(150, 100), 50);
    assert_eq!(percent_difference(100, 100), 0);
}
