use handy_firmware::idle::{
    calculate_elapsed_dwt_ticks, IdleMeasurement, IdleMeter, TIME_LIMIT, USECOND,
};

#[test]
fn elapsed_ticks_without_wrap() {
    let mut start = 1_000;
    assert_eq!(calculate_elapsed_dwt_ticks(5_000, &mut start), 4_000);
    assert_eq!(start, 1_000);
}

#[test]
fn elapsed_ticks_of_equal_readings() {
    let mut start = 77;
    assert_eq!(calculate_elapsed_dwt_ticks(77, &mut start), 0);
    let mut start = u32::MAX;
    assert_eq!(calculate_elapsed_dwt_ticks(u32::MAX, &mut start), 0);
}

#[test]
fn elapsed_ticks_across_a_wrap() {
    let mut start = u32::MAX - 10;
    assert_eq!(calculate_elapsed_dwt_ticks(5, &mut start), 15);
    let mut start = u32::MAX;
    assert_eq!(calculate_elapsed_dwt_ticks(0, &mut start), 0);
    let mut start = 1;
    assert_eq!(calculate_elapsed_dwt_ticks(0, &mut start), u32::MAX - 1);
}

#[test]
fn idle_constants() {
    assert_eq!(USECOND, 480);
    assert_eq!(TIME_LIMIT, 4_800_000);
}

#[test]
fn idle_meter_is_due_after_ten_thousand_rounds() {
    let mut meter = IdleMeter::new(100);
    for _ in 0..9_999 {
        assert!(!meter.idled());
    }
    assert!(meter.idled());
    let measurement = meter.measure(6_000_100);
    assert_eq!(measurement, IdleMeasurement { idling: 4_800_000, elapsed: 6_000_000 });
    assert_eq!(meter.measure(6_000_100), measurement);
}

#[test]
fn idle_meter_gathers_nothing_more_once_due() {
    let mut meter = IdleMeter::new(0);
    for _ in 0..10_000 {
        meter.idled();
    }
    assert!(meter.idled());
    assert!(meter.idled());
    assert_eq!(meter.measure(TIME_LIMIT).idling, TIME_LIMIT);
}

#[test]
fn idle_meter_starts_over_after_a_measurement() {
    let mut meter = IdleMeter::new(u32::MAX - 5);
    for _ in 0..10_000 {
        meter.idled();
    }
    let first = meter.measure(4);
    assert_eq!(first.elapsed, 9);
    meter.restart(50);
    assert!(!meter.idled());
    let second = meter.measure(60);
    assert_eq!(second, IdleMeasurement { idling: 480, elapsed: 10 });
}
