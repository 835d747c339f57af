use obot::cycle_counter::{CycleCounter, ManualCycleCounter};

#[test]
fn manual_counter_reports_and_advances_time() {
    let mut counter = ManualCycleCounter::new(10);

    assert_eq!(counter.now(), 10);
    counter.advance(5);
    assert_eq!(counter.now(), 15);
    counter.set(42);
    assert_eq!(counter.now(), 42);
}

#[test]
fn manual_counter_wraps_like_the_dwt_counter() {
    let mut counter = ManualCycleCounter::new(u32::MAX - 1);

    counter.advance(3);

    assert_eq!(counter.now(), 1);
}
