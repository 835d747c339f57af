use obot::timing::{deadline_reached, LoopPoll, LoopScheduler, LoopTiming, PeriodicTask};

#[test]
fn derives_g474_periods_from_rates() {
    assert_eq!(
        LoopTiming::from_rates(170_000_000, 50_000, 10_000),
        Some(LoopTiming::obot_g474())
    );
}

#[test]
fn rejects_zero_rates() {
    assert_eq!(LoopTiming::from_rates(170_000_000, 0, 10_000), None);
    assert_eq!(LoopTiming::from_rates(170_000_000, 50_000, 0), None);
    assert_eq!(LoopTiming::from_rates(0, 50_000, 10_000), None);
}

#[test]
fn rejects_fractional_cycle_periods() {
    assert_eq!(LoopTiming::from_rates(170_000_000, 60_000, 10_000), None);
    assert_eq!(LoopTiming::from_rates(170_000_000, 50_000, 12_000), None);
}

#[test]
fn zero_period_task_never_fires() {
    let mut task = PeriodicTask::start(0, 0);

    assert!(!task.poll(u32::MAX));
    assert_eq!(task.next_deadline(), 0);
}

#[test]
fn periodic_task_fires_on_deadline() {
    let mut task = PeriodicTask::start(0, 3_400);

    assert!(!task.poll(3_399));
    assert_eq!(task.next_deadline(), 3_400);
    assert!(task.poll(3_400));
    assert_eq!(task.next_deadline(), 6_800);
}

#[test]
fn periodic_task_skips_missed_periods() {
    let mut task = PeriodicTask::start(0, 3_400);

    assert!(task.poll(17_000));
    assert_eq!(task.next_deadline(), 20_400);
}

#[test]
fn periodic_task_handles_counter_wrap() {
    let mut task = PeriodicTask::start(u32::MAX - 9, 20);

    assert!(!task.poll(u32::MAX));
    assert!(task.poll(10));
    assert_eq!(task.next_deadline(), 30);
}

#[test]
fn scheduler_reports_fast_and_main_loops() {
    let mut scheduler = LoopScheduler::start(0, LoopTiming::obot_g474());

    assert_eq!(
        scheduler.poll(3_400),
        LoopPoll {
            fast: true,
            main: false,
        }
    );
    assert_eq!(
        scheduler.poll(17_000),
        LoopPoll {
            fast: true,
            main: true,
        }
    );
}

#[test]
fn deadlines_compare_within_half_the_counter_range() {
    assert!(deadline_reached(100, 100));
    assert!(deadline_reached(5, u32::MAX - 5));
    assert!(!deadline_reached(99, 100));
    assert!(!deadline_reached(100 + 0x8000_0000, 100));
    assert!(deadline_reached(100 + 0x7FFF_FFFF, 100));
}

#[test]
fn a_fired_task_moves_its_deadline_ahead_of_now() {
    let mut task = PeriodicTask::start(1_000, 300);
    assert_eq!(task.period_cycles(), 300);
    assert!(task.poll(2_000));
    assert_eq!(task.next_deadline(), 2_200);
    assert!(!task.poll(2_199));
    let scheduler = LoopScheduler::start(7, LoopTiming::new(1_000, 10, 50));
    assert_eq!(scheduler.fast_task().next_deadline(), 17);
    assert_eq!(scheduler.main_task().next_deadline(), 57);
}

#[test]
fn g474_scheduler_runs_every_20_and_100_microseconds() {
    let mut scheduler = LoopScheduler::start(0, LoopTiming::obot_g474());
    for t in 1..=51_000u32 {
        assert_eq!(
            scheduler.poll(t),
            LoopPoll { fast: t % 3_400 == 0, main: t % 17_000 == 0 },
            "cycle {t}"
        );
    }
}
