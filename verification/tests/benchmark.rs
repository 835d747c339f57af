use obot::benchmark::{BenchmarkReport, CycleStats, CycleStatsSnapshot, LoopBenchmark};

#[test]
fn cycle_stats_track_max_total_and_fixed_point_mean() {
    let mut stats = CycleStats::new();

    assert_eq!(stats.mean_milli_cycles(), 0);

    stats.record(7);
    stats.record(10);

    assert_eq!(stats.samples(), 2);
    assert_eq!(stats.last_cycles(), 10);
    assert_eq!(stats.max_cycles(), 10);
    assert_eq!(stats.total_cycles(), 17);
    assert_eq!(stats.mean_milli_cycles(), 8_500);
    assert_eq!(
        stats.snapshot(),
        CycleStatsSnapshot {
            samples: 2,
            last_cycles: 10,
            max_cycles: 10,
            mean_milli_cycles: 8_500,
        }
    );
}

#[test]
fn loop_benchmark_tracks_execution_and_periods() {
    let mut benchmark = LoopBenchmark::new();

    let first = benchmark.start(100);
    benchmark.finish(first, 130);
    let second = benchmark.start(200);
    benchmark.finish(second, 245);

    assert_eq!(benchmark.execution().samples(), 2);
    assert_eq!(benchmark.execution().max_cycles(), 45);
    assert_eq!(benchmark.execution().mean_milli_cycles(), 37_500);
    assert_eq!(benchmark.period().samples(), 1);
    assert_eq!(benchmark.period().max_cycles(), 100);
}

#[test]
fn loop_benchmark_uses_wrapping_cycle_differences() {
    let mut benchmark = LoopBenchmark::new();

    let first = benchmark.start(u32::MAX - 9);
    benchmark.finish(first, 5);
    let second = benchmark.start(20);
    benchmark.finish(second, 35);

    assert_eq!(benchmark.execution().samples(), 2);
    assert_eq!(benchmark.execution().max_cycles(), 15);
    assert_eq!(benchmark.execution().mean_milli_cycles(), 15_000);
    assert_eq!(benchmark.period().samples(), 1);
    assert_eq!(benchmark.period().max_cycles(), 30);
}

#[test]
fn benchmark_report_exposes_script_comparable_fields() {
    let mut fast = LoopBenchmark::new();
    let mut main = LoopBenchmark::new();

    let fast_sample = fast.start(100);
    fast.finish(fast_sample, 810);
    fast.start(3_500);

    let main_sample = main.start(1_000);
    main.finish(main_sample, 4_555);
    main.start(18_000);

    let report = BenchmarkReport::from_loops(fast, main);

    assert_eq!(report.t_exec_fastloop(), 710);
    assert_eq!(report.max_fast_loop_cycles(), 710);
    assert_eq!(report.mean_fast_loop_cycles_milli_cycles(), 710_000);
    assert_eq!(report.t_period_fastloop(), 3_400);
    assert_eq!(report.max_fast_loop_period_cycles(), 3_400);
    assert_eq!(report.mean_fast_loop_period_milli_cycles(), 3_400_000);
    assert_eq!(report.t_exec_mainloop(), 3_555);
    assert_eq!(report.max_main_loop_cycles(), 3_555);
    assert_eq!(report.mean_main_loop_cycles_milli_cycles(), 3_555_000);
    assert_eq!(report.t_period_mainloop(), 17_000);
    assert_eq!(report.max_main_loop_period_cycles(), 17_000);
    assert_eq!(report.mean_main_loop_period_milli_cycles(), 17_000_000);
}

#[test]
fn cycle_stats_saturate_the_total_and_report_zero_mean_without_samples() {
    let mut stats = CycleStats::new();
    assert_eq!(stats.snapshot(), CycleStatsSnapshot::default());
    stats.record(u32::MAX);
    assert_eq!(stats.total_cycles(), u32::MAX as u64);
    assert_eq!(stats.mean_milli_cycles(), u32::MAX as u64 * 1_000);
    stats.record(3);
    assert_eq!(stats.max_cycles(), u32::MAX);
    assert_eq!(stats.last_cycles(), 3);
}
