use vstd::prelude::*;

verus! {

/// The mean of `total` over `samples`, in thousandths of a cycle, computed the
/// way the firmware does: the product saturates at `u64::MAX` before dividing.
pub open spec fn spec_mean_milli_cycles(total: u64, samples: u32) -> u64 {
    if samples == 0 {
        0
    } else {
        let scaled: int = if total * 1000 > u64::MAX {
            u64::MAX as int
        } else {
            total * 1000
        };
        (scaled / (samples as int)) as u64
    }
}

/// Running statistics over measured cycle counts.
#[derive(Clone, Copy, Debug, Default, PartialEq, Eq, Structural)]
pub struct CycleStats {
    samples: u32,
    last_cycles: u32,
    max_cycles: u32,
    total_cycles: u64,
}

impl CycleStats {
    /// No measurement recorded yet.
    pub open spec fn is_zero(self) -> bool {
        &&& self.samples() == 0
        &&& self.last_cycles() == 0
        &&& self.max_cycles() == 0
        &&& self.total_cycles() == 0
    }

    pub fn new() -> (s: Self)
        ensures
            s.is_zero(),
    {
        Self { samples: 0, last_cycles: 0, max_cycles: 0, total_cycles: 0 }
    }

    /// `self` is `before` with one more measurement of `cycles` recorded: the
    /// sample count and the total saturate, the maximum and the last value
    /// follow the new measurement.
    pub open spec fn follows_record(self, before: CycleStats, cycles: u32) -> bool {
        &&& self.samples() == (if before.samples() == u32::MAX {
            u32::MAX
        } else {
            (before.samples() + 1) as u32
        })
        &&& self.last_cycles() == cycles
        &&& self.max_cycles() == (if cycles > before.max_cycles() {
            cycles
        } else {
            before.max_cycles()
        })
        &&& self.total_cycles() == (if before.total_cycles() + cycles > u64::MAX {
            u64::MAX
        } else {
            (before.total_cycles() + cycles) as u64
        })
    }

    /// Adds one measurement.
    pub fn record(&mut self, cycles: u32)
        ensures
            final(self).follows_record(*old(self), cycles),
    {
        self.samples = self.samples.saturating_add(1);
        self.last_cycles = cycles;
        if cycles > self.max_cycles {
            self.max_cycles = cycles;
        }
        self.total_cycles = self.total_cycles.saturating_add(cycles as u64);
    }

    pub closed spec fn spec_samples(self) -> u32 {
        self.samples
    }

    #[verifier::when_used_as_spec(spec_samples)]
    pub fn samples(self) -> (r: u32)
        ensures
            r == self.spec_samples(),
    {
        self.samples
    }

    pub closed spec fn spec_last_cycles(self) -> u32 {
        self.last_cycles
    }

    #[verifier::when_used_as_spec(spec_last_cycles)]
    pub fn last_cycles(self) -> (r: u32)
        ensures
            r == self.spec_last_cycles(),
    {
        self.last_cycles
    }

    pub closed spec fn spec_max_cycles(self) -> u32 {
        self.max_cycles
    }

    #[verifier::when_used_as_spec(spec_max_cycles)]
    pub fn max_cycles(self) -> (r: u32)
        ensures
            r == self.spec_max_cycles(),
    {
        self.max_cycles
    }

    pub closed spec fn spec_total_cycles(self) -> u64 {
        self.total_cycles
    }

    #[verifier::when_used_as_spec(spec_total_cycles)]
    pub fn total_cycles(self) -> (r: u64)
        ensures
            r == self.spec_total_cycles(),
    {
        self.total_cycles
    }

    /// Mean cycles per sample in thousandths of a cycle; 0 before any sample.
    pub fn mean_milli_cycles(self) -> (m: u64)
        ensures
            m == spec_mean_milli_cycles(self.total_cycles(), self.samples()),
    {
        if self.samples == 0 {
            return 0;
        }
        let scaled = match self.total_cycles.checked_mul(1000) {
            Some(v) => v,
            None => u64::MAX,
        };
        scaled / (self.samples as u64)
    }

    pub open spec fn spec_snapshot(self) -> CycleStatsSnapshot {
        CycleStatsSnapshot {
            samples: self.samples(),
            last_cycles: self.last_cycles(),
            max_cycles: self.max_cycles(),
            mean_milli_cycles: spec_mean_milli_cycles(self.total_cycles(), self.samples()),
        }
    }

    pub fn snapshot(self) -> (s: CycleStatsSnapshot)
        ensures
            s == self.spec_snapshot(),
    {
        CycleStatsSnapshot {
            samples: self.samples,
            last_cycles: self.last_cycles,
            max_cycles: self.max_cycles,
            mean_milli_cycles: self.mean_milli_cycles(),
        }
    }
}

/// A copy of the statistics with the mean already computed.
#[derive(Clone, Copy, Debug, Default, PartialEq, Eq, Structural)]
pub struct CycleStatsSnapshot {
    pub samples: u32,
    pub last_cycles: u32,
    pub max_cycles: u32,
    pub mean_milli_cycles: u64,
}

/// The cycle count at which one loop iteration started.
#[derive(Clone, Copy, Debug, PartialEq, Eq, Structural)]
pub struct LoopSample {
    start_cycles: u32,
}

impl LoopSample {
    pub closed spec fn spec_start_cycles(self) -> u32 {
        self.start_cycles
    }

    #[verifier::when_used_as_spec(spec_start_cycles)]
    pub fn start_cycles(self) -> (r: u32)
        ensures
            r == self.spec_start_cycles(),
    {
        self.start_cycles
    }
}

/// `now - then` on a free-running 32-bit counter.
pub open spec fn spec_elapsed(now: u32, then: u32) -> u32 {
    if now >= then {
        (now - then) as u32
    } else {
        (now - then + 0x1_0000_0000) as u32
    }
}

/// The time elapsed on a wrapping 32-bit counter is what, added to the
/// earlier reading, gives the later one, modulo 2^32.
pub proof fn lemma_elapsed_wraps(now: u32, then: u32)
    ensures
        spec_elapsed(now, then) < 0x1_0000_0000,
        (then + spec_elapsed(now, then)) % 0x1_0000_0000 == now,
{
}

/// The mean in thousandths of a cycle is the total times a thousand divided
/// by the sample count, rounded down, while that product fits 64 bits; with
/// no samples it is 0.
pub proof fn lemma_mean_milli_cycles_divides(total: u64, samples: u32)
    ensures
        samples == 0 ==> spec_mean_milli_cycles(total, samples) == 0,
        samples > 0 && total * 1000 <= u64::MAX ==> spec_mean_milli_cycles(total, samples)
            * samples <= total * 1000 < (spec_mean_milli_cycles(total, samples) + 1) * samples,
{
    if samples > 0 && total * 1000 <= u64::MAX {
        let m = spec_mean_milli_cycles(total, samples);
        let x = total * 1000;
        assert(m == x / (samples as int));
        assert(m * samples <= x < (m + 1) * samples) by (nonlinear_arith)
            requires
                m == x / (samples as int),
                samples > 0,
        ;
    }
}

/// Period and execution-time statistics of one periodic loop.
#[derive(Clone, Copy, Debug, Default, PartialEq, Eq, Structural)]
pub struct LoopBenchmark {
    last_start_cycles: Option<u32>,
    period: CycleStats,
    execution: CycleStats,
}

impl LoopBenchmark {
    pub closed spec fn spec_last_start_cycles(self) -> Option<u32> {
        self.last_start_cycles
    }

    pub fn new() -> (b: Self)
        ensures
            b.spec_last_start_cycles() is None,
            b.period().is_zero(),
            b.execution().is_zero(),
    {
        Self { last_start_cycles: None, period: CycleStats::new(), execution: CycleStats::new() }
    }

    /// Marks the start of an iteration. From the second start on, the time
    /// since the previous start is recorded as a period.
    pub fn start(&mut self, now_cycles: u32) -> (sample: LoopSample)
        ensures
            sample.start_cycles() == now_cycles,
            final(self).spec_last_start_cycles() == Some(now_cycles),
            final(self).execution() == old(self).execution(),
            match old(self).spec_last_start_cycles() {
                None => final(self).period() == old(self).period(),
                Some(last) => final(self).period().follows_record(
                    old(self).period(),
                    spec_elapsed(now_cycles, last),
                ),
            },
    {
        if let Some(last_start_cycles) = self.last_start_cycles {
            self.period.record(now_cycles.wrapping_sub(last_start_cycles));
        }
        self.last_start_cycles = Some(now_cycles);
        LoopSample { start_cycles: now_cycles }
    }

    /// Marks the end of the iteration that `sample` started, recording its
    /// execution time.
    pub fn finish(&mut self, sample: LoopSample, now_cycles: u32)
        ensures
            final(self).spec_last_start_cycles() == old(self).spec_last_start_cycles(),
            final(self).period() == old(self).period(),
            final(self).execution().follows_record(
                old(self).execution(),
                spec_elapsed(now_cycles, sample.start_cycles()),
            ),
    {
        self.execution.record(now_cycles.wrapping_sub(sample.start_cycles));
    }

    pub closed spec fn spec_period(self) -> CycleStats {
        self.period
    }

    #[verifier::when_used_as_spec(spec_period)]
    pub fn period(self) -> (r: CycleStats)
        ensures
            r == self.spec_period(),
    {
        self.period
    }

    pub closed spec fn spec_execution(self) -> CycleStats {
        self.execution
    }

    #[verifier::when_used_as_spec(spec_execution)]
    pub fn execution(self) -> (r: CycleStats)
        ensures
            r == self.spec_execution(),
    {
        self.execution
    }

    pub open spec fn spec_snapshot(self) -> LoopBenchmarkSnapshot {
        LoopBenchmarkSnapshot {
            period: self.period().spec_snapshot(),
            execution: self.execution().spec_snapshot(),
        }
    }

    pub fn snapshot(self) -> (s: LoopBenchmarkSnapshot)
        ensures
            s == self.spec_snapshot(),
    {
        LoopBenchmarkSnapshot { period: self.period.snapshot(), execution: self.execution.snapshot() }
    }
}

/// Snapshots of period and execution statistics of one loop.
#[derive(Clone, Copy, Debug, Default, PartialEq, Eq, Structural)]
pub struct LoopBenchmarkSnapshot {
    pub period: CycleStatsSnapshot,
    pub execution: CycleStatsSnapshot,
}

/// Benchmark results of the fast and the main loop.
#[derive(Clone, Copy, Debug, Default, PartialEq, Eq, Structural)]
pub struct BenchmarkReport {
    pub fast: LoopBenchmarkSnapshot,
    pub main: LoopBenchmarkSnapshot,
}

impl BenchmarkReport {
    pub fn from_loops(fast: LoopBenchmark, main: LoopBenchmark) -> (r: Self)
        ensures
            r.fast == fast.spec_snapshot(),
            r.main == main.spec_snapshot(),
    {
        Self { fast: fast.snapshot(), main: main.snapshot() }
    }

    pub fn mean_fast_loop_period_milli_cycles(self) -> (v: u64)
        ensures
            v == self.fast.period.mean_milli_cycles,
    {
        self.fast.period.mean_milli_cycles
    }

    pub fn t_period_fastloop(self) -> (v: u32)
        ensures
            v == self.fast.period.last_cycles,
    {
        self.fast.period.last_cycles
    }

    pub fn max_fast_loop_period_cycles(self) -> (v: u32)
        ensures
            v == self.fast.period.max_cycles,
    {
        self.fast.period.max_cycles
    }

    pub fn mean_fast_loop_cycles_milli_cycles(self) -> (v: u64)
        ensures
            v == self.fast.execution.mean_milli_cycles,
    {
        self.fast.execution.mean_milli_cycles
    }

    pub fn t_exec_fastloop(self) -> (v: u32)
        ensures
            v == self.fast.execution.last_cycles,
    {
        self.fast.execution.last_cycles
    }

    pub fn max_fast_loop_cycles(self) -> (v: u32)
        ensures
            v == self.fast.execution.max_cycles,
    {
        self.fast.execution.max_cycles
    }

    pub fn mean_main_loop_period_milli_cycles(self) -> (v: u64)
        ensures
            v == self.main.period.mean_milli_cycles,
    {
        self.main.period.mean_milli_cycles
    }

    pub fn t_period_mainloop(self) -> (v: u32)
        ensures
            v == self.main.period.last_cycles,
    {
        self.main.period.last_cycles
    }

    pub fn max_main_loop_period_cycles(self) -> (v: u32)
        ensures
            v == self.main.period.max_cycles,
    {
        self.main.period.max_cycles
    }

    pub fn mean_main_loop_cycles_milli_cycles(self) -> (v: u64)
        ensures
            v == self.main.execution.mean_milli_cycles,
    {
        self.main.execution.mean_milli_cycles
    }

    pub fn t_exec_mainloop(self) -> (v: u32)
        ensures
            v == self.main.execution.last_cycles,
    {
        self.main.execution.last_cycles
    }

    pub fn max_main_loop_cycles(self) -> (v: u32)
        ensures
            v == self.main.execution.max_cycles,
    {
        self.main.execution.max_cycles
    }
}

/// The sum of the recorded cycle counts.
pub open spec fn spec_cycles_sum(c: Seq<u32>) -> int
    decreases c.len(),
{
    if c.len() == 0 {
        0
    } else {
        spec_cycles_sum(c.drop_last()) + c.last()
    }
}

/// The largest recorded cycle count, 0 when there is none.
pub open spec fn spec_cycles_max(c: Seq<u32>) -> u32
    decreases c.len(),
{
    if c.len() == 0 {
        0
    } else {
        let m = spec_cycles_max(c.drop_last());
        if c.last() > m {
            c.last()
        } else {
            m
        }
    }
}

proof fn lemma_prefix_sum_le(c: Seq<u32>, k: int)
    requires
        0 <= k <= c.len(),
    ensures
        spec_cycles_sum(c.take(k)) <= spec_cycles_sum(c),
    decreases c.len() - k,
{
    if k < c.len() {
        lemma_prefix_sum_le(c, k + 1);
        assert(c.take(k + 1).drop_last() =~= c.take(k));
    } else {
        assert(c.take(k) =~= c);
    }
}

proof fn lemma_records_prefix(stats: Seq<CycleStats>, cycles: Seq<u32>, k: int)
    requires
        stats.len() == cycles.len() + 1,
        cycles.len() <= u32::MAX,
        spec_cycles_sum(cycles) <= u64::MAX,
        stats[0].is_zero(),
        forall|i: int|
            1 <= i < stats.len() ==> #[trigger] stats[i].follows_record(stats[i - 1], cycles[i - 1]),
        0 <= k <= cycles.len(),
    ensures
        stats[k].samples() == k,
        stats[k].last_cycles() == (if k == 0 {
            0
        } else {
            cycles[k - 1]
        }),
        stats[k].max_cycles() == spec_cycles_max(cycles.take(k)),
        stats[k].total_cycles() == spec_cycles_sum(cycles.take(k)),
    decreases k,
{
    if k == 0 {
        assert(cycles.take(0) =~= Seq::<u32>::empty());
    } else {
        lemma_records_prefix(stats, cycles, k - 1);
        assert(stats[k].follows_record(stats[k - 1], cycles[k - 1]));
        assert(cycles.take(k).drop_last() =~= cycles.take(k - 1));
        lemma_prefix_sum_le(cycles, k);
    }
}

/// Recording cycle counts `c` one after another from a fresh set of
/// statistics (fewer than 2^32 of them, summing below 2^64, so that nothing
/// saturates) leaves the number recorded, the last one, the largest and
/// the sum.
pub proof fn lemma_records_from_new(stats: Seq<CycleStats>, cycles: Seq<u32>)
    requires
        stats.len() == cycles.len() + 1,
        cycles.len() <= u32::MAX,
        spec_cycles_sum(cycles) <= u64::MAX,
        stats[0].is_zero(),
        forall|i: int|
            1 <= i < stats.len() ==> #[trigger] stats[i].follows_record(stats[i - 1], cycles[i - 1]),
    ensures
        stats.last().samples() == cycles.len(),
        stats.last().last_cycles() == (if cycles.len() == 0 {
            0
        } else {
            cycles.last()
        }),
        stats.last().max_cycles() == spec_cycles_max(cycles),
        stats.last().total_cycles() == spec_cycles_sum(cycles),
{
    lemma_records_prefix(stats, cycles, cycles.len() as int);
    assert(cycles.take(cycles.len() as int) =~= cycles);
}

} // verus!
