use vstd::prelude::*;
use crate::benchmark::spec_elapsed;

verus! {

/// CPU frequency and the periods, in cycles, of the fast and the main loop.
#[derive(Clone, Copy, Debug, PartialEq, Eq, Structural)]
pub struct LoopTiming {
    pub cpu_hz: u32,
    pub fast_period_cycles: u32,
    pub main_period_cycles: u32,
}

impl LoopTiming {
    /// 170 MHz core clock, 50 kHz fast loop, 10 kHz main loop.
    pub fn obot_g474() -> (t: LoopTiming)
        ensures
            t.cpu_hz == 170_000_000,
            t.fast_period_cycles == 3_400,
            t.main_period_cycles == 17_000,
    {
        LoopTiming { cpu_hz: 170_000_000, fast_period_cycles: 3_400, main_period_cycles: 17_000 }
    }

    pub fn new(cpu_hz: u32, fast_period_cycles: u32, main_period_cycles: u32) -> (t: Self)
        ensures
            t.cpu_hz == cpu_hz,
            t.fast_period_cycles == fast_period_cycles,
            t.main_period_cycles == main_period_cycles,
    {
        Self { cpu_hz, fast_period_cycles, main_period_cycles }
    }

    /// Derives the loop periods from loop rates. Every rate must be non-zero
    /// and both loop rates must divide the CPU frequency exactly.
    pub fn from_rates(cpu_hz: u32, fast_hz: u32, main_hz: u32) -> (t: Option<Self>)
        ensures
            t is Some <==> (cpu_hz != 0 && fast_hz != 0 && main_hz != 0 && cpu_hz % fast_hz == 0
                && cpu_hz % main_hz == 0),
            t matches Some(t) ==> {
                &&& t.cpu_hz == cpu_hz
                &&& t.fast_period_cycles == cpu_hz / fast_hz
                &&& t.main_period_cycles == cpu_hz / main_hz
            },
    {
        if cpu_hz == 0 || fast_hz == 0 || main_hz == 0 {
            return None;
        }
        if !cpu_hz.is_multiple_of(fast_hz) || !cpu_hz.is_multiple_of(main_hz) {
            return None;
        }
        Some(Self {
            cpu_hz,
            fast_period_cycles: cpu_hz / fast_hz,
            main_period_cycles: cpu_hz / main_hz,
        })
    }
}

/// A deadline on the free-running counter has been reached when `now` is at
/// most half the counter range past it.
pub open spec fn spec_deadline_reached(now_cycles: u32, deadline_cycles: u32) -> bool {
    spec_elapsed(now_cycles, deadline_cycles) < 0x8000_0000
}

/// On the wrapping 32-bit counter a deadline counts as reached from the
/// moment it comes up to half the counter's range after it, and not in the
/// half range before it.
pub proof fn lemma_deadline_reached_window(deadline: u32, k: u32)
    ensures
        k < 0x8000_0000 ==> spec_deadline_reached(
            ((deadline + k) % 0x1_0000_0000) as u32,
            deadline,
        ),
        1 <= k <= 0x8000_0000 ==> !spec_deadline_reached(
            ((deadline - k + 0x1_0000_0000) % 0x1_0000_0000) as u32,
            deadline,
        ),
{
}

/// The deadline after a poll at `now` that found `deadline` reached: it moves
/// forward by as many whole periods as were missed, plus one.
pub open spec fn spec_advanced_deadline(deadline: u32, period: u32, now: u32) -> u32
    recommends
        period > 0,
{
    ((deadline + period * (spec_elapsed(now, deadline) / period + 1)) % 0x1_0000_0000) as u32
}

/// A poll that fires moves the deadline strictly past `now`, by at most one
/// period: the task never fires twice for one instant, and never skips a
/// period that has not yet been missed. With a period of at most half the
/// counter range the new deadline is no longer reached at `now`.
pub proof fn lemma_fired_poll_moves_deadline_ahead(deadline: u32, period: u32, now: u32)
    requires
        period > 0,
        spec_deadline_reached(now, deadline),
    ensures
        1 <= spec_elapsed(spec_advanced_deadline(deadline, period, now), now) <= period,
        period <= 0x8000_0000 ==> !spec_deadline_reached(
            now,
            spec_advanced_deadline(deadline, period, now),
        ),
{
    let m: int = 0x1_0000_0000;
    let e = spec_elapsed(now, deadline) as int;
    let p = period as int;
    let q = e / p;
    let r = e % p;
    vstd::arithmetic::div_mod::lemma_fundamental_div_mod(e, p);
    vstd::arithmetic::div_mod::lemma_mod_bound(e, p);
    assert(p * (q + 1) == q * p + p) by (nonlinear_arith);
    let adv = spec_advanced_deadline(deadline, period, now) as int;
    // `now` is `deadline + e` modulo the counter range.
    assert(now as int == (deadline as int + e) % m);
    // So the new deadline is `now + (p - r)` modulo the counter range.
    assert(deadline as int + p * (q + 1) == (deadline as int + e) + (p - r));
    vstd::arithmetic::div_mod::lemma_add_mod_noop(deadline as int + e, p - r, m);
    vstd::arithmetic::div_mod::lemma_small_mod((p - r) as nat, m as nat);
    vstd::arithmetic::div_mod::lemma_small_mod(now as nat, m as nat);
    assert(adv == (now as int + (p - r)) % m);
    if now as int + (p - r) < m {
        vstd::arithmetic::div_mod::lemma_small_mod((now as int + (p - r)) as nat, m as nat);
    } else {
        vstd::arithmetic::div_mod::lemma_mod_add_multiples_vanish(now as int + (p - r) - m, m);
        vstd::arithmetic::div_mod::lemma_small_mod((now as int + (p - r) - m) as nat, m as nat);
    }
    assert(spec_elapsed(adv as u32, now) as int == p - r);
}

/// A task that fires once per period on a wrapping cycle counter.
#[derive(Clone, Copy, Debug, PartialEq, Eq, Structural)]
pub struct PeriodicTask {
    period_cycles: u32,
    next_deadline: u32,
}

impl PeriodicTask {
    pub closed spec fn spec_period_cycles(self) -> u32 {
        self.period_cycles
    }

    pub closed spec fn spec_next_deadline(self) -> u32 {
        self.next_deadline
    }

    pub fn start(now_cycles: u32, period_cycles: u32) -> (t: Self)
        ensures
            t.period_cycles() == period_cycles,
            t.next_deadline() == (now_cycles + period_cycles) % 0x1_0000_0000,
    {
        Self { period_cycles, next_deadline: now_cycles.wrapping_add(period_cycles) }
    }

    #[verifier::when_used_as_spec(spec_period_cycles)]
    pub fn period_cycles(self) -> (r: u32)
        ensures
            r == self.spec_period_cycles(),
    {
        self.period_cycles
    }

    #[verifier::when_used_as_spec(spec_next_deadline)]
    pub fn next_deadline(self) -> (r: u32)
        ensures
            r == self.spec_next_deadline(),
    {
        self.next_deadline
    }

    /// `after` and `fired` are the task and the answer after a poll of
    /// `before` at `now`: it fires when the deadline has been reached (never
    /// for a zero period), and on firing the deadline skips every period that
    /// was missed.
    pub open spec fn spec_polled(before: Self, after: Self, now: u32, fired: bool) -> bool {
        &&& fired == (before.period_cycles() != 0 && spec_deadline_reached(
            now,
            before.next_deadline(),
        ))
        &&& after.period_cycles() == before.period_cycles()
        &&& !fired ==> after.next_deadline() == before.next_deadline()
        &&& fired ==> after.next_deadline() == spec_advanced_deadline(
            before.next_deadline(),
            before.period_cycles(),
            now,
        )
    }

    pub fn poll(&mut self, now_cycles: u32) -> (fired: bool)
        ensures
            Self::spec_polled(*old(self), *final(self), now_cycles, fired),
    {
        if self.period_cycles == 0 || !deadline_reached(now_cycles, self.next_deadline) {
            return false;
        }
        let elapsed = now_cycles.wrapping_sub(self.next_deadline);
        let periods_elapsed = elapsed / self.period_cycles + 1;
        proof {
            let p = self.period_cycles as int;
            let q = (elapsed / self.period_cycles) as int;
            assert(q * p <= elapsed) by (nonlinear_arith)
                requires
                    q == elapsed as int / p,
                    p > 0,
                    elapsed >= 0,
            ;
            vstd::arithmetic::div_mod::lemma_mod_adds(
                self.next_deadline as int,
                (p * (q + 1)) % 0x1_0000_0000,
                0x1_0000_0000,
            );
            vstd::arithmetic::div_mod::lemma_mod_twice(p * (q + 1), 0x1_0000_0000);
            vstd::arithmetic::div_mod::lemma_add_mod_noop(
                self.next_deadline as int,
                p * (q + 1),
                0x1_0000_0000,
            );
            vstd::arithmetic::div_mod::lemma_mod_bound(self.next_deadline as int, 0x1_0000_0000);
            vstd::arithmetic::div_mod::lemma_small_mod(
                self.next_deadline as nat,
                0x1_0000_0000,
            );
            assert(p * (q + 1) == p * periods_elapsed) by (nonlinear_arith)
                requires
                    periods_elapsed == q + 1,
            ;
        }
        self.next_deadline = self.next_deadline.wrapping_add(
            self.period_cycles.wrapping_mul(periods_elapsed),
        );
        true
    }
}

/// The fast and main loop tasks, started together.
#[derive(Clone, Copy, Debug, PartialEq, Eq, Structural)]
pub struct LoopScheduler {
    fast: PeriodicTask,
    main: PeriodicTask,
}

/// Which loops are due after one poll.
#[derive(Clone, Copy, Debug, Default, PartialEq, Eq, Structural)]
pub struct LoopPoll {
    pub fast: bool,
    pub main: bool,
}

impl LoopScheduler {
    pub closed spec fn spec_fast_task(self) -> PeriodicTask {
        self.fast
    }

    pub closed spec fn spec_main_task(self) -> PeriodicTask {
        self.main
    }

    pub fn start(now_cycles: u32, timing: LoopTiming) -> (s: Self)
        ensures
            s.fast_task().period_cycles() == timing.fast_period_cycles,
            s.fast_task().next_deadline() == (now_cycles + timing.fast_period_cycles)
                % 0x1_0000_0000,
            s.main_task().period_cycles() == timing.main_period_cycles,
            s.main_task().next_deadline() == (now_cycles + timing.main_period_cycles)
                % 0x1_0000_0000,
    {
        Self {
            fast: PeriodicTask::start(now_cycles, timing.fast_period_cycles),
            main: PeriodicTask::start(now_cycles, timing.main_period_cycles),
        }
    }

    /// Polls both tasks at the same instant.
    pub fn poll(&mut self, now_cycles: u32) -> (p: LoopPoll)
        ensures
            PeriodicTask::spec_polled(
                old(self).fast_task(),
                final(self).fast_task(),
                now_cycles,
                p.fast,
            ),
            PeriodicTask::spec_polled(
                old(self).main_task(),
                final(self).main_task(),
                now_cycles,
                p.main,
            ),
    {
        let fast = self.fast.poll(now_cycles);
        let main = self.main.poll(now_cycles);
        LoopPoll { fast, main }
    }

    #[verifier::when_used_as_spec(spec_fast_task)]
    pub fn fast_task(self) -> (t: PeriodicTask)
        ensures
            t == self.spec_fast_task(),
    {
        self.fast
    }

    #[verifier::when_used_as_spec(spec_main_task)]
    pub fn main_task(self) -> (t: PeriodicTask)
        ensures
            t == self.spec_main_task(),
    {
        self.main
    }
}

/// Whether `now` has reached `deadline` on the wrapping counter.
pub fn deadline_reached(now_cycles: u32, deadline_cycles: u32) -> (r: bool)
    ensures
        r == spec_deadline_reached(now_cycles, deadline_cycles),
{
    now_cycles.wrapping_sub(deadline_cycles) < 0x8000_0000
}

/// The deadline of a task started at 0 with period `p`, before its poll
/// at `t + 1`: the first multiple of `p` past `t`, wrapping.
pub open spec fn spec_deadline_before(t: int, p: int) -> int {
    ((t / p + 1) * p) % 0x1_0000_0000
}

proof fn lemma_poll_step(k: int, p: int, deadline: u32)
    requires
        0 < p <= 0x8000_0000,
        1 <= k <= u32::MAX,
        deadline == spec_deadline_before(k - 1, p),
    ensures
        spec_deadline_reached(k as u32, deadline) == (k % p == 0),
        k % p == 0 ==> spec_advanced_deadline(deadline, p as u32, k as u32)
            == spec_deadline_before(k, p),
        k % p != 0 ==> deadline == spec_deadline_before(k, p),
{
    let m: int = 0x1_0000_0000;
    let q = (k - 1) / p;
    let r = (k - 1) % p;
    vstd::arithmetic::div_mod::lemma_fundamental_div_mod(k - 1, p);
    vstd::arithmetic::div_mod::lemma_mod_bound(k - 1, p);
    let big_d = (q + 1) * p;
    assert(big_d == q * p + p) by (nonlinear_arith)
        requires
            big_d == (q + 1) * p,
    ;
    assert(big_d - k == p - 1 - r);
    if r == p - 1 {
        // `k` is the multiple `(q + 1) * p` itself.
        assert(k == (q + 1) * p);
        vstd::arithmetic::div_mod::lemma_mod_multiples_basic(q + 1, p);
        vstd::arithmetic::div_mod::lemma_div_multiples_vanish(q + 1, p);
        assert(k / p == q + 1);
        vstd::arithmetic::div_mod::lemma_small_mod(k as nat, m as nat);
        assert(deadline == k);
        assert(spec_elapsed(k as u32, deadline) == 0);
        assert(((k / p + 1) * p) == k + p) by (nonlinear_arith)
            requires
                k / p == q + 1,
                k == (q + 1) * p,
        ;
        assert(p * (0int / p + 1) == p) by (nonlinear_arith)
            requires
                p > 0,
        ;
    } else {
        // `k` lies strictly inside the period that ends at `(q + 1) * p`.
        assert(k == q * p + (r + 1));
        vstd::arithmetic::div_mod::lemma_fundamental_div_mod_converse(k, p, q, r + 1);
        assert(k / p == q && k % p == r + 1);
        if big_d < m {
            vstd::arithmetic::div_mod::lemma_small_mod(big_d as nat, m as nat);
            assert(deadline == big_d);
            assert(spec_elapsed(k as u32, deadline) == k - big_d + m);
        } else {
            assert(big_d < 2 * m);
            vstd::arithmetic::div_mod::lemma_mod_add_multiples_vanish(big_d - m, m);
            vstd::arithmetic::div_mod::lemma_small_mod((big_d - m) as nat, m as nat);
            assert(deadline == big_d - m);
            assert(spec_elapsed(k as u32, deadline) == k - (big_d - m));
        }
    }
}

proof fn lemma_task_deadlines(tasks: Seq<PeriodicTask>, fired: Seq<bool>, period: u32, k: int)
    requires
        0 < period <= 0x8000_0000,
        tasks.len() == fired.len(),
        tasks.len() <= 0x1_0000_0000,
        0 <= k < tasks.len(),
        tasks[0].period_cycles() == period,
        tasks[0].next_deadline() == period,
        forall|i: int|
            1 <= i < tasks.len() ==> #[trigger] PeriodicTask::spec_polled(
                tasks[i - 1],
                tasks[i],
                i as u32,
                fired[i],
            ),
    ensures
        tasks[k].period_cycles() == period,
        tasks[k].next_deadline() == spec_deadline_before(k, period as int),
        k >= 1 ==> fired[k] == (k % (period as int) == 0),
    decreases k,
{
    let p = period as int;
    if k == 0 {
        assert(0int / p == 0);
        vstd::arithmetic::div_mod::lemma_small_mod(p as nat, 0x1_0000_0000);
    } else {
        lemma_task_deadlines(tasks, fired, period, k - 1);
        assert(PeriodicTask::spec_polled(tasks[k - 1], tasks[k], k as u32, fired[k]));
        lemma_poll_step(k, p, tasks[k - 1].next_deadline());
    }
}

/// A task started at cycle 0 with a period of at most half the counter
/// range, polled at every cycle 1, 2, ... up to the counter's top, fires
/// exactly at the multiples of its period.
pub proof fn lemma_task_fires_every_period(tasks: Seq<PeriodicTask>, fired: Seq<bool>, period: u32)
    requires
        0 < period <= 0x8000_0000,
        tasks.len() == fired.len(),
        tasks.len() <= 0x1_0000_0000,
        tasks.len() >= 1,
        tasks[0].period_cycles() == period,
        tasks[0].next_deadline() == period,
        forall|i: int|
            1 <= i < tasks.len() ==> #[trigger] PeriodicTask::spec_polled(
                tasks[i - 1],
                tasks[i],
                i as u32,
                fired[i],
            ),
    ensures
        forall|t: int| 1 <= t < tasks.len() ==> #[trigger] fired[t] == (t % (period as int) == 0),
{
    assert forall|t: int| 1 <= t < tasks.len() implies #[trigger] fired[t] == (t % (period as int)
        == 0) by {
        lemma_task_deadlines(tasks, fired, period, t);
    }
}

/// At 170 MHz the scheduler started at cycle 0 and polled at every cycle
/// runs the fast loop every 3,400 cycles (20 us) and the main loop every
/// 17,000 cycles (100 us).
pub proof fn lemma_obot_g474_loop_periods(scheds: Seq<LoopScheduler>, polls: Seq<LoopPoll>)
    requires
        scheds.len() == polls.len(),
        1 <= scheds.len() <= 0x1_0000_0000,
        scheds[0].fast_task().period_cycles() == 3_400,
        scheds[0].fast_task().next_deadline() == 3_400,
        scheds[0].main_task().period_cycles() == 17_000,
        scheds[0].main_task().next_deadline() == 17_000,
        forall|i: int|
            1 <= i < scheds.len() ==> {
                &&& #[trigger] PeriodicTask::spec_polled(
                    scheds[i - 1].fast_task(),
                    scheds[i].fast_task(),
                    i as u32,
                    polls[i].fast,
                )
                &&& PeriodicTask::spec_polled(
                    scheds[i - 1].main_task(),
                    scheds[i].main_task(),
                    i as u32,
                    polls[i].main,
                )
            },
    ensures
        forall|t: int|
            1 <= t < scheds.len() ==> #[trigger] polls[t] == (LoopPoll {
                fast: t % 3_400 == 0,
                main: t % 17_000 == 0,
            }),
{
    let fast_tasks = Seq::new(scheds.len(), |i: int| scheds[i].fast_task());
    let main_tasks = Seq::new(scheds.len(), |i: int| scheds[i].main_task());
    let fast_fired = Seq::new(polls.len(), |i: int| polls[i].fast);
    let main_fired = Seq::new(polls.len(), |i: int| polls[i].main);
    assert forall|i: int| 1 <= i < fast_tasks.len() implies #[trigger] PeriodicTask::spec_polled(
        fast_tasks[i - 1],
        fast_tasks[i],
        i as u32,
        fast_fired[i],
    ) by {
        assert(PeriodicTask::spec_polled(
            scheds[i - 1].fast_task(),
            scheds[i].fast_task(),
            i as u32,
            polls[i].fast,
        ));
    }
    assert forall|i: int| 1 <= i < main_tasks.len() implies #[trigger] PeriodicTask::spec_polled(
        main_tasks[i - 1],
        main_tasks[i],
        i as u32,
        main_fired[i],
    ) by {
        assert(PeriodicTask::spec_polled(
            scheds[i - 1].fast_task(),
            scheds[i].fast_task(),
            i as u32,
            polls[i].fast,
        ));
        assert(PeriodicTask::spec_polled(
            scheds[i - 1].main_task(),
            scheds[i].main_task(),
            i as u32,
            polls[i].main,
        ));
    }
    lemma_task_fires_every_period(fast_tasks, fast_fired, 3_400);
    lemma_task_fires_every_period(main_tasks, main_fired, 17_000);
    assert forall|t: int| 1 <= t < scheds.len() implies #[trigger] polls[t] == (LoopPoll {
        fast: t % 3_400 == 0,
        main: t % 17_000 == 0,
    }) by {
        assert(fast_fired[t] == (t % 3_400 == 0));
        assert(main_fired[t] == (t % 17_000 == 0));
    }
}

} // verus!
