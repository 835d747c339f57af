use vstd::prelude::*;

verus! {

/// Watchdog that withdraws output permission when the host stops sending
/// output-enabling commands for `timeout_ticks` ticks.
#[derive(Clone, Copy, Debug, PartialEq, Eq, Structural)]
pub struct HostCommandWatchdog {
    timeout_ticks: u32,
    ticks_remaining: u32,
    output_command_seen: bool,
    timed_out: bool,
}

/// What the watchdog reports after each observation or tick.
#[derive(Clone, Copy, Debug, Default, PartialEq, Eq, Structural)]
pub struct HostCommandWatchdogStatus {
    pub output_allowed: bool,
    pub timed_out: bool,
    pub just_timed_out: bool,
}

impl HostCommandWatchdog {
    pub closed spec fn spec_timeout_ticks(self) -> u32 {
        self.timeout_ticks
    }

    pub closed spec fn spec_ticks_remaining(self) -> u32 {
        self.ticks_remaining
    }

    pub closed spec fn spec_output_command_seen(self) -> bool {
        self.output_command_seen
    }

    pub closed spec fn spec_timed_out(self) -> bool {
        self.timed_out
    }

    /// The status the watchdog reports in its current state.
    pub open spec fn spec_status(self, just_timed_out: bool) -> HostCommandWatchdogStatus {
        HostCommandWatchdogStatus {
            output_allowed: self.spec_output_command_seen() && self.spec_ticks_remaining() > 0,
            timed_out: self.spec_timed_out(),
            just_timed_out,
        }
    }

    pub fn new(timeout_ticks: u32) -> (w: Self)
        ensures
            w.spec_timeout_ticks() == timeout_ticks,
            w.spec_ticks_remaining() == 0,
            !w.spec_output_command_seen(),
            !w.spec_timed_out(),
    {
        Self { timeout_ticks, ticks_remaining: 0, output_command_seen: false, timed_out: false }
    }

    pub fn observe_command(&mut self, command_allows_output: bool) -> (s: HostCommandWatchdogStatus)
        ensures
            final(self).spec_timeout_ticks() == old(self).spec_timeout_ticks(),
            final(self).spec_output_command_seen() == command_allows_output,
            final(self).spec_ticks_remaining() == (if command_allows_output {
                old(self).spec_timeout_ticks()
            } else {
                0
            }),
            !final(self).spec_timed_out(),
            s == final(self).spec_status(false),
    {
        self.output_command_seen = command_allows_output;
        self.ticks_remaining = if command_allows_output {
            self.timeout_ticks
        } else {
            0
        };
        self.timed_out = false;
        self.status(false)
    }

    /// `after` and `s` are the watchdog and the report after one tick of
    /// `before`: nothing moves until an output command has been seen; then
    /// the remaining ticks count down to zero, it has timed out once they are
    /// zero, and the report flags the tick on which that first happens.
    pub open spec fn spec_ticked(before: Self, after: Self, s: HostCommandWatchdogStatus) -> bool {
        &&& after.spec_timeout_ticks() == before.spec_timeout_ticks()
        &&& after.spec_output_command_seen() == before.spec_output_command_seen()
        &&& !before.spec_output_command_seen() ==> {
            &&& after.spec_ticks_remaining() == before.spec_ticks_remaining()
            &&& !after.spec_timed_out()
            &&& s == after.spec_status(false)
        }
        &&& before.spec_output_command_seen() ==> {
            &&& after.spec_ticks_remaining() == (if before.spec_ticks_remaining() == 0 {
                0
            } else {
                before.spec_ticks_remaining() - 1
            })
            &&& after.spec_timed_out() == (after.spec_ticks_remaining() == 0)
            &&& s == after.spec_status(!before.spec_timed_out() && after.spec_timed_out())
        }
    }

    pub fn tick(&mut self) -> (s: HostCommandWatchdogStatus)
        ensures
            Self::spec_ticked(*old(self), *final(self), s),
    {
        if !self.output_command_seen {
            self.timed_out = false;
            return self.status(false);
        }
        self.ticks_remaining = self.ticks_remaining.saturating_sub(1);
        let was_timed_out = self.timed_out;
        self.timed_out = self.ticks_remaining == 0;
        self.status(!was_timed_out && self.timed_out)
    }

    fn status(&self, just_timed_out: bool) -> (s: HostCommandWatchdogStatus)
        ensures
            s == self.spec_status(just_timed_out),
    {
        HostCommandWatchdogStatus {
            output_allowed: self.output_command_seen && self.ticks_remaining > 0,
            timed_out: self.timed_out,
            just_timed_out,
        }
    }
}

/// The state of a watchdog `k` ticks after an output command with timeout
/// `timeout` (at least one tick): the ticks left, and whether it has timed
/// out.
proof fn lemma_ticks_after_output_command(
    states: Seq<HostCommandWatchdog>,
    reports: Seq<HostCommandWatchdogStatus>,
    timeout: u32,
    k: int,
)
    requires
        timeout >= 1,
        states.len() == reports.len(),
        0 <= k < states.len(),
        states[0].spec_timeout_ticks() == timeout,
        states[0].spec_output_command_seen(),
        states[0].spec_ticks_remaining() == timeout,
        !states[0].spec_timed_out(),
        forall|i: int|
            1 <= i < states.len() ==> #[trigger] HostCommandWatchdog::spec_ticked(
                states[i - 1],
                states[i],
                reports[i],
            ),
    ensures
        states[k].spec_timeout_ticks() == timeout,
        states[k].spec_output_command_seen(),
        states[k].spec_ticks_remaining() == (if k <= timeout {
            timeout - k
        } else {
            0
        }),
        states[k].spec_timed_out() == (k >= timeout),
    decreases k,
{
    if k > 0 {
        lemma_ticks_after_output_command(states, reports, timeout, k - 1);
        assert(HostCommandWatchdog::spec_ticked(states[k - 1], states[k], reports[k]));
    }
}

/// After a command that allows output, with a timeout of `timeout` ticks
/// (at least one): output stays allowed for the first `timeout - 1` ticks,
/// the tick numbered `timeout` reports the timeout as new, and every later
/// tick reports it as standing, with output withdrawn.
pub proof fn lemma_output_command_times_out(
    states: Seq<HostCommandWatchdog>,
    reports: Seq<HostCommandWatchdogStatus>,
    timeout: u32,
)
    requires
        timeout >= 1,
        states.len() == reports.len(),
        states.len() >= 1,
        states[0].spec_timeout_ticks() == timeout,
        states[0].spec_output_command_seen(),
        states[0].spec_ticks_remaining() == timeout,
        !states[0].spec_timed_out(),
        forall|i: int|
            1 <= i < states.len() ==> #[trigger] HostCommandWatchdog::spec_ticked(
                states[i - 1],
                states[i],
                reports[i],
            ),
    ensures
        forall|k: int|
            1 <= k < states.len() ==> #[trigger] reports[k] == (HostCommandWatchdogStatus {
                output_allowed: k < timeout,
                timed_out: k >= timeout,
                just_timed_out: k == timeout,
            }),
{
    assert forall|k: int| 1 <= k < states.len() implies #[trigger] reports[k] == (
    HostCommandWatchdogStatus {
        output_allowed: k < timeout,
        timed_out: k >= timeout,
        just_timed_out: k == timeout,
    }) by {
        lemma_ticks_after_output_command(states, reports, timeout, k - 1);
        lemma_ticks_after_output_command(states, reports, timeout, k);
        assert(HostCommandWatchdog::spec_ticked(states[k - 1], states[k], reports[k]));
    }
}

} // verus!
