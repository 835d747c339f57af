use vstd::prelude::*;

verus! {

/// The conditions that each have to allow motor output.
#[derive(Clone, Copy, Debug, Default, PartialEq, Eq, Structural)]
pub struct OutputSafetyInputs {
    pub command_allows_output: bool,
    pub bus_allows_output: bool,
    pub driver_enabled: bool,
    pub driver_faulted: bool,
    pub controller_faulted: bool,
}

/// Whether output is allowed, and which condition blocks it.
#[derive(Clone, Copy, Debug, Default, PartialEq, Eq, Structural)]
pub struct OutputSafetyStatus {
    pub output_allowed: bool,
    pub command_blocked: bool,
    pub bus_blocked: bool,
    pub driver_not_enabled: bool,
    pub driver_fault_latched: bool,
    pub controller_faulted: bool,
    pub host_timed_out: bool,
}

/// The output gate. A driver fault stays latched until it is cleared
/// explicitly.
#[derive(Clone, Copy, Debug, Default, PartialEq, Eq, Structural)]
pub struct OutputSafety {
    driver_fault_latched: bool,
}

impl OutputSafety {
    pub closed spec fn spec_driver_fault_latched(self) -> bool {
        self.driver_fault_latched
    }

    pub fn new() -> (s: Self)
        ensures
            !s.spec_driver_fault_latched(),
    {
        Self { driver_fault_latched: false }
    }

    /// `after` and `s` are the latch and the status after folding `inputs`
    /// into `before`.
    pub open spec fn spec_updated(
        before: Self,
        after: Self,
        inputs: OutputSafetyInputs,
        s: OutputSafetyStatus,
    ) -> bool {
        &&& after.spec_driver_fault_latched() == (before.spec_driver_fault_latched()
            || inputs.driver_faulted)
        &&& s.command_blocked == !inputs.command_allows_output
        &&& s.bus_blocked == !inputs.bus_allows_output
        &&& s.driver_not_enabled == !inputs.driver_enabled
        &&& s.driver_fault_latched == after.spec_driver_fault_latched()
        &&& s.controller_faulted == inputs.controller_faulted
        &&& !s.host_timed_out
        &&& s.output_allowed == (inputs.command_allows_output && inputs.bus_allows_output
            && inputs.driver_enabled && !after.spec_driver_fault_latched()
            && !inputs.controller_faulted)
    }

    /// Folds the inputs into the latch and reports whether output is allowed. Output is
    /// allowed only when every input allows it and no driver fault is
    /// latched. This gate does not observe the host watchdog, so it never
    /// reports `host_timed_out`.
    pub fn update(&mut self, inputs: OutputSafetyInputs) -> (s: OutputSafetyStatus)
        ensures
            Self::spec_updated(*old(self), *final(self), inputs, s),
    {
        self.driver_fault_latched = self.driver_fault_latched || inputs.driver_faulted;
        let command_blocked = !inputs.command_allows_output;
        let bus_blocked = !inputs.bus_allows_output;
        let driver_not_enabled = !inputs.driver_enabled;
        let output_allowed = !command_blocked && !bus_blocked && !driver_not_enabled
            && !self.driver_fault_latched && !inputs.controller_faulted;
        OutputSafetyStatus {
            output_allowed,
            command_blocked,
            bus_blocked,
            driver_not_enabled,
            driver_fault_latched: self.driver_fault_latched,
            controller_faulted: inputs.controller_faulted,
            host_timed_out: false,
        }
    }

    pub fn clear_latched_driver_fault(&mut self)
        ensures
            !final(self).spec_driver_fault_latched(),
    {
        self.driver_fault_latched = false;
    }
}

/// Once a driver fault has been seen, every later update reports it latched
/// and withholds output, whatever the inputs, until the latch is cleared
/// explicitly.
pub proof fn lemma_driver_fault_stays_latched(
    states: Seq<OutputSafety>,
    inputs: Seq<OutputSafetyInputs>,
    reports: Seq<OutputSafetyStatus>,
)
    requires
        states.len() >= 1,
        inputs.len() == states.len(),
        reports.len() == states.len(),
        states[0].spec_driver_fault_latched(),
        forall|i: int|
            1 <= i < states.len() ==> #[trigger] OutputSafety::spec_updated(
                states[i - 1],
                states[i],
                inputs[i],
                reports[i],
            ),
    ensures
        forall|i: int|
            1 <= i < states.len() ==> #[trigger] reports[i].driver_fault_latched
                && !reports[i].output_allowed,
{
    assert forall|i: int| 0 <= i < states.len() implies #[trigger] states[i].spec_driver_fault_latched() by {
        lemma_latched_from_start(states, inputs, reports, i);
    }
    assert forall|i: int| 1 <= i < states.len() implies #[trigger] reports[i].driver_fault_latched
        && !reports[i].output_allowed by {
        assert(OutputSafety::spec_updated(states[i - 1], states[i], inputs[i], reports[i]));
        assert(states[i].spec_driver_fault_latched());
    }
}

proof fn lemma_latched_from_start(
    states: Seq<OutputSafety>,
    inputs: Seq<OutputSafetyInputs>,
    reports: Seq<OutputSafetyStatus>,
    i: int,
)
    requires
        0 <= i < states.len(),
        inputs.len() == states.len(),
        reports.len() == states.len(),
        states[0].spec_driver_fault_latched(),
        forall|j: int|
            1 <= j < states.len() ==> #[trigger] OutputSafety::spec_updated(
                states[j - 1],
                states[j],
                inputs[j],
                reports[j],
            ),
    ensures
        states[i].spec_driver_fault_latched(),
    decreases i,
{
    if i > 0 {
        lemma_latched_from_start(states, inputs, reports, i - 1);
        assert(OutputSafety::spec_updated(states[i - 1], states[i], inputs[i], reports[i]));
    }
}

} // verus!
