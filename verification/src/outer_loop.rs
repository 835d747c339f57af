use vstd::prelude::*;

use crate::control::ControlMode;

verus! {

/// What the outer loop does with the motor state of one step.
#[derive(Clone, Copy, Debug, PartialEq, Eq, Structural)]
pub enum OuterLoopStep {
    /// Faulted, disabled or clearing faults: no current is asked for and
    /// the loop starts afresh next time.
    Idle,
    /// A new mode (or the first step after idling): the velocity and
    /// position controllers start from the present feedback, then run.
    Start(ControlMode),
    /// Same mode as before: the controllers run on.
    Run(ControlMode),
}

/// The mode the outer loop ran last and whether its controllers have been
/// started for it.
#[derive(Clone, Copy, Debug, PartialEq, Eq, Structural)]
pub struct OuterLoopMode {
    pub last_mode: ControlMode,
    pub initialized: bool,
}

pub open spec fn spec_idles(mode: ControlMode, faulted: bool) -> bool {
    faulted || mode == ControlMode::Disabled || mode == ControlMode::ClearFaults
}

/// The step and the mode afterwards, for state `m`.
pub open spec fn spec_outer_step(m: OuterLoopMode, mode: ControlMode, faulted: bool) -> (
    OuterLoopMode,
    OuterLoopStep,
) {
    if spec_idles(mode, faulted) {
        (OuterLoopMode { last_mode: ControlMode::Disabled, initialized: false }, OuterLoopStep::Idle)
    } else if !m.initialized || mode != m.last_mode {
        (OuterLoopMode { last_mode: mode, initialized: true }, OuterLoopStep::Start(mode))
    } else {
        (m, OuterLoopStep::Run(mode))
    }
}

impl OuterLoopMode {
    pub fn new() -> (m: Self)
        ensures
            m == (OuterLoopMode { last_mode: ControlMode::Disabled, initialized: false }),
    {
        OuterLoopMode { last_mode: ControlMode::Disabled, initialized: false }
    }

    /// The step for a state in `mode`, `faulted` when the state carries a
    /// fault.
    pub fn step(&mut self, mode: ControlMode, faulted: bool) -> (s: OuterLoopStep)
        ensures
            (*final(self), s) == spec_outer_step(*old(self), mode, faulted),
    {
        if faulted || mode == ControlMode::Disabled || mode == ControlMode::ClearFaults {
            self.last_mode = ControlMode::Disabled;
            self.initialized = false;
            OuterLoopStep::Idle
        } else if !self.initialized || mode != self.last_mode {
            self.last_mode = mode;
            self.initialized = true;
            OuterLoopStep::Start(mode)
        } else {
            OuterLoopStep::Run(mode)
        }
    }
}

/// Once a mode has started, further steps in that mode run on without a
/// restart, until a fault, a disable or a change of mode.
pub proof fn lemma_started_mode_runs_on(m: OuterLoopMode, mode: ControlMode)
    requires
        !spec_idles(mode, false),
    ensures
        ({
            let after = spec_outer_step(m, mode, false).0;
            spec_outer_step(after, mode, false) == (after, OuterLoopStep::Run(mode))
        }),
{
}

/// After idling, the next active mode always starts its controllers
/// afresh.
pub proof fn lemma_idle_then_start(m: OuterLoopMode, idle_mode: ControlMode, faulted: bool, mode: ControlMode)
    requires
        spec_idles(idle_mode, faulted),
        !spec_idles(mode, false),
    ensures
        spec_outer_step(spec_outer_step(m, idle_mode, faulted).0, mode, false).1
            == OuterLoopStep::Start(mode),
{
}

/// Only a fault, Disabled or ClearFaults idle the outer loop, and idling
/// forgets the mode. A fault-free Torque, Velocity or Position step never
/// idles: it starts that mode, or runs it on when that very mode was
/// started last and the loop has not idled since.
pub proof fn lemma_only_faults_and_stops_idle(m: OuterLoopMode, mode: ControlMode, faulted: bool)
    ensures
        ({
            let (after, s) = spec_outer_step(m, mode, faulted);
            &&& s == OuterLoopStep::Idle <==> (faulted || mode == ControlMode::Disabled || mode
                == ControlMode::ClearFaults)
            &&& s == OuterLoopStep::Idle ==> after == (OuterLoopMode {
                last_mode: ControlMode::Disabled,
                initialized: false,
            })
            &&& !faulted && (mode == ControlMode::Torque || mode == ControlMode::Velocity || mode
                == ControlMode::Position) ==> (s == OuterLoopStep::Start(mode) || s
                == OuterLoopStep::Run(mode))
            &&& s == OuterLoopStep::Run(mode) <==> (!faulted && (mode == ControlMode::Torque
                || mode == ControlMode::Velocity || mode == ControlMode::Position) && m.initialized
                && m.last_mode == mode)
            &&& s is Start || s is Run ==> after == (OuterLoopMode {
                last_mode: mode,
                initialized: true,
            })
        }),
{
}

} // verus!
