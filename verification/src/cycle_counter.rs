use vstd::prelude::*;

use crate::registers::{RegisterStep, RegisterWrite};

verus! {

/// A source of the current cycle count.
pub trait CycleCounter {
    spec fn spec_now(&self) -> u32;

    fn now(&self) -> (r: u32)
        ensures
            r == self.spec_now(),
    ;
}

pub const DEMCR: usize = 0xE000_EDFC;
pub const DWT_CTRL: usize = 0xE000_1000;
pub const DWT_CYCCNT: usize = 0xE000_1004;
pub const DWT_LAR: usize = 0xE000_1FB0;
pub const DEMCR_TRCENA: u32 = 0x100_0000;
pub const DWT_CTRL_CYCCNTENA: u32 = 1;
pub const DWT_LAR_UNLOCK: u32 = 0xC5AC_CE55;

/// The Cortex-M4 data watchpoint unit's cycle counter.
#[derive(Clone, Copy, Debug, Default, PartialEq, Eq, Structural)]
pub struct DwtCycleCounter;

/// Starting the counter: trace enabled, the lock opened, the count zeroed
/// and counting switched on.
pub open spec fn spec_dwt_enable<E>() -> Seq<RegisterStep<E>> {
    seq![
        RegisterStep::Modify { address: DEMCR, clear: 0, set: DEMCR_TRCENA },
        RegisterStep::Write { address: DWT_LAR, value: DWT_LAR_UNLOCK },
        RegisterStep::Write { address: DWT_CYCCNT, value: 0 },
        RegisterStep::Modify { address: DWT_CTRL, clear: 0, set: DWT_CTRL_CYCCNTENA },
    ]
}

impl DwtCycleCounter {
    pub fn new() -> (c: Self) {
        DwtCycleCounter
    }

    /// The programme that starts the counter from zero.
    pub fn enable<E>(self) -> (steps: Vec<RegisterStep<E>>)
        ensures
            steps@ == spec_dwt_enable::<E>(),
    {
        let mut steps: Vec<RegisterStep<E>> = Vec::new();
        steps.push(RegisterStep::Modify { address: DEMCR, clear: 0, set: DEMCR_TRCENA });
        steps.push(RegisterStep::Write { address: DWT_LAR, value: DWT_LAR_UNLOCK });
        steps.push(RegisterStep::Write { address: DWT_CYCCNT, value: 0 });
        steps.push(RegisterStep::Modify { address: DWT_CTRL, clear: 0, set: DWT_CTRL_CYCCNTENA });
        assert(steps@ =~= spec_dwt_enable::<E>());
        steps
    }

    /// The write that sets the count back to zero.
    pub fn reset(self) -> (w: RegisterWrite)
        ensures
            w == (RegisterWrite { address: DWT_CYCCNT, value: 0 }),
    {
        RegisterWrite { address: DWT_CYCCNT, value: 0 }
    }
}

/// A cycle counter that only moves when told to; it wraps like the hardware
/// counter.
#[derive(Clone, Copy, Debug, Default, PartialEq, Eq, Structural)]
pub struct ManualCycleCounter {
    now_cycles: u32,
}

impl ManualCycleCounter {
    pub fn new(now_cycles: u32) -> (c: Self)
        ensures
            c.spec_now() == now_cycles,
    {
        Self { now_cycles }
    }

    pub fn set(&mut self, now_cycles: u32)
        ensures
            final(self).spec_now() == now_cycles,
    {
        self.now_cycles = now_cycles;
    }

    pub fn advance(&mut self, cycles: u32)
        ensures
            final(self).spec_now() == (old(self).spec_now() + cycles) % 0x1_0000_0000,
    {
        self.now_cycles = self.now_cycles.wrapping_add(cycles);
    }
}

impl CycleCounter for ManualCycleCounter {
    closed spec fn spec_now(&self) -> u32 {
        self.now_cycles
    }

    fn now(&self) -> (r: u32) {
        self.now_cycles
    }
}

} // verus!
