use vstd::prelude::*;

verus! {

/// The ADC count that stands for zero current: the middle of the 12-bit
/// range.
pub const ADC_MIDSCALE: u16 = 2048;

/// Raw ADC counts of the three phase currents.
#[derive(Clone, Copy, Debug, Default, PartialEq, Eq, Structural)]
pub struct RawCurrentSamples {
    pub phase_a: u16,
    pub phase_b: u16,
    pub phase_c: u16,
}

/// Phase current counts measured from mid-scale; the calibration scales
/// these by each phase's gain.
#[derive(Clone, Copy, Debug, Default, PartialEq, Eq, Structural)]
pub struct CenteredCurrentCounts {
    pub phase_a: i32,
    pub phase_b: i32,
    pub phase_c: i32,
}

impl RawCurrentSamples {
    /// Each count less mid-scale.
    pub fn centered(self) -> (c: CenteredCurrentCounts)
        ensures
            c.phase_a == self.phase_a - ADC_MIDSCALE,
            c.phase_b == self.phase_b - ADC_MIDSCALE,
            c.phase_c == self.phase_c - ADC_MIDSCALE,
    {
        CenteredCurrentCounts {
            phase_a: self.phase_a as i32 - ADC_MIDSCALE as i32,
            phase_b: self.phase_b as i32 - ADC_MIDSCALE as i32,
            phase_c: self.phase_c as i32 - ADC_MIDSCALE as i32,
        }
    }
}

} // verus!
