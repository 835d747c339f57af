use vstd::prelude::*;

verus! {

/// The lowest bus voltage reading that allows output (8 V through the
/// divider).
pub const MOTOR_HALL_VBUS_MIN_RAW: u16 = 595;
/// The highest reading: the top of the 12-bit range.
pub const MOTOR_HALL_VBUS_MAX_RAW: u16 = 4_095;

/// The range of raw bus voltage readings in which the bridge may drive the
/// motor.
#[derive(Clone, Copy, Debug, PartialEq, Eq, Structural)]
pub struct RawBusWindow {
    pub min_raw: u16,
    pub max_raw: u16,
}

impl RawBusWindow {
    pub fn motor_hall() -> (w: Self)
        ensures
            w == (RawBusWindow { min_raw: MOTOR_HALL_VBUS_MIN_RAW, max_raw: MOTOR_HALL_VBUS_MAX_RAW }),
    {
        RawBusWindow { min_raw: MOTOR_HALL_VBUS_MIN_RAW, max_raw: MOTOR_HALL_VBUS_MAX_RAW }
    }

    /// Whether reading `raw` lies in the window, ends included.
    pub fn allows_output_raw(self, raw: u16) -> (b: bool)
        ensures
            b == (self.min_raw <= raw && raw <= self.max_raw),
    {
        raw >= self.min_raw && raw <= self.max_raw
    }
}

} // verus!
