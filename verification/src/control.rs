use vstd::prelude::*;

verus! {

/// What the motor is being asked to do.
#[derive(Clone, Copy, Debug, Default, PartialEq, Eq, Structural)]
pub enum ControlMode {
    #[default]
    Disabled,
    Torque,
    Velocity,
    Position,
    ClearFaults,
}

/// Why a command was rejected.
#[derive(Clone, Copy, Debug, PartialEq, Eq, Structural)]
pub enum Fault {
    CommandNotFinite,
    TorqueLimit,
    VelocityLimit,
    PositionLimit,
}

/// The outcome of each check that a command must pass, in the order the
/// controller makes them.
#[derive(Clone, Copy, Debug, PartialEq, Eq, Structural)]
pub struct CommandChecks {
    /// Torque, velocity and position are all finite.
    pub finite: bool,
    /// The torque's magnitude is within its limit.
    pub torque_within: bool,
    /// The velocity's magnitude is within its limit.
    pub velocity_within: bool,
    /// The position lies in the allowed range.
    pub position_within: bool,
}

pub open spec fn spec_first_fault(c: CommandChecks) -> Option<Fault> {
    if !c.finite {
        Some(Fault::CommandNotFinite)
    } else if !c.torque_within {
        Some(Fault::TorqueLimit)
    } else if !c.velocity_within {
        Some(Fault::VelocityLimit)
    } else if !c.position_within {
        Some(Fault::PositionLimit)
    } else {
        None
    }
}

/// The fault a command is rejected with: that of the first check it fails,
/// none when it passes them all.
pub fn first_fault(checks: CommandChecks) -> (f: Option<Fault>)
    ensures
        f == spec_first_fault(checks),
        f is None <==> (checks.finite && checks.torque_within && checks.velocity_within
            && checks.position_within),
{
    if !checks.finite {
        Some(Fault::CommandNotFinite)
    } else if !checks.torque_within {
        Some(Fault::TorqueLimit)
    } else if !checks.velocity_within {
        Some(Fault::VelocityLimit)
    } else if !checks.position_within {
        Some(Fault::PositionLimit)
    } else {
        None
    }
}

/// The checks are made in order and the first that fails names the fault:
/// a command that is not finite is refused as such whatever its values; a
/// finite one over the torque limit is refused for torque, then velocity,
/// then position; only a command that passes every check has no fault.
pub proof fn lemma_first_failed_check_decides(c: CommandChecks)
    ensures
        !c.finite ==> spec_first_fault(c) == Some(Fault::CommandNotFinite),
        c.finite && !c.torque_within ==> spec_first_fault(c) == Some(Fault::TorqueLimit),
        c.finite && c.torque_within && !c.velocity_within ==> spec_first_fault(c) == Some(
            Fault::VelocityLimit,
        ),
        c.finite && c.torque_within && c.velocity_within && !c.position_within ==> spec_first_fault(
            c,
        ) == Some(Fault::PositionLimit),
        c.finite && c.torque_within && c.velocity_within && c.position_within <==> spec_first_fault(
            c,
        ) == None::<Fault>,
{
}

} // verus!
