use obot::control::{first_fault, CommandChecks, ControlMode, Fault};
use obot::outer_loop::{OuterLoopMode, OuterLoopStep};
use obot::power::RawBusWindow;

fn checks(finite: bool, torque: bool, velocity: bool, position: bool) -> CommandChecks {
    CommandChecks {
        finite,
        torque_within: torque,
        velocity_within: velocity,
        position_within: position,
    }
}

#[test]
fn first_failed_check_names_the_fault() {
    assert_eq!(first_fault(checks(true, true, true, true)), None);
    assert_eq!(first_fault(checks(false, false, false, false)), Some(Fault::CommandNotFinite));
    assert_eq!(first_fault(checks(true, false, false, true)), Some(Fault::TorqueLimit));
    assert_eq!(first_fault(checks(true, true, false, false)), Some(Fault::VelocityLimit));
    assert_eq!(first_fault(checks(true, true, true, false)), Some(Fault::PositionLimit));
}

#[test]
fn outer_loop_starts_once_per_mode() {
    let mut m = OuterLoopMode::new();
    assert_eq!(m.step(ControlMode::Disabled, false), OuterLoopStep::Idle);
    assert_eq!(m.step(ControlMode::Velocity, false), OuterLoopStep::Start(ControlMode::Velocity));
    assert_eq!(m.step(ControlMode::Velocity, false), OuterLoopStep::Run(ControlMode::Velocity));
    assert_eq!(m.step(ControlMode::Position, false), OuterLoopStep::Start(ControlMode::Position));
    assert_eq!(m.step(ControlMode::Position, true), OuterLoopStep::Idle);
    assert_eq!(m.step(ControlMode::Position, false), OuterLoopStep::Start(ControlMode::Position));
    assert_eq!(m.step(ControlMode::ClearFaults, false), OuterLoopStep::Idle);
    assert_eq!(m, OuterLoopMode { last_mode: ControlMode::Disabled, initialized: false });
}

#[test]
fn raw_bus_window_includes_its_ends() {
    let w = RawBusWindow::motor_hall();
    assert!(!w.allows_output_raw(594));
    assert!(w.allows_output_raw(595));
    assert!(w.allows_output_raw(4095));
    let narrow = RawBusWindow { min_raw: 10, max_raw: 20 };
    assert!(!narrow.allows_output_raw(21));
}
