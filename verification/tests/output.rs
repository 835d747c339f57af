use obot::output::{OutputSafety, OutputSafetyInputs, OutputSafetyStatus};

fn allowed_inputs() -> OutputSafetyInputs {
    OutputSafetyInputs {
        command_allows_output: true,
        bus_allows_output: true,
        driver_enabled: true,
        driver_faulted: false,
        controller_faulted: false,
    }
}

#[test]
fn permits_output_only_when_every_gate_allows_it() {
    let mut safety = OutputSafety::new();
    assert!(safety.update(allowed_inputs()).output_allowed);

    let mut inputs = allowed_inputs();
    inputs.command_allows_output = false;
    assert_eq!(
        safety.update(inputs),
        OutputSafetyStatus {
            output_allowed: false,
            command_blocked: true,
            ..OutputSafetyStatus::default()
        }
    );

    let mut inputs = allowed_inputs();
    inputs.bus_allows_output = false;
    assert!(safety.update(inputs).bus_blocked);

    let mut inputs = allowed_inputs();
    inputs.driver_enabled = false;
    assert!(safety.update(inputs).driver_not_enabled);

    let mut inputs = allowed_inputs();
    inputs.controller_faulted = true;
    assert!(safety.update(inputs).controller_faulted);
}

#[test]
fn latches_driver_fault_until_explicitly_cleared() {
    let mut safety = OutputSafety::new();
    let mut inputs = allowed_inputs();
    inputs.driver_faulted = true;

    let faulted = safety.update(inputs);
    assert!(!faulted.output_allowed);
    assert!(faulted.driver_fault_latched);

    let still_faulted = safety.update(allowed_inputs());
    assert!(!still_faulted.output_allowed);
    assert!(still_faulted.driver_fault_latched);

    safety.clear_latched_driver_fault();
    assert!(safety.update(allowed_inputs()).output_allowed);
}

#[test]
fn update_never_reports_a_host_timeout() {
    let mut safety = OutputSafety::new();
    let status = safety.update(OutputSafetyInputs::default());
    assert!(!status.host_timed_out);
    assert!(!status.output_allowed);
    assert!(status.command_blocked && status.bus_blocked && status.driver_not_enabled);
}
