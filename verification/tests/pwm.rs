use obot::pwm::{
    clamp_compare_counts, deadtime_register, gated_compares, phase_compare_writes,
    timer_register, PhaseCompares, SafeZeroPwm, BridgeOutputStatus, DEADTIME_COUNTS,
    HRTIM_CMP1XR, PWM_MAX_COMPARE, PWM_MIN_COMPARE, PWM_PERIOD, PWM_ZERO_COMPARE, TIMER_D,
    TIMER_E, TIMER_F,
};
use obot::registers::{RegisterStep, RegisterWrite};

#[test]
fn zero_voltage_compares_use_centered_pwm() {
    assert_eq!(
        PhaseCompares::zero_voltage(),
        PhaseCompares {
            phase_a: PWM_ZERO_COMPARE,
            phase_b: PWM_ZERO_COMPARE,
            phase_c: PWM_ZERO_COMPARE,
        }
    );
}

#[test]
fn motor_hall_pwm_counts_match_cpp_shape() {
    assert_eq!(PWM_PERIOD, 54_400);
    assert_eq!(PWM_ZERO_COMPARE, 27_200);
    assert_eq!(DEADTIME_COUNTS, 272);
    assert_eq!(PWM_MIN_COMPARE, 2_720);
    assert_eq!(PWM_MAX_COMPARE, 54_335);
    assert_eq!(deadtime_register(), (272 << 16) | 272);
}

#[test]
fn compares_clamp_to_the_allowed_range() {
    assert_eq!(clamp_compare_counts(34_000, 2_720, 54_335), 34_000);
    assert_eq!(clamp_compare_counts(-100_000, 2_720, 54_335), 2_720);
    assert_eq!(clamp_compare_counts(100_000, 2_720, 54_335), 54_335);
}

#[test]
fn gated_output_falls_back_to_zero_voltage() {
    let commanded = PhaseCompares { phase_a: 1, phase_b: 2, phase_c: 3 };
    assert_eq!(gated_compares(commanded, true), commanded);
    assert_eq!(gated_compares(commanded, false), PhaseCompares::from_compare(PWM_ZERO_COMPARE));
    assert_eq!(
        phase_compare_writes(commanded),
        [
            RegisterWrite { address: timer_register(TIMER_D, HRTIM_CMP1XR), value: 1 },
            RegisterWrite { address: timer_register(TIMER_F, HRTIM_CMP1XR), value: 2 },
            RegisterWrite { address: timer_register(TIMER_E, HRTIM_CMP1XR), value: 3 },
        ]
    );
    assert_eq!(timer_register(TIMER_D, HRTIM_CMP1XR), 0x4001_6800 + 0x80 + 3 * 0x80 + 0x1C);
}

#[test]
fn unarmed_bridge_reports_all_outputs_disabled() {
    let (pwm, steps) = SafeZeroPwm::init_motor_hall::<()>();
    assert_eq!(steps.len(), 3 + 18 + 9);
    assert_eq!(steps[2], RegisterStep::Write { address: 0x4001_6B98, value: 0x0FFF });
    assert_eq!(
        steps[7],
        RegisterStep::Write { address: timer_register(TIMER_D, 0x38), value: (272 << 16) | 272 }
    );
    assert_eq!(steps[29], RegisterStep::Modify { address: 0x4001_6800, clear: 0, set: 0x70_0000 });
    assert_eq!(
        pwm.bridge_output_status(0xFFFF_FFFF),
        BridgeOutputStatus { disable_status: 0x0FC0, all_disabled: true, all_enabled: false }
    );
    assert_eq!(pwm.write_zero_voltage()[1].value, PWM_ZERO_COMPARE);
}
