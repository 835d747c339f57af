use obot::led::{
    channel_compare_register, led_pin_afr, led_status_for_state, pulse_compare, rate_phase_step,
    scale_color, LedChannel, LedChannelMap, LedColor, StatusLed, GPIOB_AFRH, GPIOB_AFRL,
    GPIO_AF2_TIM4, LED_BLUE_PIN, LED_DEFAULT_RATE_HZ, LED_FAULT_RATE_HZ, LED_GREEN_PIN,
    LED_PERIOD_COUNTS, LED_RED_PIN, TIM4_CCR1, TIM4_CCR2, TIM4_CCR3,
};
use obot::registers::{RegisterStep, RegisterWrite};
use obot::{ControlMode, Fault};

#[test]
fn motor_hall_led_pins_match_cpp_setup() {
    assert_eq!(LED_RED_PIN, 6);
    assert_eq!(LED_GREEN_PIN, 7);
    assert_eq!(LED_BLUE_PIN, 8);
    assert_eq!(GPIO_AF2_TIM4, 2);
    assert_eq!(LED_PERIOD_COUNTS, 65_535);
}

#[test]
fn motor_hall_channel_maps_match_cpp_macros() {
    assert_eq!(
        LedChannelMap::motor_hall_default(),
        LedChannelMap {
            red: LedChannel::Ch1,
            green: LedChannel::Ch2,
            blue: LedChannel::Ch3,
        }
    );
    assert_eq!(
        LedChannelMap::motor_hall_r0_r4_mr0p(),
        LedChannelMap {
            red: LedChannel::Ch1,
            green: LedChannel::Ch3,
            blue: LedChannel::Ch2,
        }
    );
}

#[test]
fn channel_registers_are_tim4_ccr1_to_ccr3() {
    assert_eq!(channel_compare_register(LedChannel::Ch1), TIM4_CCR1);
    assert_eq!(channel_compare_register(LedChannel::Ch2), TIM4_CCR2);
    assert_eq!(channel_compare_register(LedChannel::Ch3), TIM4_CCR3);
}

#[test]
fn led_status_tracks_available_control_modes() {
    assert_eq!(
        led_status_for_state(None, ControlMode::default()),
        (LedColor::Azure, LED_DEFAULT_RATE_HZ)
    );
    assert_eq!(
        led_status_for_state(None, ControlMode::Torque),
        (LedColor::Rose, LED_DEFAULT_RATE_HZ)
    );
    assert_eq!(
        led_status_for_state(None, ControlMode::Velocity),
        (LedColor::Blue, LED_DEFAULT_RATE_HZ)
    );
    assert_eq!(
        led_status_for_state(None, ControlMode::Position),
        (LedColor::Blue, LED_DEFAULT_RATE_HZ)
    );
    assert_eq!(
        led_status_for_state(Some(Fault::TorqueLimit), ControlMode::default()),
        (LedColor::Red, LED_FAULT_RATE_HZ)
    );
}

#[test]
fn pulse_compare_matches_cubic_triangle_shape() {
    assert_eq!(pulse_compare(0), 0);
    assert_eq!(pulse_compare(0x4000_0000), 8192);
    assert_eq!(pulse_compare(0x8000_0000), 65_532);
    assert_eq!(pulse_compare(0xC000_0000), 8190);
}

#[test]
fn color_scaling_uses_led_compare_range() {
    assert_eq!(scale_color(255, 65_535), 65_535);
    assert_eq!(scale_color(128, 65_535), 32_896);
    assert_eq!(scale_color(255, 8_191), 8_191);
}

#[test]
fn rates_map_to_phase_steps_with_zero_as_one_hertz() {
    assert_eq!(rate_phase_step(1), 429_496);
    assert_eq!(rate_phase_step(0), rate_phase_step(1));
    assert_eq!(rate_phase_step(2), 858_993);
    assert_eq!(rate_phase_step(10_000), 0);
}

#[test]
fn status_led_pulses_the_state_colour_on_its_channels() {
    let (mut led, steps) = StatusLed::init_motor_hall_r0_r4_mr0p::<()>();
    assert_eq!(steps.len(), 4 + 9 + 8 + 3);
    assert_eq!(steps[21], RegisterStep::Write { address: TIM4_CCR1, value: 0 });
    assert_eq!(steps[22], RegisterStep::Write { address: TIM4_CCR3, value: 0 });
    assert_eq!(steps[12], RegisterStep::Modify { address: GPIOB_AFRH, clear: 0xF, set: 0x2 });
    assert_eq!(led.channels(), LedChannelMap::motor_hall_r0_r4_mr0p());
    assert_eq!(
        led.set_rgb_raw(1, 2, 3),
        [
            RegisterWrite { address: TIM4_CCR1, value: 1 },
            RegisterWrite { address: TIM4_CCR3, value: 2 },
            RegisterWrite { address: TIM4_CCR2, value: 3 },
        ]
    );
    led.set_rate_hz(2_500);
    led.set_color(LedColor::Rose);
    let writes = led.update();
    let intensity = pulse_compare(0x4000_0000);
    assert_eq!(writes[0].value, scale_color(255, intensity) as u32);
    assert_eq!(writes[1].value, 0);
    assert_eq!(writes[2].value, scale_color(128, intensity) as u32);

    let (mut faulted, _) = StatusLed::init_motor_hall::<()>();
    let writes = faulted.update_for_state(Some(Fault::PositionLimit), ControlMode::Torque);
    let intensity = pulse_compare(rate_phase_step(LED_FAULT_RATE_HZ));
    assert_eq!(writes[0], RegisterWrite { address: TIM4_CCR1, value: scale_color(255, intensity) as u32 });
    assert_eq!(writes[1].value, 0);
    assert_eq!(writes[2].value, 0);
}

#[test]
fn led_pins_use_the_low_or_high_alternate_function_register() {
    assert_eq!(led_pin_afr(LED_RED_PIN), (GPIOB_AFRL, 6));
    assert_eq!(led_pin_afr(LED_BLUE_PIN), (GPIOB_AFRH, 0));
    assert_eq!(LedColor::Azure.rgb(), [0, 128, 255]);
}
