use vstd::prelude::*;

use crate::control::{ControlMode, Fault};
use crate::registers::{four_bit_pin_mask, two_bit_pin_mask, RegisterStep, RegisterWrite};

verus! {

pub const RCC_AHB2ENR: usize = 0x4002_104C;
pub const RCC_APB1ENR1: usize = 0x4002_1058;
pub const RCC_AHB2ENR_GPIOBEN: u32 = 0x2;
pub const RCC_APB1ENR1_TIM4EN: u32 = 0x4;
pub const GPIOB_MODER: usize = 0x4800_0400;
pub const GPIOB_OSPEEDR: usize = 0x4800_0408;
pub const TIM4_CR1: usize = 0x4000_0800;
pub const TIM4_CCMR1: usize = 0x4000_0818;
pub const TIM4_CCMR2: usize = 0x4000_081C;
pub const TIM4_CCER: usize = 0x4000_0820;
pub const TIM4_ARR: usize = 0x4000_082C;
/// Channels 1 and 2 in PWM mode 1 with preload.
pub const TIM4_CCMR1_PWM_CH1_CH2: u32 = 0x6868;
/// Channel 3 in PWM mode 1 with preload.
pub const TIM4_CCMR2_PWM_CH3: u32 = 0x68;
/// Outputs of channels 1, 2 and 3 enabled.
pub const TIM4_CCER_CH1_CH2_CH3: u32 = 0x111;
pub const TIM_CR1_CEN: u32 = 0x1;

pub const LED_RED_PIN: u32 = 6;
pub const LED_GREEN_PIN: u32 = 7;
pub const LED_BLUE_PIN: u32 = 8;
pub const GPIO_MODE_ALT: u32 = 2;
pub const GPIO_SPEED_VERY_HIGH: u32 = 3;
pub const GPIO_AF2_TIM4: u32 = 2;

pub const GPIOB_BASE: usize = 0x4800_0400;
pub const GPIOB_AFRL: usize = 0x4800_0420;
pub const GPIOB_AFRH: usize = 0x4800_0424;

pub const TIM4_CCR1: usize = 0x4000_0834;
pub const TIM4_CCR2: usize = 0x4000_0838;
pub const TIM4_CCR3: usize = 0x4000_083C;

/// The timer period, which is also the full-brightness compare value.
pub const LED_PERIOD_COUNTS: u16 = 65_535;
/// How often `StatusLed::update` runs.
pub const LED_UPDATE_HZ: u16 = 10_000;
pub const LED_DEFAULT_RATE_HZ: u16 = 1;
pub const LED_FAULT_RATE_HZ: u16 = 2;
pub const LED_COLOR_SCALE: u32 = 255;
pub const LED_COMPARE_SCALE: u32 = 65_535;

/// A compare channel of the LED timer.
#[derive(Clone, Copy, Debug, PartialEq, Eq, Structural)]
pub enum LedChannel {
    Ch1,
    Ch2,
    Ch3,
}

/// Which timer channel drives each colour.
#[derive(Clone, Copy, Debug, PartialEq, Eq, Structural)]
pub struct LedChannelMap {
    pub red: LedChannel,
    pub green: LedChannel,
    pub blue: LedChannel,
}

impl LedChannelMap {
    /// The usual wiring: red, green and blue on channels 1, 2 and 3.
    pub fn motor_hall_default() -> (m: Self)
        ensures
            m == (LedChannelMap { red: LedChannel::Ch1, green: LedChannel::Ch2, blue: LedChannel::Ch3 }),
    {
        LedChannelMap { red: LedChannel::Ch1, green: LedChannel::Ch2, blue: LedChannel::Ch3 }
    }

    /// The board revision with green and blue swapped.
    pub fn motor_hall_r0_r4_mr0p() -> (m: Self)
        ensures
            m == (LedChannelMap { red: LedChannel::Ch1, green: LedChannel::Ch3, blue: LedChannel::Ch2 }),
    {
        LedChannelMap { red: LedChannel::Ch1, green: LedChannel::Ch3, blue: LedChannel::Ch2 }
    }
}

/// The colours the status LED shows.
#[derive(Clone, Copy, Debug, PartialEq, Eq, Structural)]
pub enum LedColor {
    Red,
    Azure,
    Blue,
    Rose,
}

/// The red, green and blue levels of a colour, out of 255.
pub open spec fn spec_rgb(color: LedColor) -> Seq<u8> {
    match color {
        LedColor::Red => seq![255u8, 0u8, 0u8],
        LedColor::Azure => seq![0u8, 128u8, 255u8],
        LedColor::Blue => seq![0u8, 0u8, 255u8],
        LedColor::Rose => seq![255u8, 0u8, 128u8],
    }
}

impl LedColor {
    pub fn rgb(self) -> (c: [u8; 3])
        ensures
            c@ == spec_rgb(self),
    {
        let c = match self {
            LedColor::Red => [255u8, 0u8, 0u8],
            LedColor::Azure => [0u8, 128u8, 255u8],
            LedColor::Blue => [0u8, 0u8, 255u8],
            LedColor::Rose => [255u8, 0u8, 128u8],
        };
        assert(c@ =~= spec_rgb(self));
        c
    }
}

/// The compare register of a timer channel.
pub open spec fn spec_channel_compare_register(channel: LedChannel) -> usize {
    match channel {
        LedChannel::Ch1 => TIM4_CCR1,
        LedChannel::Ch2 => TIM4_CCR2,
        LedChannel::Ch3 => TIM4_CCR3,
    }
}

pub fn channel_compare_register(channel: LedChannel) -> (a: usize)
    ensures
        a == spec_channel_compare_register(channel),
{
    match channel {
        LedChannel::Ch1 => TIM4_CCR1,
        LedChannel::Ch2 => TIM4_CCR2,
        LedChannel::Ch3 => TIM4_CCR3,
    }
}

/// The alternate function register of pin `pin` and the pin's index in it.
pub fn led_pin_afr(pin: u32) -> (r: (usize, u32))
    ensures
        r.0 == (if pin < 8 {
            GPIOB_AFRL
        } else {
            GPIOB_AFRH
        }),
        r.1 == pin % 8,
{
    let afr = if pin < 8 {
        GPIOB_AFRL
    } else {
        GPIOB_AFRH
    };
    (afr, pin % 8)
}

/// The phase advance per update for a blink rate of `rate_hz` (0 counts as
/// 1 Hz): the rate as a fraction of the update rate, in units of 2^-32 of a
/// cycle, kept to 32 bits.
pub open spec fn spec_rate_phase_step(rate_hz: u16) -> u32 {
    let rate: int = if rate_hz == 0 {
        1
    } else {
        rate_hz as int
    };
    ((0x1_0000_0000 * rate) / (LED_UPDATE_HZ as int)) as u32
}

pub fn rate_phase_step(rate_hz: u16) -> (step: u32)
    ensures
        step == spec_rate_phase_step(rate_hz),
{
    let rate: u64 = if rate_hz == 0 {
        1
    } else {
        rate_hz as u64
    };
    let scaled: u64 = 0x1_0000_0000u64 * rate / (LED_UPDATE_HZ as u64);
    scaled as u32
}

/// The triangle wave of the phase: rising from 0 over the first half cycle,
/// falling back over the second, peaking at 65534.
pub open spec fn spec_triangle(phase: u32) -> int {
    let ramp: int = phase as int / 0x1_0000;
    if ramp < 32_768 {
        ramp * 2
    } else {
        (65_535 - ramp) * 2
    }
}

/// The brightness at `phase`: the cube of the triangle wave, scaled to the
/// compare range, with each product divided down as the firmware does it.
pub open spec fn spec_pulse_compare(phase: u32) -> int {
    let t = spec_triangle(phase);
    ((t * t) / (LED_COMPARE_SCALE as int)) * t / (LED_COMPARE_SCALE as int)
}

pub fn pulse_compare(phase: u32) -> (c: u16)
    ensures
        c == spec_pulse_compare(phase),
{
    let ramp = phase >> 16;
    assert(ramp == phase / 0x1_0000) by (bit_vector)
        requires
            ramp == phase >> 16,
    ;
    let triangle: u32 = if ramp < 32_768 {
        ramp * 2
    } else {
        (65_535 - ramp) * 2
    };
    assert(triangle == spec_triangle(phase));
    assert(triangle * triangle <= 65_534 * 65_534) by (nonlinear_arith)
        requires
            triangle <= 65_534,
    ;
    let squared = triangle * triangle / LED_COMPARE_SCALE;
    assert(squared <= 65_534) by (nonlinear_arith)
        requires
            squared == triangle * triangle / 65_535,
            triangle <= 65_534,
    ;
    assert(squared * triangle <= 65_534 * 65_534) by (nonlinear_arith)
        requires
            squared <= 65_534,
            triangle <= 65_534,
    ;
    let cubed = squared * triangle / LED_COMPARE_SCALE;
    assert(cubed <= 65_534) by (nonlinear_arith)
        requires
            cubed == squared * triangle / 65_535,
            squared * triangle <= 65_534 * 65_534,
    ;
    cubed as u16
}

proof fn lemma_cube_ordered(a: int, b: int)
    requires
        0 <= a <= b <= 65_534,
    ensures
        0 <= ((a * a) / 65_535) * a / 65_535 <= ((b * b) / 65_535) * b / 65_535 <= 65_534,
{
    let sa = (a * a) / 65_535;
    let sb = (b * b) / 65_535;
    assert(0 <= sa <= sb <= 65_534) by (nonlinear_arith)
        requires
            0 <= a <= b <= 65_534,
            sa == (a * a) / 65_535,
            sb == (b * b) / 65_535,
    ;
    assert(0 <= sa * a / 65_535 <= sb * b / 65_535 <= 65_534) by (nonlinear_arith)
        requires
            0 <= a <= b <= 65_534,
            0 <= sa <= sb <= 65_534,
    ;
}

/// The pulse starts dark at phase 0, never exceeds the compare range,
/// brightens over the first half of the cycle and dims over the second.
pub proof fn lemma_pulse_shape(p: u32, q: u32)
    ensures
        spec_pulse_compare(0) == 0,
        0 <= spec_pulse_compare(p) <= 65_534,
        p <= q < 0x8000_0000 ==> spec_pulse_compare(p) <= spec_pulse_compare(q),
        0x8000_0000 <= p <= q ==> spec_pulse_compare(q) <= spec_pulse_compare(p),
{
    assert(spec_triangle(0) == 0);
    let tp = spec_triangle(p);
    let tq = spec_triangle(q);
    lemma_cube_ordered(tp, tp);
    if p <= q < 0x8000_0000 {
        lemma_cube_ordered(tp, tq);
    }
    if 0x8000_0000 <= p <= q {
        lemma_cube_ordered(tq, tp);
    }
}

/// A colour level out of 255 scaled to the compare range at `intensity`.
pub open spec fn spec_scale_color(channel: u8, intensity: u16) -> int {
    (channel as int) * (intensity as int) / (LED_COLOR_SCALE as int)
}

pub fn scale_color(channel: u8, intensity: u16) -> (v: u16)
    ensures
        v == spec_scale_color(channel, intensity),
{
    let c = channel as u32;
    let i = intensity as u32;
    assert(c * i <= 255 * 65_535) by (nonlinear_arith)
        requires
            c <= 255,
            i <= 65_535,
    ;
    let product = c * i;
    let scaled = product / LED_COLOR_SCALE;
    assert(scaled <= 65_535) by (nonlinear_arith)
        requires
            scaled == product / 255,
            product <= 255 * 65_535,
    ;
    scaled as u16
}

/// The colour and blink rate for the controller's state: red and fast when
/// faulted, otherwise azure when idle, rose in torque mode and blue in
/// velocity or position mode, at the default rate.
pub open spec fn spec_led_status(fault: Option<Fault>, mode: ControlMode) -> (LedColor, u16) {
    if fault is Some {
        (LedColor::Red, LED_FAULT_RATE_HZ)
    } else {
        match mode {
            ControlMode::Disabled | ControlMode::ClearFaults => (LedColor::Azure, LED_DEFAULT_RATE_HZ),
            ControlMode::Torque => (LedColor::Rose, LED_DEFAULT_RATE_HZ),
            ControlMode::Velocity | ControlMode::Position => (LedColor::Blue, LED_DEFAULT_RATE_HZ),
        }
    }
}

pub fn led_status_for_state(fault: Option<Fault>, mode: ControlMode) -> (r: (LedColor, u16))
    ensures
        r == spec_led_status(fault, mode),
{
    if fault.is_some() {
        return (LedColor::Red, LED_FAULT_RATE_HZ);
    }
    match mode {
        ControlMode::Disabled | ControlMode::ClearFaults => (LedColor::Azure, LED_DEFAULT_RATE_HZ),
        ControlMode::Torque => (LedColor::Rose, LED_DEFAULT_RATE_HZ),
        ControlMode::Velocity | ControlMode::Position => (LedColor::Blue, LED_DEFAULT_RATE_HZ),
    }
}

/// A faulted controller blinks red, (255, 0, 0), at 2 Hz; a healthy one
/// blinks at 1 Hz, azure (0, 128, 255) when disabled or clearing faults,
/// rose (255, 0, 128) in torque mode and blue (0, 0, 255) in velocity or
/// position mode.
pub proof fn lemma_led_status_colours(fault: Option<Fault>, mode: ControlMode)
    ensures
        ({
            let (color, rate) = spec_led_status(fault, mode);
            let rgb = spec_rgb(color);
            &&& fault is Some ==> rgb == seq![255u8, 0u8, 0u8] && rate == 2
            &&& fault is None ==> rate == 1
            &&& fault is None && (mode == ControlMode::Disabled || mode == ControlMode::ClearFaults)
                ==> rgb == seq![0u8, 128u8, 255u8]
            &&& fault is None && mode == ControlMode::Torque ==> rgb == seq![255u8, 0u8, 128u8]
            &&& fault is None && (mode == ControlMode::Velocity || mode == ControlMode::Position)
                ==> rgb == seq![0u8, 0u8, 255u8]
        }),
{
}

/// What the status LED holds: its wiring, its colour, where it is in the
/// blink cycle and how far each update moves it.
pub struct StatusLedView {
    pub channels: LedChannelMap,
    pub color: LedColor,
    pub phase: u32,
    pub phase_step: u32,
}

/// A status LED that pulses one colour at a set rate.
pub struct StatusLed {
    channels: LedChannelMap,
    color: LedColor,
    phase: u32,
    phase_step: u32,
}

/// The three compare writes that show levels `red`, `green` and `blue` on
/// the channels of `channels`, in that order.
pub open spec fn spec_rgb_writes(channels: LedChannelMap, red: u16, green: u16, blue: u16) -> Seq<
    RegisterWrite,
> {
    seq![
        RegisterWrite { address: spec_channel_compare_register(channels.red), value: red as u32 },
        RegisterWrite {
            address: spec_channel_compare_register(channels.green),
            value: green as u32,
        },
        RegisterWrite { address: spec_channel_compare_register(channels.blue), value: blue as u32 },
    ]
}

/// Each colour level goes to the compare register of the channel that
/// drives that colour: on the usual wiring red, green and blue to channels
/// 1, 2 and 3 (TIM4 CCR1 to CCR3), on the board with green and blue
/// swapped green to channel 3 and blue to channel 2.
pub proof fn lemma_rgb_write_registers(red: u16, green: u16, blue: u16)
    ensures
        spec_rgb_writes(
            LedChannelMap { red: LedChannel::Ch1, green: LedChannel::Ch2, blue: LedChannel::Ch3 },
            red,
            green,
            blue,
        ) == seq![
            RegisterWrite { address: 0x4000_0834usize, value: red as u32 },
            RegisterWrite { address: 0x4000_0838usize, value: green as u32 },
            RegisterWrite { address: 0x4000_083Cusize, value: blue as u32 },
        ],
        spec_rgb_writes(
            LedChannelMap { red: LedChannel::Ch1, green: LedChannel::Ch3, blue: LedChannel::Ch2 },
            red,
            green,
            blue,
        ) == seq![
            RegisterWrite { address: 0x4000_0834usize, value: red as u32 },
            RegisterWrite { address: 0x4000_083Cusize, value: green as u32 },
            RegisterWrite { address: 0x4000_0838usize, value: blue as u32 },
        ],
{
    assert(spec_rgb_writes(
        LedChannelMap { red: LedChannel::Ch1, green: LedChannel::Ch2, blue: LedChannel::Ch3 },
        red,
        green,
        blue,
    ) =~= seq![
        RegisterWrite { address: 0x4000_0834usize, value: red as u32 },
        RegisterWrite { address: 0x4000_0838usize, value: green as u32 },
        RegisterWrite { address: 0x4000_083Cusize, value: blue as u32 },
    ]);
    assert(spec_rgb_writes(
        LedChannelMap { red: LedChannel::Ch1, green: LedChannel::Ch3, blue: LedChannel::Ch2 },
        red,
        green,
        blue,
    ) =~= seq![
        RegisterWrite { address: 0x4000_0834usize, value: red as u32 },
        RegisterWrite { address: 0x4000_083Cusize, value: green as u32 },
        RegisterWrite { address: 0x4000_0838usize, value: blue as u32 },
    ]);
}

/// The writes that show `color` at the brightness of `phase`.
pub open spec fn spec_pulse_writes(channels: LedChannelMap, color: LedColor, phase: u32) -> Seq<
    RegisterWrite,
> {
    let intensity = spec_pulse_compare(phase) as u16;
    spec_rgb_writes(
        channels,
        spec_scale_color(spec_rgb(color)[0], intensity) as u16,
        spec_scale_color(spec_rgb(color)[1], intensity) as u16,
        spec_scale_color(spec_rgb(color)[2], intensity) as u16,
    )
}

/// LED pin `pin` of port B on TIM4 (alternate function 2) at very high
/// speed.
pub open spec fn spec_led_pin<E>(pin: u32) -> Seq<RegisterStep<E>> {
    seq![
        RegisterStep::Modify {
            address: GPIOB_MODER,
            clear: 3u32 << (pin * 2),
            set: GPIO_MODE_ALT << (pin * 2),
        },
        RegisterStep::Modify {
            address: GPIOB_OSPEEDR,
            clear: 3u32 << (pin * 2),
            set: GPIO_SPEED_VERY_HIGH << (pin * 2),
        },
        RegisterStep::Modify {
            address: if pin < 8 {
                GPIOB_AFRL
            } else {
                GPIOB_AFRH
            },
            clear: 15u32 << ((pin % 8) * 4),
            set: GPIO_AF2_TIM4 << ((pin % 8) * 4),
        },
    ]
}

/// The LED hardware bring-up: port B and TIM4 clocked, the three pins on
/// TIM4, the compares at zero, the full 16-bit period, three PWM channels
/// enabled and the timer started.
pub open spec fn spec_led_setup<E>() -> Seq<RegisterStep<E>> {
    seq![
        RegisterStep::Modify { address: RCC_AHB2ENR, clear: 0, set: RCC_AHB2ENR_GPIOBEN },
        RegisterStep::Modify { address: RCC_APB1ENR1, clear: 0, set: RCC_APB1ENR1_TIM4EN },
        RegisterStep::Read { address: RCC_AHB2ENR },
        RegisterStep::Read { address: RCC_APB1ENR1 },
    ] + spec_led_pin(LED_RED_PIN) + spec_led_pin(LED_GREEN_PIN) + spec_led_pin(LED_BLUE_PIN) + seq![
        RegisterStep::Write { address: TIM4_CCR1, value: 0 },
        RegisterStep::Write { address: TIM4_CCR2, value: 0 },
        RegisterStep::Write { address: TIM4_CCR3, value: 0 },
        RegisterStep::Write { address: TIM4_ARR, value: LED_PERIOD_COUNTS as u32 },
        RegisterStep::Write { address: TIM4_CCMR1, value: TIM4_CCMR1_PWM_CH1_CH2 },
        RegisterStep::Write { address: TIM4_CCMR2, value: TIM4_CCMR2_PWM_CH3 },
        RegisterStep::Write { address: TIM4_CCER, value: TIM4_CCER_CH1_CH2_CH3 },
        RegisterStep::Write { address: TIM4_CR1, value: TIM_CR1_CEN },
    ]
}

/// The register writes as programme steps.
pub open spec fn spec_write_steps<E>(w: Seq<RegisterWrite>) -> Seq<RegisterStep<E>> {
    w.map_values(|x: RegisterWrite| RegisterStep::Write { address: x.address, value: x.value })
}

/// The bring-up followed by the writes that leave every channel dark.
pub open spec fn spec_led_init<E>(channels: LedChannelMap) -> Seq<RegisterStep<E>> {
    spec_led_setup() + spec_write_steps(spec_rgb_writes(channels, 0, 0, 0))
}

fn push_led_pin<E>(steps: &mut Vec<RegisterStep<E>>, pin: u32)
    requires
        pin < 16,
    ensures
        final(steps)@ == old(steps)@ + spec_led_pin::<E>(pin),
{
    let ghost before = steps@;
    steps.push(
        RegisterStep::Modify {
            address: GPIOB_MODER,
            clear: two_bit_pin_mask(pin),
            set: GPIO_MODE_ALT << (pin * 2),
        },
    );
    steps.push(
        RegisterStep::Modify {
            address: GPIOB_OSPEEDR,
            clear: two_bit_pin_mask(pin),
            set: GPIO_SPEED_VERY_HIGH << (pin * 2),
        },
    );
    let (afr, afr_pin) = led_pin_afr(pin);
    steps.push(
        RegisterStep::Modify {
            address: afr,
            clear: four_bit_pin_mask(afr_pin),
            set: GPIO_AF2_TIM4 << (afr_pin * 4),
        },
    );
    assert(steps@ =~= before + spec_led_pin::<E>(pin));
}

fn led_init_steps<E>(channels: LedChannelMap) -> (steps: Vec<RegisterStep<E>>)
    ensures
        steps@ == spec_led_init::<E>(channels),
{
    let mut steps: Vec<RegisterStep<E>> = Vec::new();
    steps.push(RegisterStep::Modify { address: RCC_AHB2ENR, clear: 0, set: RCC_AHB2ENR_GPIOBEN });
    steps.push(RegisterStep::Modify { address: RCC_APB1ENR1, clear: 0, set: RCC_APB1ENR1_TIM4EN });
    steps.push(RegisterStep::Read { address: RCC_AHB2ENR });
    steps.push(RegisterStep::Read { address: RCC_APB1ENR1 });
    push_led_pin(&mut steps, LED_RED_PIN);
    push_led_pin(&mut steps, LED_GREEN_PIN);
    push_led_pin(&mut steps, LED_BLUE_PIN);
    steps.push(RegisterStep::Write { address: TIM4_CCR1, value: 0 });
    steps.push(RegisterStep::Write { address: TIM4_CCR2, value: 0 });
    steps.push(RegisterStep::Write { address: TIM4_CCR3, value: 0 });
    steps.push(RegisterStep::Write { address: TIM4_ARR, value: LED_PERIOD_COUNTS as u32 });
    steps.push(RegisterStep::Write { address: TIM4_CCMR1, value: TIM4_CCMR1_PWM_CH1_CH2 });
    steps.push(RegisterStep::Write { address: TIM4_CCMR2, value: TIM4_CCMR2_PWM_CH3 });
    steps.push(RegisterStep::Write { address: TIM4_CCER, value: TIM4_CCER_CH1_CH2_CH3 });
    steps.push(RegisterStep::Write { address: TIM4_CR1, value: TIM_CR1_CEN });
    assert(steps@ =~= spec_led_setup::<E>());
    let ghost setup = steps@;
    let red = channel_compare_register(channels.red);
    let green = channel_compare_register(channels.green);
    let blue = channel_compare_register(channels.blue);
    steps.push(RegisterStep::Write { address: red, value: 0 });
    steps.push(RegisterStep::Write { address: green, value: 0 });
    steps.push(RegisterStep::Write { address: blue, value: 0 });
    assert(spec_write_steps::<E>(spec_rgb_writes(channels, 0, 0, 0)) =~= steps@.subrange(
        setup.len() as int,
        steps@.len() as int,
    ));
    assert(steps@ =~= spec_led_init::<E>(channels));
    steps
}

impl View for StatusLed {
    type V = StatusLedView;

    closed spec fn view(&self) -> StatusLedView {
        StatusLedView {
            channels: self.channels,
            color: self.color,
            phase: self.phase,
            phase_step: self.phase_step,
        }
    }
}

impl StatusLed {
    /// The LED on the default wiring, set to azure at the default rate, with
    /// the programme that brings up its timer and leaves it dark.
    pub fn init_motor_hall<E>() -> (r: (Self, Vec<RegisterStep<E>>))
        ensures
            r.1@ == spec_led_init::<E>(LedChannelMap {
                red: LedChannel::Ch1,
                green: LedChannel::Ch2,
                blue: LedChannel::Ch3,
            }),
            r.0@ == (StatusLedView {
                channels: LedChannelMap {
                    red: LedChannel::Ch1,
                    green: LedChannel::Ch2,
                    blue: LedChannel::Ch3,
                },
                color: LedColor::Azure,
                phase: 0,
                phase_step: spec_rate_phase_step(LED_DEFAULT_RATE_HZ),
            }),
    {
        Self::init_with_channels(LedChannelMap::motor_hall_default())
    }

    /// The LED on the swapped wiring, set to azure at the default rate, with
    /// the programme that brings up its timer and leaves it dark.
    pub fn init_motor_hall_r0_r4_mr0p<E>() -> (r: (Self, Vec<RegisterStep<E>>))
        ensures
            r.1@ == spec_led_init::<E>(LedChannelMap {
                red: LedChannel::Ch1,
                green: LedChannel::Ch3,
                blue: LedChannel::Ch2,
            }),
            r.0@ == (StatusLedView {
                channels: LedChannelMap {
                    red: LedChannel::Ch1,
                    green: LedChannel::Ch3,
                    blue: LedChannel::Ch2,
                },
                color: LedColor::Azure,
                phase: 0,
                phase_step: spec_rate_phase_step(LED_DEFAULT_RATE_HZ),
            }),
    {
        Self::init_with_channels(LedChannelMap::motor_hall_r0_r4_mr0p())
    }

    /// The LED on `channels`, set to azure at the default rate, with the
    /// programme that brings up its timer and leaves it dark.
    pub fn init_with_channels<E>(channels: LedChannelMap) -> (r: (Self, Vec<RegisterStep<E>>))
        ensures
            r.1@ == spec_led_init::<E>(channels),
            r.0@ == (StatusLedView {
                channels,
                color: LedColor::Azure,
                phase: 0,
                phase_step: spec_rate_phase_step(LED_DEFAULT_RATE_HZ),
            }),
    {
        let led = StatusLed {
            channels,
            color: LedColor::Azure,
            phase: 0,
            phase_step: rate_phase_step(LED_DEFAULT_RATE_HZ),
        };
        (led, led_init_steps(channels))
    }

    /// Takes the colour and rate from the controller's state, then advances
    /// one update.
    pub fn update_for_state(&mut self, fault: Option<Fault>, mode: ControlMode) -> (w: [RegisterWrite; 3])
        ensures
            final(self)@.channels == old(self)@.channels,
            final(self)@.color == spec_led_status(fault, mode).0,
            final(self)@.phase_step == spec_rate_phase_step(spec_led_status(fault, mode).1),
            final(self)@.phase == (old(self)@.phase + final(self)@.phase_step) % 0x1_0000_0000,
            w@ == spec_pulse_writes(final(self)@.channels, final(self)@.color, final(self)@.phase),
    {
        let (color, rate_hz) = led_status_for_state(fault, mode);
        self.set_color(color);
        self.set_rate_hz(rate_hz);
        self.update()
    }

    pub fn set_color(&mut self, color: LedColor)
        ensures
            final(self)@ == (StatusLedView { color, ..old(self)@ }),
    {
        self.color = color;
    }

    pub fn set_rate_hz(&mut self, rate_hz: u16)
        ensures
            final(self)@ == (StatusLedView { phase_step: spec_rate_phase_step(rate_hz), ..old(self)@ }),
    {
        self.phase_step = rate_phase_step(rate_hz);
    }

    /// Advances the phase by one step, wrapping, and gives the compare writes
    /// for the new brightness.
    pub fn update(&mut self) -> (w: [RegisterWrite; 3])
        ensures
            final(self)@ == (StatusLedView {
                phase: ((old(self)@.phase + old(self)@.phase_step) % 0x1_0000_0000) as u32,
                ..old(self)@
            }),
            w@ == spec_pulse_writes(final(self)@.channels, final(self)@.color, final(self)@.phase),
    {
        self.phase = self.phase.wrapping_add(self.phase_step);
        let intensity = pulse_compare(self.phase);
        let rgb = self.color.rgb();
        self.set_rgb_raw(
            scale_color(rgb[0], intensity),
            scale_color(rgb[1], intensity),
            scale_color(rgb[2], intensity),
        )
    }

    /// The compare writes that show the raw levels given.
    pub fn set_rgb_raw(&self, red: u16, green: u16, blue: u16) -> (w: [RegisterWrite; 3])
        ensures
            w@ == spec_rgb_writes(self@.channels, red, green, blue),
    {
        let w = [
            RegisterWrite { address: channel_compare_register(self.channels.red), value: red as u32 },
            RegisterWrite {
                address: channel_compare_register(self.channels.green),
                value: green as u32,
            },
            RegisterWrite {
                address: channel_compare_register(self.channels.blue),
                value: blue as u32,
            },
        ];
        assert(w@ =~= spec_rgb_writes(self@.channels, red, green, blue));
        w
    }

    pub fn channels(&self) -> (c: LedChannelMap)
        ensures
            c == self@.channels,
    {
        self.channels
    }
}

} // verus!
