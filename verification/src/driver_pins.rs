use vstd::prelude::*;

use crate::registers::{set_two_bit_field, RegisterWrite};

verus! {

pub const GPIOC_IDR: usize = 0x4800_0810;
pub const GPIOC_BSRR: usize = 0x4800_0818;

pub const DRIVER_ENABLE_PIN: u32 = 13;
pub const DRIVER_FAULT_PIN: u32 = 14;
pub const DRIVER_ENABLE_BIT: u32 = 0x2000;
pub const DRIVER_FAULT_BIT: u32 = 0x4000;

pub const GPIO_MODE_INPUT: u32 = 0;
pub const GPIO_MODE_OUTPUT: u32 = 1;
pub const GPIO_SPEED_LOW: u32 = 0;
pub const GPIO_PULL_NONE: u32 = 0;
pub const GPIO_PULL_UP: u32 = 1;

/// The DRV8323S's enable output and its (active low) fault input.
#[derive(Clone, Copy, Debug, Default, PartialEq, Eq, Structural)]
pub struct DriverPinStatus {
    pub enabled: bool,
    pub faulted: bool,
}

/// The mode, speed and pull register values of the driver pins.
#[derive(Clone, Copy, Debug, PartialEq, Eq, Structural)]
pub struct PinConfig {
    pub moder: u32,
    pub ospeedr: u32,
    pub pupdr: u32,
}

/// `config` with pin `pin` set to `mode`, `speed` and `pull`; every other pin
/// is kept.
pub open spec fn spec_pin_configured(
    before: PinConfig,
    after: PinConfig,
    pin: u32,
    mode: u32,
    speed: u32,
    pull: u32,
) -> bool {
    &&& (after.moder >> (pin * 2)) & 3 == mode
    &&& (after.ospeedr >> (pin * 2)) & 3 == speed
    &&& (after.pupdr >> (pin * 2)) & 3 == pull
    &&& after.moder & !(3u32 << (pin * 2)) == before.moder & !(3u32 << (pin * 2))
    &&& after.ospeedr & !(3u32 << (pin * 2)) == before.ospeedr & !(3u32 << (pin * 2))
    &&& after.pupdr & !(3u32 << (pin * 2)) == before.pupdr & !(3u32 << (pin * 2))
}

fn configure_pin(config: PinConfig, pin: u32, mode: u32, speed: u32, pull: u32) -> (c: PinConfig)
    requires
        pin < 16,
        mode < 4,
        speed < 4,
        pull < 4,
    ensures
        spec_pin_configured(config, c, pin, mode, speed, pull),
{
    PinConfig {
        moder: set_two_bit_field(config.moder, pin, mode),
        ospeedr: set_two_bit_field(config.ospeedr, pin, speed),
        pupdr: set_two_bit_field(config.pupdr, pin, pull),
    }
}

/// The enable pin as a low-speed push-pull output without pull.
pub fn configure_enable_pin(config: PinConfig) -> (c: PinConfig)
    ensures
        spec_pin_configured(
            config,
            c,
            DRIVER_ENABLE_PIN,
            GPIO_MODE_OUTPUT,
            GPIO_SPEED_LOW,
            GPIO_PULL_NONE,
        ),
{
    configure_pin(config, DRIVER_ENABLE_PIN, GPIO_MODE_OUTPUT, GPIO_SPEED_LOW, GPIO_PULL_NONE)
}

/// The fault pin as a low-speed input with pull-up.
pub fn configure_fault_pin(config: PinConfig) -> (c: PinConfig)
    ensures
        spec_pin_configured(
            config,
            c,
            DRIVER_FAULT_PIN,
            GPIO_MODE_INPUT,
            GPIO_SPEED_LOW,
            GPIO_PULL_UP,
        ),
{
    configure_pin(config, DRIVER_FAULT_PIN, GPIO_MODE_INPUT, GPIO_SPEED_LOW, GPIO_PULL_UP)
}

/// The DRV8323S's enable and fault pins.
pub struct MotorDriverPins;

impl MotorDriverPins {
    /// The pins, with the driver to be disabled first.
    pub fn init_motor_hall_disabled() -> (r: (Self, RegisterWrite))
        ensures
            r.1 == (RegisterWrite { address: GPIOC_BSRR, value: 0x2000_0000 }),
    {
        let pins = MotorDriverPins;
        let w = pins.disable();
        (pins, w)
    }

    /// Resets the enable pin: its bit in the upper half of the set/reset
    /// register.
    pub fn disable(&self) -> (w: RegisterWrite)
        ensures
            w == (RegisterWrite { address: GPIOC_BSRR, value: 0x2000_0000 }),
    {
        let v = DRIVER_ENABLE_BIT << 16;
        assert(v == 0x2000_0000) by (bit_vector)
            requires
                v == 0x2000u32 << 16,
        ;
        RegisterWrite { address: GPIOC_BSRR, value: v }
    }

    /// Sets the enable pin.
    pub fn enable(&self) -> (w: RegisterWrite)
        ensures
            w == (RegisterWrite { address: GPIOC_BSRR, value: DRIVER_ENABLE_BIT }),
    {
        RegisterWrite { address: GPIOC_BSRR, value: DRIVER_ENABLE_BIT }
    }

    /// The enable pin is high in the input data register `idr`.
    pub fn is_enabled(&self, idr: u32) -> (b: bool)
        ensures
            b == (idr & DRIVER_ENABLE_BIT != 0),
    {
        idr & DRIVER_ENABLE_BIT != 0
    }

    /// The fault pin is low (the driver pulls it down on a fault).
    pub fn is_faulted(&self, idr: u32) -> (b: bool)
        ensures
            b == (idr & DRIVER_FAULT_BIT == 0),
    {
        idr & DRIVER_FAULT_BIT == 0
    }

    pub fn status(&self, idr: u32) -> (s: DriverPinStatus)
        ensures
            s == (DriverPinStatus {
                enabled: idr & DRIVER_ENABLE_BIT != 0,
                faulted: idr & DRIVER_FAULT_BIT == 0,
            }),
    {
        DriverPinStatus { enabled: self.is_enabled(idr), faulted: self.is_faulted(idr) }
    }
}

} // verus!
