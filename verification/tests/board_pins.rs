use obot::driver_pins::{
    configure_enable_pin, configure_fault_pin, DriverPinStatus, MotorDriverPins, PinConfig,
    GPIOC_BSRR,
};
use obot::hall_inputs::{configure_hall_pins, HallInputs, HallPinConfig};
use obot::registers::{
    four_bit_pin_mask, set_four_bit_field, set_two_bit_field, two_bit_pin_mask, RegisterWrite,
};

#[test]
fn register_fields_are_replaced_in_place() {
    assert_eq!(two_bit_pin_mask(11) | two_bit_pin_mask(12), 0x03C0_0000);
    assert_eq!(four_bit_pin_mask(2), 0x0F00);
    assert_eq!(set_two_bit_field(0xFFFF_FFFF, 13, 1), 0xF7FF_FFFF);
    assert_eq!(set_four_bit_field(0, 7, 2), 0x2000_0000);
}

#[test]
fn driver_pins_read_enable_and_active_low_fault() {
    let (pins, first) = MotorDriverPins::init_motor_hall_disabled();
    assert_eq!(first, RegisterWrite { address: GPIOC_BSRR, value: 0x2000_0000 });
    assert_eq!(pins.enable(), RegisterWrite { address: GPIOC_BSRR, value: 0x2000 });
    assert_eq!(pins.disable(), first);
    assert_eq!(pins.status(0x2000), DriverPinStatus { enabled: true, faulted: true });
    assert_eq!(pins.status(0x4000), DriverPinStatus { enabled: false, faulted: false });
    let config = configure_enable_pin(PinConfig { moder: 0xFFFF_FFFF, ospeedr: 0, pupdr: 0 });
    assert_eq!(config.moder, 0xF7FF_FFFF);
    let config = configure_fault_pin(PinConfig { moder: 0xFFFF_FFFF, ospeedr: 0, pupdr: 0 });
    assert_eq!(config.moder, 0xCFFF_FFFF);
    assert_eq!(config.pupdr, 0x1000_0000);
}

#[test]
fn hall_inputs_read_the_low_three_pins() {
    let mut hall = HallInputs::init_motor_hall();
    assert_eq!(hall.raw_bits(0xFFF9), 1);
    assert_eq!(hall.read_count(0x0001), 1);
    assert_eq!(hall.read_count(0x0003), 2);
    let sample = hall.read_sample(0x0007);
    assert_eq!(sample.count, 2);
    assert_eq!(sample.hall_count, 2);
    let config = configure_hall_pins(HallPinConfig {
        moder: 0xFFFF_FFFF,
        ospeedr: 0,
        pupdr: 0xFF,
        afrl: 0xFFFF,
    });
    assert_eq!(config.moder, 0xFFFF_FFC0);
    assert_eq!(config.ospeedr, 0x3F);
    assert_eq!(config.pupdr, 0xC0);
    assert_eq!(config.afrl, 0xF000);
}
