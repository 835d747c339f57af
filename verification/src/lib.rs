//! Verified control-state, timing and protocol logic for the OBOT G474 motor controller.

pub mod adc;
pub mod bench_debug;
pub mod benchmark;
pub mod clock;
pub mod control;
pub mod current;
pub mod cycle_counter;
pub mod debug_report;
pub mod decimal;
pub mod driver_pins;
pub mod drv8323s;
pub mod hall;
pub mod hall_inputs;
pub mod hex_bytes;
pub mod host;
pub mod le_bytes;
pub mod led;
pub mod memory;
pub mod outer_loop;
pub mod output;
pub mod power;
pub mod protocol;
pub mod pwm;
pub mod registers;
pub mod text;
pub mod text_api;
pub mod timing;
pub mod usb_control;
pub mod usb_device;
pub mod usb_peripheral;
pub mod usb_text;

pub use control::{ControlMode, Fault};
