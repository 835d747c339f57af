use obot::hall::HallEncoder;
use obot::hall_inputs::HallInputs;
use obot::current::{CenteredCurrentCounts, RawCurrentSamples};
use obot::cycle_counter::{DwtCycleCounter, DWT_CYCCNT, DWT_LAR, DWT_LAR_UNLOCK};
use obot::drv8323s::{read_register_command, Drv8323s, Drv8323sStatus, GPIOA_BSRR, SPI1_CR1};
use obot::registers::{RegisterStep, RegisterWrite};
use obot::usb_device::NO_PENDING_ADDRESS;
use obot::usb_peripheral::{
    transfer_endpoint, transfer_received, InterruptEvents, UsbDevice, UsbRegisterOp, USB_BCDR,
    USB_CNTR, USB_DADDR, USB_ISTR,
};

#[test]
fn usb_prepare_disconnected_ends_with_interrupt_masks() {
    let (device, ops) = UsbDevice::prepare_disconnected();
    assert_eq!(device.pending_address, NO_PENDING_ADDRESS);
    assert_eq!(ops.len(), 14);
    assert_eq!(ops[13], UsbRegisterOp::Write16 { address: USB_CNTR, value: 0xBC80 });
    assert_eq!(ops[9], UsbRegisterOp::Modify16 { address: USB_BCDR, clear: 0x8000, set: 0 });
}

#[test]
fn usb_connect_enables_interrupt_then_pull_up() {
    let (device, _) = UsbDevice::prepare_disconnected();
    let ops = device.connect();
    assert_eq!(
        ops,
        vec![
            UsbRegisterOp::Write8 { address: 0xE000_E414, value: 0x80 },
            UsbRegisterOp::Write32 { address: 0xE000_E100, value: 1 << 20 },
            UsbRegisterOp::Modify16 { address: USB_BCDR, clear: 0, set: 0x8000 },
        ]
    );
}

#[test]
fn usb_address_applies_after_status_stage_once() {
    let (mut device, _) = UsbDevice::prepare_disconnected();
    assert_eq!(device.apply_pending_address(), None);
    device.set_pending_address(0x85);
    assert_eq!(device.pending_address, 5);
    assert_eq!(
        device.apply_pending_address(),
        Some(UsbRegisterOp::Write16 { address: USB_DADDR, value: 0x85 })
    );
    assert_eq!(device.apply_pending_address(), None);
}

#[test]
fn usb_bus_reset_forgets_pending_address() {
    let (mut device, _) = UsbDevice::prepare_disconnected();
    device.set_pending_address(9);
    let ops = device.bus_reset();
    assert_eq!(device.pending_address, NO_PENDING_ADDRESS);
    assert_eq!(ops.len(), 8);
    assert_eq!(ops[0], UsbRegisterOp::Write16 { address: 0x4000_5C00, value: 0x0200 });
    assert_eq!(ops[1], UsbRegisterOp::Write16 { address: 0x4000_6000, value: 64 });
    assert_eq!(ops[6], UsbRegisterOp::Write16 { address: USB_DADDR, value: 0x80 });
    assert_eq!(ops[7], UsbRegisterOp::Modify16 { address: USB_ISTR, clear: 0x0400, set: 0 });
}

#[test]
fn usb_bulk_endpoints_use_their_buffers() {
    let (device, _) = UsbDevice::prepare_disconnected();
    let ops = device.configure_bulk_endpoints();
    assert_eq!(ops.len(), 12);
    assert_eq!(ops[0], UsbRegisterOp::Write16 { address: 0x4000_5C04, value: 1 });
    assert_eq!(ops[1], UsbRegisterOp::Write16 { address: 0x4000_6008, value: 224 });
    assert_eq!(ops[6], UsbRegisterOp::Write16 { address: 0x4000_5C08, value: 2 });
    assert_eq!(ops[9], UsbRegisterOp::Write16 { address: 0x4000_6014, value: 448 });
}

#[test]
fn usb_interrupt_events_and_error_count() {
    let (mut device, _) = UsbDevice::prepare_disconnected();
    let events = device.interrupt_events(0x8C00);
    assert_eq!(
        events,
        InterruptEvents { reset: true, suspend: true, correct_transfer: true }
    );
    assert_eq!(device.interrupt_count, 1);
    assert_eq!(device.finish_interrupt(0x0000), None);
    assert_eq!(device.error_count, 0);
    assert_eq!(
        device.finish_interrupt(0x0100),
        Some(UsbRegisterOp::Modify16 { address: USB_ISTR, clear: 0x2100, set: 0 })
    );
    assert_eq!(device.error_count, 1);
}

#[test]
fn usb_transfer_endpoint_and_direction() {
    assert_eq!(transfer_endpoint(0x8012), Some(2));
    assert_eq!(transfer_endpoint(0x8003), None);
    assert!(transfer_received(0x8010));
    assert!(!transfer_received(0x8001));
}

#[test]
fn drv8323s_programmes_and_status() {
    let (driver, init) = Drv8323s::init_motor_hall::<()>();
    assert_eq!(init.len(), 4 + 12 + 4);
    assert_eq!(init[16], RegisterStep::Write { address: GPIOA_BSRR, value: 0x10 });
    let start = driver.start_transaction::<()>();
    assert_eq!(start[6], RegisterStep::Write { address: SPI1_CR1, value: 0x74 });
    let end = driver.end_transaction::<()>();
    assert_eq!(end[0], RegisterStep::Write { address: SPI1_CR1, value: 0 });
    assert_eq!(read_register_command(0), 0x8000);
    assert_eq!(read_register_command(1), 0x8800);
    assert_eq!(
        driver.read_status(Some(0x12), Some(0x34)),
        Some(Drv8323sStatus { fault_status_1: 0x12, vgs_status_2: 0x34 })
    );
    assert_eq!(driver.read_status(Some(0x12), None), None);
}

#[test]
fn dwt_enable_unlocks_and_zeroes() {
    let counter = DwtCycleCounter::new();
    let steps = counter.enable::<()>();
    assert_eq!(steps[1], RegisterStep::Write { address: DWT_LAR, value: DWT_LAR_UNLOCK });
    assert_eq!(steps[2], RegisterStep::Write { address: DWT_CYCCNT, value: 0 });
    assert_eq!(counter.reset(), RegisterWrite { address: DWT_CYCCNT, value: 0 });
}

#[test]
fn raw_current_samples_centre_on_midscale() {
    let raw = RawCurrentSamples { phase_a: 0x0331, phase_b: 2048, phase_c: 4095 };
    assert_eq!(
        raw.centered(),
        CenteredCurrentCounts { phase_a: 0x0331 - 2048, phase_b: 0, phase_c: 2047 }
    );
}

#[test]
fn hall_try_read_sample_matches_read_sample() {
    let mut a = HallEncoder::new();
    let mut b = HallEncoder::new();
    for bits in [1u8, 3, 2, 6, 4, 5, 1, 0, 7, 5] {
        assert_eq!(a.try_read_sample(bits), Some(b.read_sample(bits)));
    }
    let mut inputs = HallInputs::init_motor_hall();
    assert_eq!(inputs.try_read_sample(0xFFF9).map(|s| s.count), Some(1));
}
