use vstd::prelude::*;

use crate::usb_device::{
    btable_offset, endpoint_register, lemma_address_bits, pending_address_value, BTABLE_ADDR_RX, BTABLE_ADDR_TX,
    BTABLE_COUNT_RX, BTABLE_ENTRY_BYTES, EP0_RX_OFFSET, EP0_TX_OFFSET, EP1_RX_OFFSET,
    EP1_TX_OFFSET, EP2_RX_OFFSET, EP2_TX_OFFSET, NO_PENDING_ADDRESS, USB_COUNT_RX_96_BYTES,
    USB_DADDR_ADD, USB_DADDR_EF, USB_EP0R, USB_EPRX_STAT, USB_EPTX_STAT, USB_EP_BULK,
    USB_EP_CONTROL, USB_EP_DTOG_RX, USB_EP_DTOG_TX, USB_EP_RX_VALID, USB_EP_TX_NAK, USB_PMA_BASE,
};

verus! {

pub const RCC_APB1RSTR1: usize = 0x4002_1038;
pub const RCC_AHB2ENR: usize = 0x4002_104C;
pub const RCC_APB1ENR1: usize = 0x4002_1058;
pub const RCC_AHB2ENR_GPIOAEN: u32 = 0x1;
pub const RCC_APB1RSTR1_USBRST: u32 = 0x80_0000;
pub const RCC_APB1ENR1_USBEN: u32 = 0x80_0000;

pub const GPIOA_MODER: usize = 0x4800_0000;
pub const GPIOA_OSPEEDR: usize = 0x4800_0008;
pub const GPIOA_PUPDR: usize = 0x4800_000C;
/// The two-bit fields of PA11 (D-) and PA12 (D+); in the mode register all
/// ones select analog.
pub const USB_PIN_MASK: u32 = 0x03C0_0000;

pub const NVIC_ISER0: usize = 0xE000_E100;
pub const NVIC_IPR_BASE: usize = 0xE000_E400;
pub const USB_LP_IRQ: u8 = 20;
pub const USB_LP_IRQ_PRIORITY: u8 = 0x80;
/// The enable bit of interrupt `USB_LP_IRQ` (20) in the first set-enable
/// register.
pub const NVIC_ISER0_USB_LP: u32 = 0x10_0000;

pub const USB_CNTR: usize = 0x4000_5C40;
pub const USB_ISTR: usize = 0x4000_5C44;
pub const USB_DADDR: usize = 0x4000_5C4C;
pub const USB_BTABLE: usize = 0x4000_5C50;
pub const USB_BCDR: usize = 0x4000_5C58;
pub const USB_BCDR_DPPU: u16 = 0x8000;
/// Interrupts on transfer, error, wake-up, suspend, reset and LPM request.
pub const USB_CNTR_INITIAL_MASKS: u16 = 0xBC80;

pub const USB_ISTR_EP_ID: u16 = 0x000F;
pub const USB_ISTR_DIR: u16 = 0x0010;
pub const USB_ISTR_ESOF: u16 = 0x0100;
pub const USB_ISTR_RESET: u16 = 0x0400;
pub const USB_ISTR_SUSP: u16 = 0x0800;
pub const USB_ISTR_ERR: u16 = 0x2000;
pub const USB_ISTR_CTR: u16 = 0x8000;

/// One access of the USB bring-up and interrupt service, carried out by the
/// caller in order.
#[derive(Clone, Copy, Debug, PartialEq, Eq, Structural)]
pub enum UsbRegisterOp {
    /// Read the 32-bit register, clear `clear`, set `set`, write it back.
    Modify32 { address: usize, clear: u32, set: u32 },
    /// Read the 32-bit register and drop the value.
    Read32 { address: usize },
    Write32 { address: usize, value: u32 },
    Write8 { address: usize, value: u8 },
    /// Read the 16-bit register, clear `clear`, set `set`, write it back.
    Modify16 { address: usize, clear: u16, set: u16 },
    Write16 { address: usize, value: u16 },
    /// Read the endpoint register and write back what
    /// `usb_device::set_toggle_value` makes of it.
    SetToggle { endpoint: u8, set_bits: u16, set_mask: u16 },
}

/// The write of `value` to field `field` of the buffer table entry of
/// `endpoint`.
pub open spec fn spec_btable_write(endpoint: u8, field: usize, value: u16) -> UsbRegisterOp {
    UsbRegisterOp::Write16 {
        address: (USB_PMA_BASE + BTABLE_ENTRY_BYTES * endpoint + field) as usize,
        value,
    }
}

/// The set-up of an endpoint: its type and number, its transmit buffer
/// (not ready), its receive buffer of 96 bytes (ready), both data toggles
/// zero.
pub open spec fn spec_endpoint_setup(endpoint: u8, register_value: u16, tx_offset: u16, rx_offset: u16) -> Seq<
    UsbRegisterOp,
> {
    seq![
        UsbRegisterOp::Write16 {
            address: (USB_EP0R + 4 * endpoint) as usize,
            value: register_value,
        },
        spec_btable_write(endpoint, BTABLE_ADDR_TX, tx_offset),
        UsbRegisterOp::SetToggle {
            endpoint,
            set_bits: USB_EP_TX_NAK,
            set_mask: (USB_EPTX_STAT | USB_EP_DTOG_TX) as u16,
        },
        spec_btable_write(endpoint, BTABLE_ADDR_RX, rx_offset),
        spec_btable_write(endpoint, BTABLE_COUNT_RX, USB_COUNT_RX_96_BYTES),
        UsbRegisterOp::SetToggle {
            endpoint,
            set_bits: USB_EP_RX_VALID,
            set_mask: (USB_EPRX_STAT | USB_EP_DTOG_RX) as u16,
        },
    ]
}

fn btable_write(endpoint: u8, field: usize, value: u16) -> (op: UsbRegisterOp)
    requires
        endpoint < 8,
        field < BTABLE_ENTRY_BYTES,
    ensures
        op == spec_btable_write(endpoint, field, value),
{
    UsbRegisterOp::Write16 { address: USB_PMA_BASE + btable_offset(endpoint, field), value }
}

fn push_endpoint_setup(
    ops: &mut Vec<UsbRegisterOp>,
    endpoint: u8,
    register_value: u16,
    tx_offset: u16,
    rx_offset: u16,
)
    requires
        endpoint < 8,
    ensures
        final(ops)@ == old(ops)@ + spec_endpoint_setup(endpoint, register_value, tx_offset, rx_offset),
{
    let ghost before = ops@;
    ops.push(UsbRegisterOp::Write16 { address: endpoint_register(endpoint), value: register_value });
    ops.push(btable_write(endpoint, BTABLE_ADDR_TX, tx_offset));
    ops.push(
        UsbRegisterOp::SetToggle {
            endpoint,
            set_bits: USB_EP_TX_NAK,
            set_mask: USB_EPTX_STAT | USB_EP_DTOG_TX,
        },
    );
    ops.push(btable_write(endpoint, BTABLE_ADDR_RX, rx_offset));
    ops.push(btable_write(endpoint, BTABLE_COUNT_RX, USB_COUNT_RX_96_BYTES));
    ops.push(
        UsbRegisterOp::SetToggle {
            endpoint,
            set_bits: USB_EP_RX_VALID,
            set_mask: USB_EPRX_STAT | USB_EP_DTOG_RX,
        },
    );
    assert(ops@ =~= before + spec_endpoint_setup(endpoint, register_value, tx_offset, rx_offset));
}

/// The bring-up that leaves the device detached from the bus: port A and
/// USB clocked, PA11 and PA12 analog without pull, the peripheral reset,
/// the pull-up off, buffer table at zero, no address, pending interrupts
/// cleared and the device interrupts unmasked.
pub open spec fn spec_prepare_disconnected() -> Seq<UsbRegisterOp> {
    seq![
        UsbRegisterOp::Modify32 { address: RCC_AHB2ENR, clear: 0, set: RCC_AHB2ENR_GPIOAEN },
        UsbRegisterOp::Read32 { address: RCC_AHB2ENR },
        UsbRegisterOp::Modify32 { address: GPIOA_MODER, clear: USB_PIN_MASK, set: USB_PIN_MASK },
        UsbRegisterOp::Modify32 { address: GPIOA_OSPEEDR, clear: USB_PIN_MASK, set: 0 },
        UsbRegisterOp::Modify32 { address: GPIOA_PUPDR, clear: USB_PIN_MASK, set: 0 },
        UsbRegisterOp::Modify32 { address: RCC_APB1ENR1, clear: 0, set: RCC_APB1ENR1_USBEN },
        UsbRegisterOp::Read32 { address: RCC_APB1ENR1 },
        UsbRegisterOp::Modify32 { address: RCC_APB1RSTR1, clear: 0, set: RCC_APB1RSTR1_USBRST },
        UsbRegisterOp::Modify32 { address: RCC_APB1RSTR1, clear: RCC_APB1RSTR1_USBRST, set: 0 },
        UsbRegisterOp::Modify16 { address: USB_BCDR, clear: USB_BCDR_DPPU, set: 0 },
        UsbRegisterOp::Write16 { address: USB_BTABLE, value: 0 },
        UsbRegisterOp::Write16 { address: USB_DADDR, value: 0 },
        UsbRegisterOp::Write16 { address: USB_ISTR, value: 0 },
        UsbRegisterOp::Write16 { address: USB_CNTR, value: USB_CNTR_INITIAL_MASKS },
    ]
}

/// Attaching to the bus: the low-priority USB interrupt at priority 0x80,
/// enabled, then the D+ pull-up on.
pub open spec fn spec_connect() -> Seq<UsbRegisterOp> {
    seq![
        UsbRegisterOp::Write8 {
            address: (NVIC_IPR_BASE + USB_LP_IRQ) as usize,
            value: USB_LP_IRQ_PRIORITY,
        },
        UsbRegisterOp::Write32 { address: NVIC_ISER0, value: NVIC_ISER0_USB_LP },
        UsbRegisterOp::Modify16 { address: USB_BCDR, clear: 0, set: USB_BCDR_DPPU },
    ]
}

/// The answer to a bus reset: endpoint 0 set up as the control endpoint,
/// the device enabled at address zero and the reset flag cleared.
pub open spec fn spec_bus_reset() -> Seq<UsbRegisterOp> {
    spec_endpoint_setup(0, USB_EP_CONTROL, EP0_TX_OFFSET, EP0_RX_OFFSET) + seq![
        UsbRegisterOp::Write16 { address: USB_DADDR, value: USB_DADDR_EF },
        UsbRegisterOp::Modify16 { address: USB_ISTR, clear: USB_ISTR_RESET, set: 0 },
    ]
}

/// The bulk endpoints 1 (text requests) and 2 (real-time packets).
pub open spec fn spec_bulk_endpoints() -> Seq<UsbRegisterOp> {
    spec_endpoint_setup(1, 1u16 | USB_EP_BULK, EP1_TX_OFFSET, EP1_RX_OFFSET)
        + spec_endpoint_setup(2, 2u16 | USB_EP_BULK, EP2_TX_OFFSET, EP2_RX_OFFSET)
}

/// The events that one read of the interrupt status register reports.
#[derive(Clone, Copy, Debug, PartialEq, Eq, Structural)]
pub struct InterruptEvents {
    pub reset: bool,
    pub suspend: bool,
    pub correct_transfer: bool,
}

/// The status register write that clears the flags of `mask`.
pub fn clear_istr(mask: u16) -> (op: UsbRegisterOp)
    ensures
        op == (UsbRegisterOp::Modify16 { address: USB_ISTR, clear: mask, set: 0 }),
{
    UsbRegisterOp::Modify16 { address: USB_ISTR, clear: mask, set: 0 }
}

/// The endpoint whose transfer completed, when it is one this device
/// serves (0, 1 or 2).
pub fn transfer_endpoint(istr: u16) -> (e: Option<u8>)
    ensures
        e == (if istr & USB_ISTR_EP_ID < 3 {
            Some((istr & USB_ISTR_EP_ID) as u8)
        } else {
            None
        }),
{
    let id = istr & USB_ISTR_EP_ID;
    if id < 3 {
        Some(id as u8)
    } else {
        None
    }
}

/// Whether the completed transfer was a reception (host to device).
pub fn transfer_received(istr: u16) -> (b: bool)
    ensures
        b == (istr & USB_ISTR_DIR != 0),
{
    istr & USB_ISTR_DIR != 0
}

/// The USB device peripheral: the address that the host assigned and that
/// applies once the status stage is sent, and counts of interrupts and of
/// error or missed start-of-frame events.
#[derive(Clone, Copy, Debug, PartialEq, Eq, Structural)]
pub struct UsbDevice {
    pub pending_address: u8,
    pub interrupt_count: u32,
    pub error_count: u32,
}

impl UsbDevice {
    /// The device, detached, with the programme that brings it there.
    pub fn prepare_disconnected() -> (r: (UsbDevice, Vec<UsbRegisterOp>))
        ensures
            r.0 == (UsbDevice {
                pending_address: NO_PENDING_ADDRESS,
                interrupt_count: 0,
                error_count: 0,
            }),
            r.1@ == spec_prepare_disconnected(),
    {
        let mut ops: Vec<UsbRegisterOp> = Vec::new();
        ops.push(UsbRegisterOp::Modify32 { address: RCC_AHB2ENR, clear: 0, set: RCC_AHB2ENR_GPIOAEN });
        ops.push(UsbRegisterOp::Read32 { address: RCC_AHB2ENR });
        ops.push(UsbRegisterOp::Modify32 { address: GPIOA_MODER, clear: USB_PIN_MASK, set: USB_PIN_MASK });
        ops.push(UsbRegisterOp::Modify32 { address: GPIOA_OSPEEDR, clear: USB_PIN_MASK, set: 0 });
        ops.push(UsbRegisterOp::Modify32 { address: GPIOA_PUPDR, clear: USB_PIN_MASK, set: 0 });
        ops.push(UsbRegisterOp::Modify32 { address: RCC_APB1ENR1, clear: 0, set: RCC_APB1ENR1_USBEN });
        ops.push(UsbRegisterOp::Read32 { address: RCC_APB1ENR1 });
        ops.push(UsbRegisterOp::Modify32 { address: RCC_APB1RSTR1, clear: 0, set: RCC_APB1RSTR1_USBRST });
        ops.push(UsbRegisterOp::Modify32 { address: RCC_APB1RSTR1, clear: RCC_APB1RSTR1_USBRST, set: 0 });
        ops.push(UsbRegisterOp::Modify16 { address: USB_BCDR, clear: USB_BCDR_DPPU, set: 0 });
        ops.push(UsbRegisterOp::Write16 { address: USB_BTABLE, value: 0 });
        ops.push(UsbRegisterOp::Write16 { address: USB_DADDR, value: 0 });
        ops.push(UsbRegisterOp::Write16 { address: USB_ISTR, value: 0 });
        ops.push(UsbRegisterOp::Write16 { address: USB_CNTR, value: USB_CNTR_INITIAL_MASKS });
        assert(ops@ =~= spec_prepare_disconnected());
        (UsbDevice { pending_address: NO_PENDING_ADDRESS, interrupt_count: 0, error_count: 0 }, ops)
    }

    /// The programme that attaches the device to the bus.
    pub fn connect(&self) -> (ops: Vec<UsbRegisterOp>)
        ensures
            ops@ == spec_connect(),
    {
        let mut ops: Vec<UsbRegisterOp> = Vec::new();
        ops.push(UsbRegisterOp::Write8 { address: NVIC_IPR_BASE + (USB_LP_IRQ as usize), value: USB_LP_IRQ_PRIORITY });
        ops.push(UsbRegisterOp::Write32 { address: NVIC_ISER0, value: NVIC_ISER0_USB_LP });
        ops.push(UsbRegisterOp::Modify16 { address: USB_BCDR, clear: 0, set: USB_BCDR_DPPU });
        assert(ops@ =~= spec_connect());
        ops
    }

    /// The start of an interrupt: it is counted, and the events that the
    /// status register reports are handled in the order reset, suspend,
    /// transfer.
    pub fn interrupt_events(&mut self, istr: u16) -> (e: InterruptEvents)
        ensures
            final(self).interrupt_count == (old(self).interrupt_count + 1) % 0x1_0000_0000,
            final(self).pending_address == old(self).pending_address,
            final(self).error_count == old(self).error_count,
            e == (InterruptEvents {
                reset: istr & USB_ISTR_RESET != 0,
                suspend: istr & USB_ISTR_SUSP != 0,
                correct_transfer: istr & USB_ISTR_CTR != 0,
            }),
    {
        self.interrupt_count = self.interrupt_count.wrapping_add(1);
        InterruptEvents {
            reset: istr & USB_ISTR_RESET != 0,
            suspend: istr & USB_ISTR_SUSP != 0,
            correct_transfer: istr & USB_ISTR_CTR != 0,
        }
    }

    /// The end of an interrupt, given the status register read again: an
    /// error or missed start-of-frame is counted and its flags cleared.
    pub fn finish_interrupt(&mut self, istr: u16) -> (op: Option<UsbRegisterOp>)
        ensures
            final(self).pending_address == old(self).pending_address,
            final(self).interrupt_count == old(self).interrupt_count,
            istr & (USB_ISTR_ERR | USB_ISTR_ESOF) != 0 ==> {
                &&& final(self).error_count == (old(self).error_count + 1) % 0x1_0000_0000
                &&& op == Some(
                    UsbRegisterOp::Modify16 {
                        address: USB_ISTR,
                        clear: (USB_ISTR_ERR | USB_ISTR_ESOF) as u16,
                        set: 0,
                    },
                )
            },
            istr & (USB_ISTR_ERR | USB_ISTR_ESOF) == 0 ==> final(self).error_count == old(
                self,
            ).error_count && op is None,
    {
        if istr & (USB_ISTR_ERR | USB_ISTR_ESOF) != 0 {
            self.error_count = self.error_count.wrapping_add(1);
            Some(clear_istr(USB_ISTR_ERR | USB_ISTR_ESOF))
        } else {
            None
        }
    }

    /// A bus reset: endpoint 0 set up again, address zero, and any address
    /// still pending forgotten.
    pub fn bus_reset(&mut self) -> (ops: Vec<UsbRegisterOp>)
        ensures
            final(self).pending_address == NO_PENDING_ADDRESS,
            final(self).interrupt_count == old(self).interrupt_count,
            final(self).error_count == old(self).error_count,
            ops@ == spec_bus_reset(),
    {
        let mut ops: Vec<UsbRegisterOp> = Vec::new();
        push_endpoint_setup(&mut ops, 0, USB_EP_CONTROL, EP0_TX_OFFSET, EP0_RX_OFFSET);
        let ghost before = ops@;
        ops.push(UsbRegisterOp::Write16 { address: USB_DADDR, value: USB_DADDR_EF });
        self.pending_address = NO_PENDING_ADDRESS;
        ops.push(clear_istr(USB_ISTR_RESET));
        assert(ops@ =~= spec_bus_reset());
        ops
    }

    /// The host's address request: the low seven bits are kept until the
    /// status stage has gone out.
    pub fn set_pending_address(&mut self, address: u8)
        ensures
            final(self).pending_address == address % 128,
            final(self).interrupt_count == old(self).interrupt_count,
            final(self).error_count == old(self).error_count,
    {
        let a = address & (USB_DADDR_ADD as u8);
        proof {
            lemma_address_bits(address);
        }
        self.pending_address = a;
    }

    /// After a transmission on endpoint 0: the pending address, if any, is
    /// taken and written to the address register with the enable bit.
    pub fn apply_pending_address(&mut self) -> (op: Option<UsbRegisterOp>)
        ensures
            final(self).pending_address == NO_PENDING_ADDRESS,
            final(self).interrupt_count == old(self).interrupt_count,
            final(self).error_count == old(self).error_count,
            old(self).pending_address == NO_PENDING_ADDRESS ==> op is None,
            old(self).pending_address != NO_PENDING_ADDRESS ==> op == Some(
                UsbRegisterOp::Write16 {
                    address: USB_DADDR,
                    value: (USB_DADDR_EF + old(self).pending_address % 128) as u16,
                },
            ),
    {
        let pending = self.pending_address;
        self.pending_address = NO_PENDING_ADDRESS;
        match pending_address_value(pending) {
            Some(value) => Some(UsbRegisterOp::Write16 { address: USB_DADDR, value }),
            None => None,
        }
    }

    /// The set-up of the bulk endpoints after the host selects the
    /// configuration.
    pub fn configure_bulk_endpoints(&self) -> (ops: Vec<UsbRegisterOp>)
        ensures
            ops@ == spec_bulk_endpoints(),
    {
        let mut ops: Vec<UsbRegisterOp> = Vec::new();
        push_endpoint_setup(&mut ops, 1, 1u16 | USB_EP_BULK, EP1_TX_OFFSET, EP1_RX_OFFSET);
        push_endpoint_setup(&mut ops, 2, 2u16 | USB_EP_BULK, EP2_TX_OFFSET, EP2_RX_OFFSET);
        assert(ops@ =~= spec_bulk_endpoints());
        ops
    }
}

} // verus!
