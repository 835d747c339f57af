use vstd::prelude::*;

use crate::registers::{four_bit_pin_mask, two_bit_pin_mask, RegisterStep};

verus! {

pub const RCC_AHB2ENR: usize = 0x4002_104C;
pub const RCC_APB2ENR: usize = 0x4002_1060;
pub const RCC_AHB2ENR_GPIOAEN: u32 = 0x1;
pub const RCC_APB2ENR_SPI1EN: u32 = 0x1000;

pub const GPIOA_MODER: usize = 0x4800_0000;
pub const GPIOA_OSPEEDR: usize = 0x4800_0008;
pub const GPIOA_PUPDR: usize = 0x4800_000C;
pub const GPIOA_BSRR: usize = 0x4800_0018;
pub const GPIOA_AFRL: usize = 0x4800_0020;

pub const SPI1_CR1: usize = 0x4001_3000;
pub const SPI1_CR2: usize = 0x4001_3004;
pub const SPI1_SR: usize = 0x4001_3008;
pub const SPI1_DR: usize = 0x4001_300C;

pub const GPIO_MODE_OUTPUT: u32 = 1;
pub const GPIO_MODE_ALT: u32 = 2;
pub const GPIO_SPEED_VERY_HIGH: u32 = 3;
pub const GPIO_PULL_NONE: u32 = 0;
pub const GPIO_PULL_UP: u32 = 1;
pub const GPIO_AF5: u32 = 5;

pub const SPI_CR1_MSTR: u32 = 0x4;
pub const SPI_CR1_BR_DIV64: u32 = 0x30;
pub const SPI_CR1_SPE: u32 = 0x40;
pub const SPI_CR2_FRF: u32 = 0x10;
pub const SPI_CR2_DS_16BIT: u32 = 0xF00;
pub const SPI_SR_RXNE: u32 = 0x1;

pub const NSS_PIN: u32 = 4;
pub const SCK_PIN: u32 = 5;
pub const MISO_PIN: u32 = 6;
pub const MOSI_PIN: u32 = 7;
/// How many status reads a transfer makes before it gives up.
pub const STATUS_POLL_TIMEOUT: u32 = 16_000;

/// The two DRV8323S status registers.
#[derive(Clone, Copy, Debug, Default, PartialEq, Eq, Structural)]
pub struct Drv8323sStatus {
    pub fault_status_1: u16,
    pub vgs_status_2: u16,
}

impl Drv8323sStatus {
    /// Fault status 1 in the low half, VGS status 2 in the high half.
    pub fn as_u32(self) -> (v: u32)
        ensures
            v == self.fault_status_1 + 0x1_0000 * self.vgs_status_2,
    {
        let lo = self.fault_status_1 as u32;
        let hi = self.vgs_status_2 as u32;
        let v = lo | (hi << 16);
        assert(v == lo + 0x1_0000 * hi) by (bit_vector)
            requires
                lo < 0x1_0000,
                hi < 0x1_0000,
                v == lo | (hi << 16),
        ;
        v
    }
}

/// The outcome of configuring the DRV8323S: the status before and after
/// (absent where the SPI read timed out) and bit masks of the registers that
/// failed to verify or to transfer.
#[derive(Clone, Copy, Debug, Default, PartialEq, Eq, Structural)]
pub struct Drv8323sConfigReport {
    pub status_before: Option<Drv8323sStatus>,
    pub status_after: Option<Drv8323sStatus>,
    pub verify_error_mask: u16,
    pub transfer_error_mask: u16,
}

impl Drv8323sConfigReport {
    /// Configured when every register transferred and verified.
    pub fn configured(&self) -> (b: bool)
        ensures
            b == (self.verify_error_mask == 0 && self.transfer_error_mask == 0),
    {
        self.verify_error_mask == 0 && self.transfer_error_mask == 0
    }
}

/// The SPI command word that reads register `address` (0 to 7): the read
/// bit 15, then the address in bits 11 to 13.
pub fn read_register_command(address: u8) -> (w: u16)
    ensures
        w == 0x8000 + 0x800 * (address % 8),
{
    let a = (address as u16) & 0x7;
    let w = (1u16 << 15) | (a << 11);
    assert(w == 0x8000 + 0x800 * (address % 8)) by (bit_vector)
        requires
            a == (address as u16) & 0x7,
            w == (1u16 << 15) | (a << 11),
    ;
    w
}

/// The two bits of pin `pin` set to `field` in a two-bit-per-pin register.
pub open spec fn spec_two_bit<E>(address: usize, pin: u32, field: u32) -> RegisterStep<E> {
    RegisterStep::Modify { address, clear: 3u32 << (pin * 2), set: field << (pin * 2) }
}

/// Pin `pin` of port A as SPI1 (alternate function 5) at very high speed
/// with pull `pull`.
pub open spec fn spec_pin_alt<E>(pin: u32, pull: u32) -> Seq<RegisterStep<E>> {
    seq![
        spec_two_bit(GPIOA_MODER, pin, GPIO_MODE_ALT),
        spec_two_bit(GPIOA_OSPEEDR, pin, GPIO_SPEED_VERY_HIGH),
        spec_two_bit(GPIOA_PUPDR, pin, pull),
        RegisterStep::Modify {
            address: GPIOA_AFRL,
            clear: 15u32 << (pin * 4),
            set: GPIO_AF5 << (pin * 4),
        },
    ]
}

/// Chip select driven high by hand: set, then the pin as a fast output
/// without pull.
pub open spec fn spec_nss_idle_high<E>() -> Seq<RegisterStep<E>> {
    seq![
        RegisterStep::Write { address: GPIOA_BSRR, value: 1u32 << NSS_PIN },
        spec_two_bit(GPIOA_MODER, NSS_PIN, GPIO_MODE_OUTPUT),
        spec_two_bit(GPIOA_OSPEEDR, NSS_PIN, GPIO_SPEED_VERY_HIGH),
        spec_two_bit(GPIOA_PUPDR, NSS_PIN, GPIO_PULL_NONE),
    ]
}

/// The bring-up: port A and SPI1 clocked, the clock, data pins on SPI1
/// (the input pulled up) and chip select idle high.
pub open spec fn spec_init_motor_hall<E>() -> Seq<RegisterStep<E>> {
    seq![
        RegisterStep::Modify { address: RCC_AHB2ENR, clear: 0, set: RCC_AHB2ENR_GPIOAEN },
        RegisterStep::Modify { address: RCC_APB2ENR, clear: 0, set: RCC_APB2ENR_SPI1EN },
        RegisterStep::Read { address: RCC_AHB2ENR },
        RegisterStep::Read { address: RCC_APB2ENR },
    ] + spec_pin_alt(SCK_PIN, GPIO_PULL_NONE) + spec_pin_alt(MISO_PIN, GPIO_PULL_UP) + spec_pin_alt(
        MOSI_PIN,
        GPIO_PULL_NONE,
    ) + spec_nss_idle_high()
}

/// The start of a transaction: chip select handed to SPI1, which is
/// stopped, set to 16-bit TI frames, and started as master at 1/64 of
/// its clock.
pub open spec fn spec_start_transaction<E>() -> Seq<RegisterStep<E>> {
    spec_pin_alt(NSS_PIN, GPIO_PULL_NONE) + seq![
        RegisterStep::Write { address: SPI1_CR1, value: 0 },
        RegisterStep::Write { address: SPI1_CR2, value: SPI_CR2_DS_16BIT | SPI_CR2_FRF },
        RegisterStep::Write {
            address: SPI1_CR1,
            value: SPI_CR1_MSTR | SPI_CR1_BR_DIV64 | SPI_CR1_SPE,
        },
    ]
}

/// The end of a transaction: SPI1 stopped, chip select high by hand.
pub open spec fn spec_end_transaction<E>() -> Seq<RegisterStep<E>> {
    seq![RegisterStep::Write { address: SPI1_CR1, value: 0 }] + spec_nss_idle_high()
}

fn two_bit<E>(address: usize, pin: u32, field: u32) -> (s: RegisterStep<E>)
    requires
        pin < 16,
    ensures
        s == spec_two_bit::<E>(address, pin, field),
{
    RegisterStep::Modify { address, clear: two_bit_pin_mask(pin), set: field << (pin * 2) }
}

fn push_pin_alt<E>(steps: &mut Vec<RegisterStep<E>>, pin: u32, pull: u32)
    requires
        pin < 8,
    ensures
        final(steps)@ == old(steps)@ + spec_pin_alt::<E>(pin, pull),
{
    let ghost before = steps@;
    steps.push(two_bit(GPIOA_MODER, pin, GPIO_MODE_ALT));
    steps.push(two_bit(GPIOA_OSPEEDR, pin, GPIO_SPEED_VERY_HIGH));
    steps.push(two_bit(GPIOA_PUPDR, pin, pull));
    steps.push(
        RegisterStep::Modify {
            address: GPIOA_AFRL,
            clear: four_bit_pin_mask(pin),
            set: GPIO_AF5 << (pin * 4),
        },
    );
    assert(steps@ =~= before + spec_pin_alt::<E>(pin, pull));
}

fn push_nss_idle_high<E>(steps: &mut Vec<RegisterStep<E>>)
    ensures
        final(steps)@ == old(steps)@ + spec_nss_idle_high::<E>(),
{
    let ghost before = steps@;
    steps.push(RegisterStep::Write { address: GPIOA_BSRR, value: 1u32 << NSS_PIN });
    steps.push(two_bit(GPIOA_MODER, NSS_PIN, GPIO_MODE_OUTPUT));
    steps.push(two_bit(GPIOA_OSPEEDR, NSS_PIN, GPIO_SPEED_VERY_HIGH));
    steps.push(two_bit(GPIOA_PUPDR, NSS_PIN, GPIO_PULL_NONE));
    assert(steps@ =~= before + spec_nss_idle_high::<E>());
}

/// The DRV8323S gate driver on SPI1 of port A.
#[derive(Clone, Copy, Debug, PartialEq, Eq, Structural)]
pub struct Drv8323s;

impl Drv8323s {
    /// The driver handle and the programme that brings up its SPI link.
    pub fn init_motor_hall<E>() -> (r: (Drv8323s, Vec<RegisterStep<E>>))
        ensures
            r.1@ == spec_init_motor_hall::<E>(),
    {
        let mut steps: Vec<RegisterStep<E>> = Vec::new();
        steps.push(RegisterStep::Modify { address: RCC_AHB2ENR, clear: 0, set: RCC_AHB2ENR_GPIOAEN });
        steps.push(RegisterStep::Modify { address: RCC_APB2ENR, clear: 0, set: RCC_APB2ENR_SPI1EN });
        steps.push(RegisterStep::Read { address: RCC_AHB2ENR });
        steps.push(RegisterStep::Read { address: RCC_APB2ENR });
        push_pin_alt(&mut steps, SCK_PIN, GPIO_PULL_NONE);
        push_pin_alt(&mut steps, MISO_PIN, GPIO_PULL_UP);
        push_pin_alt(&mut steps, MOSI_PIN, GPIO_PULL_NONE);
        push_nss_idle_high(&mut steps);
        assert(steps@ =~= spec_init_motor_hall::<E>());
        (Drv8323s, steps)
    }

    /// The programme that opens a transaction.
    pub fn start_transaction<E>(&self) -> (steps: Vec<RegisterStep<E>>)
        ensures
            steps@ == spec_start_transaction::<E>(),
    {
        let mut steps: Vec<RegisterStep<E>> = Vec::new();
        push_pin_alt(&mut steps, NSS_PIN, GPIO_PULL_NONE);
        steps.push(RegisterStep::Write { address: SPI1_CR1, value: 0 });
        steps.push(RegisterStep::Write { address: SPI1_CR2, value: SPI_CR2_DS_16BIT | SPI_CR2_FRF });
        steps.push(
            RegisterStep::Write {
                address: SPI1_CR1,
                value: SPI_CR1_MSTR | SPI_CR1_BR_DIV64 | SPI_CR1_SPE,
            },
        );
        assert(steps@ =~= spec_start_transaction::<E>());
        steps
    }

    /// The programme that closes a transaction.
    pub fn end_transaction<E>(&self) -> (steps: Vec<RegisterStep<E>>)
        ensures
            steps@ == spec_end_transaction::<E>(),
    {
        let mut steps: Vec<RegisterStep<E>> = Vec::new();
        steps.push(RegisterStep::Write { address: SPI1_CR1, value: 0 });
        push_nss_idle_high(&mut steps);
        assert(steps@ =~= spec_end_transaction::<E>());
        steps
    }

    /// The status register pair from the answers to the read commands of
    /// registers 0 and 1 (`read_register_command`), sent within one
    /// transaction; present only when both transfers completed.
    pub fn read_status(&self, fault_status_1: Option<u16>, vgs_status_2: Option<u16>) -> (s: Option<
        Drv8323sStatus,
    >)
        ensures
            s is Some <==> fault_status_1 is Some && vgs_status_2 is Some,
            s matches Some(st) ==> Some(st.fault_status_1) == fault_status_1 && Some(
                st.vgs_status_2,
            ) == vgs_status_2,
    {
        match (fault_status_1, vgs_status_2) {
            (Some(a), Some(b)) => Some(Drv8323sStatus { fault_status_1: a, vgs_status_2: b }),
            _ => None,
        }
    }
}

} // verus!
