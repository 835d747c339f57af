use vstd::prelude::*;

use crate::registers::RegisterStep;

verus! {

pub const CPU_HZ: u32 = 170_000_000;

pub const RCC_CR: usize = 0x4002_1000;
pub const RCC_CFGR: usize = 0x4002_1008;
pub const RCC_PLLCFGR: usize = 0x4002_100C;
pub const RCC_APB1RSTR1: usize = 0x4002_1038;
pub const RCC_APB1ENR1: usize = 0x4002_1058;
pub const RCC_CCIPR: usize = 0x4002_1088;
pub const RCC_CRRCR: usize = 0x4002_1098;
pub const FLASH_ACR: usize = 0x4002_2000;
pub const PWR_SR2: usize = 0x4000_7014;
pub const PWR_CR5: usize = 0x4000_7080;
pub const CRS_CR: usize = 0x4000_2000;
pub const CRS_CFGR: usize = 0x4000_2004;

pub const RCC_CR_HSION: u32 = 0x100;
pub const RCC_CR_HSIRDY: u32 = 0x400;
pub const RCC_CR_PLLON: u32 = 0x0100_0000;
pub const RCC_CR_PLLRDY: u32 = 0x0200_0000;
pub const RCC_CRRCR_HSI48ON: u32 = 1;
pub const RCC_CRRCR_HSI48RDY: u32 = 2;
pub const RCC_CFGR_SW: u32 = 0x3;
pub const RCC_CFGR_SW_HSI: u32 = 0x1;
pub const RCC_CFGR_SW_PLL: u32 = 0x3;
pub const RCC_CFGR_SWS: u32 = 0xC;
pub const RCC_CFGR_SWS_HSI: u32 = 0x4;
pub const RCC_CFGR_SWS_PLL: u32 = 0xC;
/// The AHB and both APB prescaler fields.
pub const RCC_CFGR_PRESCALERS: u32 = 0x3FF0;
/// HSI source, divide by 4, multiply by 85, R output on and divided by 2:
/// 16 MHz / 4 * 85 / 2 = 170 MHz.
pub const RCC_PLLCFGR_170MHZ_HSI: u32 = 0x0100_5532;
pub const RCC_APB1RSTR1_CRSRST: u32 = 0x100;
pub const RCC_APB1ENR1_CRSEN: u32 = 0x100;
pub const RCC_APB1ENR1_PWREN: u32 = 0x1000_0000;
pub const RCC_CCIPR_CLK48SEL: u32 = 0x0C00_0000;
pub const RCC_CCIPR_CLK48SEL_HSI48: u32 = 0;
pub const FLASH_ACR_LATENCY: u32 = 0xF;
/// Eight wait states with prefetch and both caches on.
pub const FLASH_ACR_8WS_ACCELERATED: u32 = 0x708;
pub const PWR_CR5_R1MODE: u32 = 0x100;
pub const PWR_SR2_VOSF: u32 = 0x400;
pub const CRS_CR_CEN: u32 = 0x20;
pub const CRS_CR_AUTOTRIMEN: u32 = 0x40;
pub const CRS_CR_TRIM_32: u32 = 0x2000;
/// Reload 47999 (48 MHz over the 1 kHz USB frame rate), limit 34, sync on
/// the USB start of frame.
pub const CRS_CFGR_USB_SOF_SYNC: u32 = 0x2022_BB7F;

/// The clock set-up step that did not complete in time.
#[derive(Clone, Copy, Debug, PartialEq, Eq, Structural)]
pub enum ClockError {
    HsiNotReady,
    VoltageScaleNotReady,
    HsiSwitchFailed,
    PllDisableFailed,
    PllNotReady,
    PllSwitchFailed,
    Hsi48NotReady,
}

/// The programme that runs the core at 170 MHz from the internal
/// oscillator: start it, enter boost range, set eight flash wait states,
/// run from it while the PLL is stopped and reprogrammed, start the PLL
/// and switch to it with undivided buses.
pub open spec fn spec_configure_170mhz_hsi() -> Seq<RegisterStep<ClockError>> {
    seq![
        RegisterStep::Modify { address: RCC_CR, clear: 0, set: RCC_CR_HSION },
        RegisterStep::WaitFor {
            address: RCC_CR,
            mask: RCC_CR_HSIRDY,
            expected: RCC_CR_HSIRDY,
            error: ClockError::HsiNotReady,
        },
        RegisterStep::Modify { address: RCC_APB1ENR1, clear: 0, set: RCC_APB1ENR1_PWREN },
        RegisterStep::Read { address: RCC_APB1ENR1 },
        RegisterStep::Modify { address: PWR_CR5, clear: PWR_CR5_R1MODE, set: 0 },
        RegisterStep::WaitFor {
            address: PWR_SR2,
            mask: PWR_SR2_VOSF,
            expected: 0,
            error: ClockError::VoltageScaleNotReady,
        },
        RegisterStep::Modify {
            address: FLASH_ACR,
            clear: FLASH_ACR_LATENCY,
            set: FLASH_ACR_8WS_ACCELERATED,
        },
        RegisterStep::Modify { address: RCC_CFGR, clear: RCC_CFGR_SW, set: RCC_CFGR_SW_HSI },
        RegisterStep::WaitFor {
            address: RCC_CFGR,
            mask: RCC_CFGR_SWS,
            expected: RCC_CFGR_SWS_HSI,
            error: ClockError::HsiSwitchFailed,
        },
        RegisterStep::Modify { address: RCC_CR, clear: RCC_CR_PLLON, set: 0 },
        RegisterStep::WaitFor {
            address: RCC_CR,
            mask: RCC_CR_PLLRDY,
            expected: 0,
            error: ClockError::PllDisableFailed,
        },
        RegisterStep::Write { address: RCC_PLLCFGR, value: RCC_PLLCFGR_170MHZ_HSI },
        RegisterStep::Modify { address: RCC_CR, clear: 0, set: RCC_CR_PLLON },
        RegisterStep::WaitFor {
            address: RCC_CR,
            mask: RCC_CR_PLLRDY,
            expected: RCC_CR_PLLRDY,
            error: ClockError::PllNotReady,
        },
        RegisterStep::Modify { address: RCC_CFGR, clear: RCC_CFGR_PRESCALERS, set: 0 },
        RegisterStep::Modify { address: RCC_CFGR, clear: RCC_CFGR_SW, set: RCC_CFGR_SW_PLL },
        RegisterStep::WaitFor {
            address: RCC_CFGR,
            mask: RCC_CFGR_SWS,
            expected: RCC_CFGR_SWS_PLL,
            error: ClockError::PllSwitchFailed,
        },
    ]
}

pub fn configure_170mhz_hsi() -> (steps: Vec<RegisterStep<ClockError>>)
    ensures
        steps@ == spec_configure_170mhz_hsi(),
{
    let steps = vec![
        RegisterStep::Modify { address: RCC_CR, clear: 0, set: RCC_CR_HSION },
        RegisterStep::WaitFor {
            address: RCC_CR,
            mask: RCC_CR_HSIRDY,
            expected: RCC_CR_HSIRDY,
            error: ClockError::HsiNotReady,
        },
        RegisterStep::Modify { address: RCC_APB1ENR1, clear: 0, set: RCC_APB1ENR1_PWREN },
        RegisterStep::Read { address: RCC_APB1ENR1 },
        RegisterStep::Modify { address: PWR_CR5, clear: PWR_CR5_R1MODE, set: 0 },
        RegisterStep::WaitFor {
            address: PWR_SR2,
            mask: PWR_SR2_VOSF,
            expected: 0,
            error: ClockError::VoltageScaleNotReady,
        },
        RegisterStep::Modify {
            address: FLASH_ACR,
            clear: FLASH_ACR_LATENCY,
            set: FLASH_ACR_8WS_ACCELERATED,
        },
        RegisterStep::Modify { address: RCC_CFGR, clear: RCC_CFGR_SW, set: RCC_CFGR_SW_HSI },
        RegisterStep::WaitFor {
            address: RCC_CFGR,
            mask: RCC_CFGR_SWS,
            expected: RCC_CFGR_SWS_HSI,
            error: ClockError::HsiSwitchFailed,
        },
        RegisterStep::Modify { address: RCC_CR, clear: RCC_CR_PLLON, set: 0 },
        RegisterStep::WaitFor {
            address: RCC_CR,
            mask: RCC_CR_PLLRDY,
            expected: 0,
            error: ClockError::PllDisableFailed,
        },
        RegisterStep::Write { address: RCC_PLLCFGR, value: RCC_PLLCFGR_170MHZ_HSI },
        RegisterStep::Modify { address: RCC_CR, clear: 0, set: RCC_CR_PLLON },
        RegisterStep::WaitFor {
            address: RCC_CR,
            mask: RCC_CR_PLLRDY,
            expected: RCC_CR_PLLRDY,
            error: ClockError::PllNotReady,
        },
        RegisterStep::Modify { address: RCC_CFGR, clear: RCC_CFGR_PRESCALERS, set: 0 },
        RegisterStep::Modify { address: RCC_CFGR, clear: RCC_CFGR_SW, set: RCC_CFGR_SW_PLL },
        RegisterStep::WaitFor {
            address: RCC_CFGR,
            mask: RCC_CFGR_SWS,
            expected: RCC_CFGR_SWS_PLL,
            error: ClockError::PllSwitchFailed,
        },
    ];
    assert(steps@ =~= spec_configure_170mhz_hsi());
    steps
}

/// The programme that clocks USB from the 48 MHz oscillator trimmed to the
/// host's start-of-frame: start the oscillator, select it, enable and reset
/// the trimming unit, stop it, set it up and start it with automatic trim.
pub open spec fn spec_configure_usb_hsi48_crs() -> Seq<RegisterStep<ClockError>> {
    seq![
        RegisterStep::Modify { address: RCC_CRRCR, clear: 0, set: RCC_CRRCR_HSI48ON },
        RegisterStep::WaitFor {
            address: RCC_CRRCR,
            mask: RCC_CRRCR_HSI48RDY,
            expected: RCC_CRRCR_HSI48RDY,
            error: ClockError::Hsi48NotReady,
        },
        RegisterStep::Modify {
            address: RCC_CCIPR,
            clear: RCC_CCIPR_CLK48SEL,
            set: RCC_CCIPR_CLK48SEL_HSI48,
        },
        RegisterStep::Modify { address: RCC_APB1ENR1, clear: 0, set: RCC_APB1ENR1_CRSEN },
        RegisterStep::Read { address: RCC_APB1ENR1 },
        RegisterStep::Modify { address: RCC_APB1RSTR1, clear: 0, set: RCC_APB1RSTR1_CRSRST },
        RegisterStep::Modify { address: RCC_APB1RSTR1, clear: RCC_APB1RSTR1_CRSRST, set: 0 },
        RegisterStep::Modify { address: CRS_CR, clear: CRS_CR_CEN | CRS_CR_AUTOTRIMEN, set: 0 },
        RegisterStep::Write { address: CRS_CFGR, value: CRS_CFGR_USB_SOF_SYNC },
        RegisterStep::Write {
            address: CRS_CR,
            value: CRS_CR_TRIM_32 | CRS_CR_AUTOTRIMEN | CRS_CR_CEN,
        },
    ]
}

pub fn configure_usb_hsi48_crs() -> (steps: Vec<RegisterStep<ClockError>>)
    ensures
        steps@ == spec_configure_usb_hsi48_crs(),
{
    let steps = vec![
        RegisterStep::Modify { address: RCC_CRRCR, clear: 0, set: RCC_CRRCR_HSI48ON },
        RegisterStep::WaitFor {
            address: RCC_CRRCR,
            mask: RCC_CRRCR_HSI48RDY,
            expected: RCC_CRRCR_HSI48RDY,
            error: ClockError::Hsi48NotReady,
        },
        RegisterStep::Modify {
            address: RCC_CCIPR,
            clear: RCC_CCIPR_CLK48SEL,
            set: RCC_CCIPR_CLK48SEL_HSI48,
        },
        RegisterStep::Modify { address: RCC_APB1ENR1, clear: 0, set: RCC_APB1ENR1_CRSEN },
        RegisterStep::Read { address: RCC_APB1ENR1 },
        RegisterStep::Modify { address: RCC_APB1RSTR1, clear: 0, set: RCC_APB1RSTR1_CRSRST },
        RegisterStep::Modify { address: RCC_APB1RSTR1, clear: RCC_APB1RSTR1_CRSRST, set: 0 },
        RegisterStep::Modify { address: CRS_CR, clear: CRS_CR_CEN | CRS_CR_AUTOTRIMEN, set: 0 },
        RegisterStep::Write { address: CRS_CFGR, value: CRS_CFGR_USB_SOF_SYNC },
        RegisterStep::Write {
            address: CRS_CR,
            value: CRS_CR_TRIM_32 | CRS_CR_AUTOTRIMEN | CRS_CR_CEN,
        },
    ];
    assert(steps@ =~= spec_configure_usb_hsi48_crs());
    steps
}

/// The named clock constants come from their fields.
pub proof fn lemma_clock_constants()
    ensures
        RCC_PLLCFGR_170MHZ_HSI == 0x2u32 | (3u32 << 4u32) | (85u32 << 8u32) | (1u32 << 24u32),
        CRS_CFGR_USB_SOF_SYNC == 47_999u32 | (34u32 << 16u32) | (2u32 << 28u32),
        FLASH_ACR_8WS_ACCELERATED == 0x8u32 | (1u32 << 8u32) | (1u32 << 9u32) | (1u32 << 10u32),
        RCC_CFGR_PRESCALERS == 0xF0u32 | 0x0700u32 | 0x3800u32,
{
    assert(0x0100_5532u32 == 0x2u32 | (3u32 << 4u32) | (85u32 << 8u32) | (1u32 << 24u32)) by (bit_vector);
    assert(0x2022_BB7Fu32 == 47_999u32 | (34u32 << 16u32) | (2u32 << 28u32)) by (bit_vector);
    assert(0x708u32 == 0x8u32 | (1u32 << 8u32) | (1u32 << 9u32) | (1u32 << 10u32)) by (bit_vector);
    assert(0x3FF0u32 == 0xF0u32 | 0x0700u32 | 0x3800u32) by (bit_vector);
}

} // verus!
