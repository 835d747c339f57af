use vstd::prelude::*;

use crate::registers::RegisterStep;

verus! {

pub const RCC_AHB2ENR: usize = 0x4002_104C;
pub const RCC_APB2ENR: usize = 0x4002_1060;
pub const RCC_AHB2ENR_GPIOBEN: u32 = 0x2;
pub const RCC_AHB2ENR_ADC345EN: u32 = 0x4000;
pub const RCC_APB2ENR_SYSCFGEN: u32 = 0x1;

pub const GPIOB_MODER: usize = 0x4800_0400;
pub const GPIOB_OSPEEDR: usize = 0x4800_0408;
pub const GPIOB_AFRH: usize = 0x4800_0424;
/// The mode fields of the current sense pins PB11 to PB13.
pub const CURRENT_PIN_MODE_MASK: u32 = 0x0FC0_0000;
/// PB11 to PB13 in analog mode.
pub const CURRENT_PIN_ANALOG_VALUE: u32 = 0x0FC0_0000;
/// The alternate function fields of PB11 to PB13.
pub const CURRENT_PIN_AFRH_MASK: u32 = 0x00FF_F000;

pub const OPAMP3_BASE: usize = 0x4001_0308;
pub const OPAMP4_BASE: usize = 0x4001_030C;
pub const OPAMP6_BASE: usize = 0x4001_0314;
pub const OPAMP_CSR_ENABLE: u32 = 0x1;
pub const OPAMP_CSR_VPSEL_POS: u32 = 2;
pub const OPAMP_CSR_VMSEL_POS: u32 = 5;
pub const OPAMP_CSR_HIGHSPEEDEN: u32 = 0x80;
pub const OPAMP_CSR_OPAMPINTEN: u32 = 0x100;

pub const ADC3_BASE: usize = 0x5000_0400;
pub const ADC4_BASE: usize = 0x5000_0500;
pub const ADC5_BASE: usize = 0x5000_0600;
pub const ADC_COMMON_CCR: usize = 0x5000_0708;
pub const ADC_ISR: usize = 0x00;
pub const ADC_CR: usize = 0x08;
pub const ADC_SMPR1: usize = 0x14;
pub const ADC_SMPR2: usize = 0x18;
pub const ADC_JSQR: usize = 0x4C;
pub const ADC_JDR1: usize = 0x80;
pub const ADC_ISR_ADRDY: u32 = 0x1;
pub const ADC_CR_ADEN: u32 = 0x1;
pub const ADC_CR_JADSTART: u32 = 0x8;
pub const ADC_CR_ADVREGEN: u32 = 0x1000_0000;
pub const ADC_CR_ADCALDIF: u32 = 0x4000_0000;
pub const ADC_CR_ADCAL: u32 = 0x8000_0000;
/// The reference buffer on and the ADC clock at a quarter of the bus clock.
pub const ADC_CCR_VREFEN_HCLK_DIV4: u32 = 0x0043_0000;
/// Injected conversions triggered by the first HRTIM ADC trigger, rising edge.
pub const ADC_JSQR_HRTIM_TRG1: u32 = 0xEC;
pub const ADC_JSQR_JSQ1_POS: u32 = 9;
pub const ADC_SAMPLE_12_5_CYCLES: u32 = 2;
/// Spin iterations between calibration steps.
pub const SHORT_DELAY_ITERATIONS: u32 = 2048;

/// The raw current samples of the three phases.
#[derive(Clone, Copy, Debug, PartialEq, Eq, Structural)]
pub struct CurrentSamples {
    pub phase_a: u16,
    pub phase_b: u16,
    pub phase_c: u16,
}

/// The ADC that failed to calibrate or to become ready.
#[derive(Clone, Copy, Debug, PartialEq, Eq, Structural)]
pub enum CurrentAdcError {
    CalibrationTimeout { adc_base: usize },
    ReadyTimeout { adc_base: usize },
}

/// The control register of an op-amp that follows input `vpsel` with
/// its internal gain network at high speed.
pub fn opamp_csr(vpsel: u32) -> (v: u32)
    ensures
        v == (vpsel << OPAMP_CSR_VPSEL_POS) | (3u32 << OPAMP_CSR_VMSEL_POS) | OPAMP_CSR_HIGHSPEEDEN
            | OPAMP_CSR_OPAMPINTEN | OPAMP_CSR_ENABLE,
{
    (vpsel << OPAMP_CSR_VPSEL_POS) | (3u32 << OPAMP_CSR_VMSEL_POS) | OPAMP_CSR_HIGHSPEEDEN
        | OPAMP_CSR_OPAMPINTEN | OPAMP_CSR_ENABLE
}

/// The injected sequence register that converts `channel` alone on the
/// HRTIM trigger.
pub fn injected_sequence(channel: u32) -> (v: u32)
    ensures
        v == ADC_JSQR_HRTIM_TRG1 | (channel << ADC_JSQR_JSQ1_POS),
{
    ADC_JSQR_HRTIM_TRG1 | (channel << ADC_JSQR_JSQ1_POS)
}

/// The sample time register value that gives `channel` 12.5 cycles: its
/// three-bit field in the register that holds it (channel mod 10).
pub fn sample_time(channel: u32) -> (v: u32)
    ensures
        v == ADC_SAMPLE_12_5_CYCLES << ((channel % 10) * 3),
{
    ADC_SAMPLE_12_5_CYCLES << ((channel % 10) * 3)
}

/// The address of register `offset` of the ADC at `adc_base`.
pub fn adc_register(adc_base: usize, offset: usize) -> (a: usize)
    requires
        adc_base + offset <= usize::MAX,
    ensures
        a == adc_base + offset,
{
    adc_base + offset
}

/// The conversion result in an injected data register.
pub fn jdr_sample(jdr: u32) -> (s: u16)
    ensures
        s == jdr % 0x1_0000,
{
    let v = jdr & 0xFFFF;
    assert(v == jdr % 0x1_0000) by (bit_vector)
        requires
            v == jdr & 0xFFFF,
    ;
    v as u16
}

/// Powers up and calibrates the ADC at `adc_base` (single-ended, then
/// differential) and enables it.
pub open spec fn spec_enable_adc(adc_base: usize) -> Seq<RegisterStep<CurrentAdcError>> {
    let cr = (adc_base + ADC_CR) as usize;
    let isr = (adc_base + ADC_ISR) as usize;
    seq![
        RegisterStep::Write { address: cr, value: ADC_CR_ADVREGEN },
        RegisterStep::Delay { iterations: SHORT_DELAY_ITERATIONS },
        RegisterStep::Modify { address: cr, clear: 0, set: ADC_CR_ADCAL },
        RegisterStep::WaitFor {
            address: cr,
            mask: ADC_CR_ADCAL,
            expected: 0,
            error: CurrentAdcError::CalibrationTimeout { adc_base },
        },
        RegisterStep::Delay { iterations: SHORT_DELAY_ITERATIONS },
        RegisterStep::Modify { address: cr, clear: 0, set: ADC_CR_ADCALDIF | ADC_CR_ADCAL },
        RegisterStep::WaitFor {
            address: cr,
            mask: ADC_CR_ADCAL,
            expected: 0,
            error: CurrentAdcError::CalibrationTimeout { adc_base },
        },
        RegisterStep::Delay { iterations: SHORT_DELAY_ITERATIONS },
        RegisterStep::Write { address: isr, value: ADC_ISR_ADRDY },
        RegisterStep::Modify { address: cr, clear: 0, set: ADC_CR_ADEN },
        RegisterStep::WaitFor {
            address: isr,
            mask: ADC_ISR_ADRDY,
            expected: ADC_ISR_ADRDY,
            error: CurrentAdcError::ReadyTimeout { adc_base },
        },
    ]
}

fn push_enable_adc(steps: &mut Vec<RegisterStep<CurrentAdcError>>, adc_base: usize)
    requires
        adc_base == ADC3_BASE || adc_base == ADC4_BASE || adc_base == ADC5_BASE,
    ensures
        final(steps)@ == old(steps)@ + spec_enable_adc(adc_base),
{
    let cr = adc_base + ADC_CR;
    let isr = adc_base + ADC_ISR;
    let ghost before = steps@;
    steps.push(RegisterStep::Write { address: cr, value: ADC_CR_ADVREGEN });
    steps.push(RegisterStep::Delay { iterations: SHORT_DELAY_ITERATIONS });
    steps.push(RegisterStep::Modify { address: cr, clear: 0, set: ADC_CR_ADCAL });
    steps.push(
        RegisterStep::WaitFor {
            address: cr,
            mask: ADC_CR_ADCAL,
            expected: 0,
            error: CurrentAdcError::CalibrationTimeout { adc_base },
        },
    );
    steps.push(RegisterStep::Delay { iterations: SHORT_DELAY_ITERATIONS });
    steps.push(RegisterStep::Modify { address: cr, clear: 0, set: ADC_CR_ADCALDIF | ADC_CR_ADCAL });
    steps.push(
        RegisterStep::WaitFor {
            address: cr,
            mask: ADC_CR_ADCAL,
            expected: 0,
            error: CurrentAdcError::CalibrationTimeout { adc_base },
        },
    );
    steps.push(RegisterStep::Delay { iterations: SHORT_DELAY_ITERATIONS });
    steps.push(RegisterStep::Write { address: isr, value: ADC_ISR_ADRDY });
    steps.push(RegisterStep::Modify { address: cr, clear: 0, set: ADC_CR_ADEN });
    steps.push(
        RegisterStep::WaitFor {
            address: isr,
            mask: ADC_ISR_ADRDY,
            expected: ADC_ISR_ADRDY,
            error: CurrentAdcError::ReadyTimeout { adc_base },
        },
    );
    assert(steps@ =~= before + spec_enable_adc(adc_base));
}

/// Clocks, pins, op-amps, the common ADC settings and the channel, sample
/// time and trigger of each phase's ADC.
pub open spec fn spec_adc_setup() -> Seq<RegisterStep<CurrentAdcError>> {
    seq![
        RegisterStep::Modify {
            address: RCC_AHB2ENR,
            clear: 0,
            set: RCC_AHB2ENR_GPIOBEN | RCC_AHB2ENR_ADC345EN,
        },
        RegisterStep::Modify { address: RCC_APB2ENR, clear: 0, set: RCC_APB2ENR_SYSCFGEN },
        RegisterStep::Read { address: RCC_AHB2ENR },
        RegisterStep::Read { address: RCC_APB2ENR },
        RegisterStep::Modify {
            address: GPIOB_MODER,
            clear: CURRENT_PIN_MODE_MASK,
            set: CURRENT_PIN_ANALOG_VALUE,
        },
        RegisterStep::Modify { address: GPIOB_OSPEEDR, clear: CURRENT_PIN_MODE_MASK, set: 0 },
        RegisterStep::Modify { address: GPIOB_AFRH, clear: CURRENT_PIN_AFRH_MASK, set: 0 },
        RegisterStep::Write { address: OPAMP3_BASE, value: 0x1E5 },
        RegisterStep::Write { address: OPAMP4_BASE, value: 0x1E9 },
        RegisterStep::Write { address: OPAMP6_BASE, value: 0x1E1 },
        RegisterStep::Write { address: ADC_COMMON_CCR, value: ADC_CCR_VREFEN_HCLK_DIV4 },
        RegisterStep::Write { address: (ADC3_BASE + ADC_SMPR2) as usize, value: 0x400 },
        RegisterStep::Write { address: (ADC3_BASE + ADC_JSQR) as usize, value: 0x1AEC },
        RegisterStep::Write { address: (ADC4_BASE + ADC_SMPR2) as usize, value: 0x40_0000 },
        RegisterStep::Write { address: (ADC4_BASE + ADC_JSQR) as usize, value: 0x22EC },
        RegisterStep::Write { address: (ADC5_BASE + ADC_SMPR1) as usize, value: 0x1_0000 },
        RegisterStep::Write { address: (ADC5_BASE + ADC_JSQR) as usize, value: 0xAEC },
    ]
}

/// Starts injected conversions, last ADC first.
pub open spec fn spec_start_injected() -> Seq<RegisterStep<CurrentAdcError>> {
    seq![
        RegisterStep::Modify { address: (ADC5_BASE + ADC_CR) as usize, clear: 0, set: ADC_CR_JADSTART },
        RegisterStep::Modify { address: (ADC4_BASE + ADC_CR) as usize, clear: 0, set: ADC_CR_JADSTART },
        RegisterStep::Modify { address: (ADC3_BASE + ADC_CR) as usize, clear: 0, set: ADC_CR_JADSTART },
    ]
}

/// The three phase current ADCs: phase A on ADC3 (op-amp 3, channel 13),
/// phase B on ADC4 (op-amp 4, channel 17), phase C on ADC5 (op-amp 6,
/// channel 5).
pub struct CurrentAdc;

impl CurrentAdc {
    /// The programme that brings up the current ADCs: set-up, then each ADC
    /// calibrated and enabled in turn, then conversions started.
    pub fn init_motor_hall() -> (steps: Vec<RegisterStep<CurrentAdcError>>)
        ensures
            steps@ == spec_adc_setup() + spec_enable_adc(ADC3_BASE) + spec_enable_adc(ADC4_BASE)
                + spec_enable_adc(ADC5_BASE) + spec_start_injected(),
    {
        let mut steps: Vec<RegisterStep<CurrentAdcError>> = Vec::new();
        steps.push(
            RegisterStep::Modify {
                address: RCC_AHB2ENR,
                clear: 0,
                set: RCC_AHB2ENR_GPIOBEN | RCC_AHB2ENR_ADC345EN,
            },
        );
        steps.push(RegisterStep::Modify { address: RCC_APB2ENR, clear: 0, set: RCC_APB2ENR_SYSCFGEN });
        steps.push(RegisterStep::Read { address: RCC_AHB2ENR });
        steps.push(RegisterStep::Read { address: RCC_APB2ENR });
        steps.push(
            RegisterStep::Modify {
                address: GPIOB_MODER,
                clear: CURRENT_PIN_MODE_MASK,
                set: CURRENT_PIN_ANALOG_VALUE,
            },
        );
        steps.push(RegisterStep::Modify { address: GPIOB_OSPEEDR, clear: CURRENT_PIN_MODE_MASK, set: 0 });
        steps.push(RegisterStep::Modify { address: GPIOB_AFRH, clear: CURRENT_PIN_AFRH_MASK, set: 0 });
        let csr3 = opamp_csr(1);
        let csr4 = opamp_csr(2);
        let csr6 = opamp_csr(0);
        assert(csr3 == 0x1E5 && csr4 == 0x1E9 && csr6 == 0x1E1) by (bit_vector)
            requires
                csr3 == (1u32 << 2u32) | (3u32 << 5u32) | 0x80u32 | 0x100u32 | 0x1u32,
                csr4 == (2u32 << 2u32) | (3u32 << 5u32) | 0x80u32 | 0x100u32 | 0x1u32,
                csr6 == (0u32 << 2u32) | (3u32 << 5u32) | 0x80u32 | 0x100u32 | 0x1u32,
        ;
        steps.push(RegisterStep::Write { address: OPAMP3_BASE, value: csr3 });
        steps.push(RegisterStep::Write { address: OPAMP4_BASE, value: csr4 });
        steps.push(RegisterStep::Write { address: OPAMP6_BASE, value: csr6 });
        steps.push(RegisterStep::Write { address: ADC_COMMON_CCR, value: ADC_CCR_VREFEN_HCLK_DIV4 });
        let t13 = sample_time(13);
        let t17 = sample_time(17);
        let t5 = sample_time(5);
        let q13 = injected_sequence(13);
        let q17 = injected_sequence(17);
        let q5 = injected_sequence(5);
        assert(t13 == 0x400 && t17 == 0x40_0000 && t5 == 0x1_0000 && q13 == 0x1AEC && q17 == 0x22EC
            && q5 == 0xAEC) by (bit_vector)
            requires
                t13 == 2u32 << 9u32,
                t17 == 2u32 << 21u32,
                t5 == 2u32 << 15u32,
                q13 == 0xECu32 | (13u32 << 9u32),
                q17 == 0xECu32 | (17u32 << 9u32),
                q5 == 0xECu32 | (5u32 << 9u32),
        ;
        steps.push(RegisterStep::Write { address: adc_register(ADC3_BASE, ADC_SMPR2), value: t13 });
        steps.push(RegisterStep::Write { address: adc_register(ADC3_BASE, ADC_JSQR), value: q13 });
        steps.push(RegisterStep::Write { address: adc_register(ADC4_BASE, ADC_SMPR2), value: t17 });
        steps.push(RegisterStep::Write { address: adc_register(ADC4_BASE, ADC_JSQR), value: q17 });
        steps.push(RegisterStep::Write { address: adc_register(ADC5_BASE, ADC_SMPR1), value: t5 });
        steps.push(RegisterStep::Write { address: adc_register(ADC5_BASE, ADC_JSQR), value: q5 });
        assert(steps@ =~= spec_adc_setup());
        push_enable_adc(&mut steps, ADC3_BASE);
        push_enable_adc(&mut steps, ADC4_BASE);
        push_enable_adc(&mut steps, ADC5_BASE);
        let ghost before = steps@;
        steps.push(RegisterStep::Modify { address: adc_register(ADC5_BASE, ADC_CR), clear: 0, set: ADC_CR_JADSTART });
        steps.push(RegisterStep::Modify { address: adc_register(ADC4_BASE, ADC_CR), clear: 0, set: ADC_CR_JADSTART });
        steps.push(RegisterStep::Modify { address: adc_register(ADC3_BASE, ADC_CR), clear: 0, set: ADC_CR_JADSTART });
        assert(steps@ =~= before + spec_start_injected());
        steps
    }

    /// The samples in the three injected data registers.
    pub fn read_samples(&self, jdr_a: u32, jdr_b: u32, jdr_c: u32) -> (s: CurrentSamples)
        ensures
            s == (CurrentSamples {
                phase_a: (jdr_a % 0x1_0000) as u16,
                phase_b: (jdr_b % 0x1_0000) as u16,
                phase_c: (jdr_c % 0x1_0000) as u16,
            }),
    {
        CurrentSamples {
            phase_a: jdr_sample(jdr_a),
            phase_b: jdr_sample(jdr_b),
            phase_c: jdr_sample(jdr_c),
        }
    }
}

} // verus!
