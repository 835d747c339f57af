use vstd::prelude::*;

use crate::registers::{RegisterStep, RegisterWrite};

verus! {

pub const CPU_HZ: u32 = 170_000_000;
pub const PWM_HZ: u32 = 50_000;
pub const HRTIM_PRESCALER: u32 = 32;
/// The centre-aligned period: the prescaled timer clock over twice the PWM
/// rate.
pub const PWM_PERIOD: u32 = 54_400;
/// The compare value that gives zero average phase voltage.
pub const PWM_ZERO_COMPARE: u32 = 27_200;
pub const DEADTIME_NS: u32 = 200;
pub const MIN_OFF_NS: u32 = 1_000;
pub const MIN_ON_NS: u32 = 0;
/// Timer counts per microsecond: the CPU clock in MHz times the prescaler,
/// over the four counts of the timer's clock path.
pub const HRTIM_COUNTS_PER_US: u32 = CPU_HZ / 1_000_000 * HRTIM_PRESCALER / 4;
#[verifier::nonlinear]
pub const DEADTIME_COUNTS: u32 = DEADTIME_NS * HRTIM_COUNTS_PER_US / 1_000;
#[verifier::nonlinear]
pub const MIN_OFF_COUNTS: u32 = 2 * MIN_OFF_NS * HRTIM_COUNTS_PER_US / 1_000;
#[verifier::nonlinear]
pub const MIN_ON_COUNTS: u32 = 2 * MIN_ON_NS * HRTIM_COUNTS_PER_US / 1_000;
pub const PWM_MIN_COMPARE: u32 = MIN_OFF_COUNTS;
/// The period less the larger of the minimum on time and 65 counts.
pub const PWM_MAX_COMPARE: u32 = 54_335;

pub const HRTIM1_BASE: usize = 0x4001_6800;
pub const HRTIM_COMMON_ODSR: usize = 0x4001_6B9C;
pub const HRTIM_TIMER_BASE: usize = 0x4001_6880;
pub const HRTIM_TIMER_STRIDE: usize = 0x80;
pub const HRTIM_CMP1XR: usize = 0x1C;
pub const HRTIM_DTR_DTR_POS: u32 = 0;
pub const HRTIM_DTR_DTF_POS: u32 = 16;
pub const HRTIM_MOTOR_OUTPUTS: u32 = 0x0FC0;

pub const TIMER_D: usize = 3;
pub const TIMER_E: usize = 4;
pub const TIMER_F: usize = 5;

pub const RCC_APB2ENR: usize = 0x4002_1060;
pub const RCC_APB2ENR_HRTIM1EN: u32 = 0x400_0000;
pub const HRTIM_MASTER_MCR: usize = 0x4001_6800;
pub const HRTIM_COMMON_ODISR: usize = 0x4001_6B98;
pub const HRTIM_COMMON_ADC1R: usize = 0x4001_6BBC;
pub const HRTIM_COMMON_ADC2R: usize = 0x4001_6BC0;
pub const HRTIM_COMMON_DLLCR: usize = 0x4001_6BCC;
pub const HRTIM_TIMXCR: usize = 0x00;
pub const HRTIM_PERXR: usize = 0x14;
pub const HRTIM_DTXR: usize = 0x38;
pub const HRTIM_OUTXR: usize = 0x64;
pub const HRTIM_TIMXCR2: usize = 0x6C;
/// Continuous mode, reset on update, preload.
pub const HRTIM_TIMCR_RUN: u32 = 0x0804_0008;
/// Up-down (centre-aligned) counting.
pub const HRTIM_TIMCR2_UDM: u32 = 0x10;
/// ADC trigger on the counter's valley.
pub const HRTIM_TIMCR2_ADROM_VALLEY: u32 = 0x400;
pub const HRTIM_OUTR_DTEN: u32 = 0x100;
/// Timers D, E and F counting.
pub const HRTIM_MCR_TDEF_EN: u32 = 0x70_0000;
/// DLL calibration on, repeated every 2048 cycles.
pub const HRTIM_DLLCR_CAL_2048: u32 = 0xE;
pub const HRTIM_ADC_TRIGGER_TIMER_F_PERIOD: u32 = 0x100_0000;
pub const HRTIM_DISABLE_ALL_OUTPUTS: u32 = 0x0FFF;

/// The derived timing constants agree with the rates they come from.
pub proof fn lemma_pwm_constants()
    by (nonlinear_arith)
    ensures
        PWM_PERIOD == (CPU_HZ as int) * (HRTIM_PRESCALER as int) / 2 / (PWM_HZ as int),
        PWM_ZERO_COMPARE == PWM_PERIOD / 2,
        HRTIM_COUNTS_PER_US == 1_360,
        DEADTIME_COUNTS == 272,
        PWM_MIN_COMPARE == 2_720,
        PWM_MAX_COMPARE == PWM_PERIOD - (if MIN_ON_COUNTS > 65 {
            MIN_ON_COUNTS
        } else {
            65
        }),
{
}

/// The compare values of the three phases.
#[derive(Clone, Copy, Debug, PartialEq, Eq, Structural)]
pub struct PhaseCompares {
    pub phase_a: u32,
    pub phase_b: u32,
    pub phase_c: u32,
}

impl PhaseCompares {
    /// The same compare on every phase.
    pub fn from_compare(compare: u32) -> (p: Self)
        ensures
            p == (PhaseCompares { phase_a: compare, phase_b: compare, phase_c: compare }),
    {
        PhaseCompares { phase_a: compare, phase_b: compare, phase_c: compare }
    }

    /// The centred compare on every phase: no voltage across the motor.
    pub fn zero_voltage() -> (p: Self)
        ensures
            p == (PhaseCompares {
                phase_a: PWM_ZERO_COMPARE,
                phase_b: PWM_ZERO_COMPARE,
                phase_c: PWM_ZERO_COMPARE,
            }),
    {
        Self::from_compare(PWM_ZERO_COMPARE)
    }
}

/// What the bridge outputs report: the disable status bits of the motor
/// outputs, and whether they are all disabled or all enabled.
#[derive(Clone, Copy, Debug, PartialEq, Eq, Structural)]
pub struct BridgeOutputStatus {
    pub disable_status: u32,
    pub all_disabled: bool,
    pub all_enabled: bool,
}

/// The address of register `offset` of HRTIM timer `timer`.
pub open spec fn spec_timer_register(timer: usize, offset: usize) -> int {
    HRTIM_TIMER_BASE + timer * HRTIM_TIMER_STRIDE + offset
}

pub fn timer_register(timer: usize, offset: usize) -> (a: usize)
    requires
        timer <= 5,
        offset < HRTIM_TIMER_STRIDE,
    ensures
        a == spec_timer_register(timer, offset),
{
    HRTIM_TIMER_BASE + timer * HRTIM_TIMER_STRIDE + offset
}

/// The dead time register: the same dead time on the rising and the falling
/// edge.
pub fn deadtime_register() -> (v: u32)
    ensures
        v == DEADTIME_COUNTS * 0x1_0000 + DEADTIME_COUNTS,
{
    let v = (DEADTIME_COUNTS << HRTIM_DTR_DTF_POS) | (DEADTIME_COUNTS << HRTIM_DTR_DTR_POS);
    assert(v == 272 * 0x1_0000 + 272) by (bit_vector)
        requires
            v == (272u32 << 16u32) | (272u32 << 0u32),
    ;
    v
}

/// Clamps a compare value to `[min, max]`.
pub fn clamp_compare_counts(compare: i32, min: i32, max: i32) -> (c: u32)
    requires
        0 <= min <= max,
    ensures
        c == (if compare < min {
            min as int
        } else if compare > max {
            max as int
        } else {
            compare as int
        }),
{
    let clamped = if compare < min {
        min
    } else if compare > max {
        max
    } else {
        compare
    };
    clamped as u32
}

/// The compares applied to the bridge: the commanded ones when output is
/// allowed, the centred ones otherwise.
pub fn gated_compares(commanded: PhaseCompares, output_allowed: bool) -> (p: PhaseCompares)
    ensures
        p == (if output_allowed {
            commanded
        } else {
            PhaseCompares {
                phase_a: PWM_ZERO_COMPARE,
                phase_b: PWM_ZERO_COMPARE,
                phase_c: PWM_ZERO_COMPARE,
            }
        }),
{
    if output_allowed {
        commanded
    } else {
        PhaseCompares::zero_voltage()
    }
}

/// The compare writes for the three phases: phase A drives timer D, phase B
/// timer F and phase C timer E.
pub open spec fn spec_phase_writes(compares: PhaseCompares) -> Seq<RegisterWrite> {
    seq![
        RegisterWrite {
            address: spec_timer_register(TIMER_D, HRTIM_CMP1XR) as usize,
            value: compares.phase_a,
        },
        RegisterWrite {
            address: spec_timer_register(TIMER_F, HRTIM_CMP1XR) as usize,
            value: compares.phase_b,
        },
        RegisterWrite {
            address: spec_timer_register(TIMER_E, HRTIM_CMP1XR) as usize,
            value: compares.phase_c,
        },
    ]
}

/// Each phase's compare goes to the compare 1 register of its own timer:
/// phase A to timer D at 0x4001_6A1C, phase B to timer F at 0x4001_6B1C,
/// phase C to timer E at 0x4001_6A9C; the three addresses differ.
pub proof fn lemma_phase_compare_addresses(compares: PhaseCompares)
    ensures
        spec_phase_writes(compares) == seq![
            RegisterWrite { address: 0x4001_6A1Cusize, value: compares.phase_a },
            RegisterWrite { address: 0x4001_6B1Cusize, value: compares.phase_b },
            RegisterWrite { address: 0x4001_6A9Cusize, value: compares.phase_c },
        ],
{
    assert(spec_phase_writes(compares) =~= seq![
        RegisterWrite { address: 0x4001_6A1Cusize, value: compares.phase_a },
        RegisterWrite { address: 0x4001_6B1Cusize, value: compares.phase_b },
        RegisterWrite { address: 0x4001_6A9Cusize, value: compares.phase_c },
    ]);
}

pub fn phase_compare_writes(compares: PhaseCompares) -> (w: [RegisterWrite; 3])
    ensures
        w@ == spec_phase_writes(compares),
{
    let w = [
        RegisterWrite { address: timer_register(TIMER_D, HRTIM_CMP1XR), value: compares.phase_a },
        RegisterWrite { address: timer_register(TIMER_F, HRTIM_CMP1XR), value: compares.phase_b },
        RegisterWrite { address: timer_register(TIMER_E, HRTIM_CMP1XR), value: compares.phase_c },
    ];
    assert(w@ =~= spec_phase_writes(compares));
    w
}

/// One motor timer: centre-aligned at the PWM period, compare centred,
/// outputs with dead time on both edges, then started.
pub open spec fn spec_configure_timer<E>(timer: usize) -> Seq<RegisterStep<E>> {
    seq![
        RegisterStep::Write {
            address: spec_timer_register(timer, HRTIM_TIMXCR2) as usize,
            value: HRTIM_TIMCR2_UDM,
        },
        RegisterStep::Write {
            address: spec_timer_register(timer, HRTIM_PERXR) as usize,
            value: PWM_PERIOD,
        },
        RegisterStep::Write {
            address: spec_timer_register(timer, HRTIM_CMP1XR) as usize,
            value: PWM_ZERO_COMPARE,
        },
        RegisterStep::Write {
            address: spec_timer_register(timer, HRTIM_OUTXR) as usize,
            value: HRTIM_OUTR_DTEN,
        },
        RegisterStep::Write {
            address: spec_timer_register(timer, HRTIM_DTXR) as usize,
            value: (DEADTIME_COUNTS * 0x1_0000 + DEADTIME_COUNTS) as u32,
        },
        RegisterStep::Modify {
            address: spec_timer_register(timer, HRTIM_TIMXCR) as usize,
            clear: 0,
            set: HRTIM_TIMCR_RUN,
        },
    ]
}

/// The bridge bring-up: HRTIM clocked, every output disabled, timers D, E
/// and F configured, timer F triggering both ADCs at its valley, the DLL
/// calibrating, outputs disabled again, every phase centred and the three
/// timers started.
pub open spec fn spec_pwm_init<E>() -> Seq<RegisterStep<E>> {
    seq![
        RegisterStep::Modify { address: RCC_APB2ENR, clear: 0, set: RCC_APB2ENR_HRTIM1EN },
        RegisterStep::Read { address: RCC_APB2ENR },
        RegisterStep::Write { address: HRTIM_COMMON_ODISR, value: HRTIM_DISABLE_ALL_OUTPUTS },
    ] + spec_configure_timer(TIMER_D) + spec_configure_timer(TIMER_E) + spec_configure_timer(TIMER_F)
        + seq![
        RegisterStep::Modify {
            address: spec_timer_register(TIMER_F, HRTIM_TIMXCR2) as usize,
            clear: 0,
            set: HRTIM_TIMCR2_ADROM_VALLEY,
        },
        RegisterStep::Write { address: HRTIM_COMMON_ADC1R, value: HRTIM_ADC_TRIGGER_TIMER_F_PERIOD },
        RegisterStep::Write { address: HRTIM_COMMON_ADC2R, value: HRTIM_ADC_TRIGGER_TIMER_F_PERIOD },
        RegisterStep::Write { address: HRTIM_COMMON_DLLCR, value: HRTIM_DLLCR_CAL_2048 },
        RegisterStep::Write { address: HRTIM_COMMON_ODISR, value: HRTIM_DISABLE_ALL_OUTPUTS },
        RegisterStep::Write {
            address: spec_timer_register(TIMER_D, HRTIM_CMP1XR) as usize,
            value: PWM_ZERO_COMPARE,
        },
        RegisterStep::Write {
            address: spec_timer_register(TIMER_E, HRTIM_CMP1XR) as usize,
            value: PWM_ZERO_COMPARE,
        },
        RegisterStep::Write {
            address: spec_timer_register(TIMER_F, HRTIM_CMP1XR) as usize,
            value: PWM_ZERO_COMPARE,
        },
        RegisterStep::Modify { address: HRTIM_MASTER_MCR, clear: 0, set: HRTIM_MCR_TDEF_EN },
    ]
}

fn push_configure_timer<E>(steps: &mut Vec<RegisterStep<E>>, timer: usize)
    requires
        3 <= timer <= 5,
    ensures
        final(steps)@ == old(steps)@ + spec_configure_timer::<E>(timer),
{
    let ghost before = steps@;
    steps.push(RegisterStep::Write { address: timer_register(timer, HRTIM_TIMXCR2), value: HRTIM_TIMCR2_UDM });
    steps.push(RegisterStep::Write { address: timer_register(timer, HRTIM_PERXR), value: PWM_PERIOD });
    steps.push(RegisterStep::Write { address: timer_register(timer, HRTIM_CMP1XR), value: PWM_ZERO_COMPARE });
    steps.push(RegisterStep::Write { address: timer_register(timer, HRTIM_OUTXR), value: HRTIM_OUTR_DTEN });
    steps.push(RegisterStep::Write { address: timer_register(timer, HRTIM_DTXR), value: deadtime_register() });
    steps.push(RegisterStep::Modify { address: timer_register(timer, HRTIM_TIMXCR), clear: 0, set: HRTIM_TIMCR_RUN });
    assert(steps@ =~= before + spec_configure_timer::<E>(timer));
}

fn pwm_init_steps<E>() -> (steps: Vec<RegisterStep<E>>)
    ensures
        steps@ == spec_pwm_init::<E>(),
{
    let mut steps: Vec<RegisterStep<E>> = Vec::new();
    steps.push(RegisterStep::Modify { address: RCC_APB2ENR, clear: 0, set: RCC_APB2ENR_HRTIM1EN });
    steps.push(RegisterStep::Read { address: RCC_APB2ENR });
    steps.push(RegisterStep::Write { address: HRTIM_COMMON_ODISR, value: HRTIM_DISABLE_ALL_OUTPUTS });
    push_configure_timer(&mut steps, TIMER_D);
    push_configure_timer(&mut steps, TIMER_E);
    push_configure_timer(&mut steps, TIMER_F);
    steps.push(
        RegisterStep::Modify {
            address: timer_register(TIMER_F, HRTIM_TIMXCR2),
            clear: 0,
            set: HRTIM_TIMCR2_ADROM_VALLEY,
        },
    );
    steps.push(RegisterStep::Write { address: HRTIM_COMMON_ADC1R, value: HRTIM_ADC_TRIGGER_TIMER_F_PERIOD });
    steps.push(RegisterStep::Write { address: HRTIM_COMMON_ADC2R, value: HRTIM_ADC_TRIGGER_TIMER_F_PERIOD });
    steps.push(RegisterStep::Write { address: HRTIM_COMMON_DLLCR, value: HRTIM_DLLCR_CAL_2048 });
    steps.push(RegisterStep::Write { address: HRTIM_COMMON_ODISR, value: HRTIM_DISABLE_ALL_OUTPUTS });
    steps.push(RegisterStep::Write { address: timer_register(TIMER_D, HRTIM_CMP1XR), value: PWM_ZERO_COMPARE });
    steps.push(RegisterStep::Write { address: timer_register(TIMER_E, HRTIM_CMP1XR), value: PWM_ZERO_COMPARE });
    steps.push(RegisterStep::Write { address: timer_register(TIMER_F, HRTIM_CMP1XR), value: PWM_ZERO_COMPARE });
    steps.push(RegisterStep::Modify { address: HRTIM_MASTER_MCR, clear: 0, set: HRTIM_MCR_TDEF_EN });
    assert(steps@ =~= spec_pwm_init::<E>());
    steps
}

/// The bridge, held at zero voltage until armed.
pub struct SafeZeroPwm {
    bridge_outputs_armed: bool,
}

impl SafeZeroPwm {
    pub closed spec fn armed(&self) -> bool {
        self.bridge_outputs_armed
    }

    /// The bridge, outputs not armed, with the programme that brings it up
    /// at zero voltage.
    pub fn init_motor_hall<E>() -> (r: (Self, Vec<RegisterStep<E>>))
        ensures
            !r.0.armed(),
            r.1@ == spec_pwm_init::<E>(),
    {
        (SafeZeroPwm { bridge_outputs_armed: false }, pwm_init_steps())
    }

    /// The writes that centre every phase.
    pub fn write_zero_voltage(&self) -> (w: [RegisterWrite; 3])
        ensures
            w@ == spec_phase_writes(
                PhaseCompares {
                    phase_a: PWM_ZERO_COMPARE,
                    phase_b: PWM_ZERO_COMPARE,
                    phase_c: PWM_ZERO_COMPARE,
                },
            ),
    {
        phase_compare_writes(PhaseCompares::zero_voltage())
    }

    /// The output status, given the output disable status register `odsr`:
    /// its motor output bits, and all outputs disabled exactly when the
    /// bridge is not armed.
    pub fn bridge_output_status(&self, odsr: u32) -> (s: BridgeOutputStatus)
        ensures
            s == (BridgeOutputStatus {
                disable_status: odsr & HRTIM_MOTOR_OUTPUTS,
                all_disabled: !self.armed(),
                all_enabled: self.armed(),
            }),
    {
        BridgeOutputStatus {
            disable_status: odsr & HRTIM_MOTOR_OUTPUTS,
            all_disabled: !self.bridge_outputs_armed,
            all_enabled: self.bridge_outputs_armed,
        }
    }
}

} // verus!
