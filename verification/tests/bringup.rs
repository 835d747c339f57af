use obot::adc::{
    adc_register, injected_sequence, jdr_sample, opamp_csr, sample_time, CurrentAdc,
    CurrentAdcError, CurrentSamples, ADC3_BASE, ADC4_BASE, ADC5_BASE, ADC_CR, ADC_CR_JADSTART,
};
use obot::clock::{
    configure_170mhz_hsi, configure_usb_hsi48_crs, ClockError, RCC_CFGR, RCC_CR, RCC_CR_HSION,
    RCC_PLLCFGR, RCC_PLLCFGR_170MHZ_HSI,
};
use obot::hex_bytes::{hex_input_splits_char, parse_hex_bytes};
use obot::registers::{modified, RegisterStep};

#[test]
fn clock_programme_starts_hsi_and_ends_on_pll() {
    let steps = configure_170mhz_hsi();
    assert_eq!(steps.len(), 17);
    assert_eq!(
        steps[0],
        RegisterStep::Modify { address: RCC_CR, clear: 0, set: RCC_CR_HSION }
    );
    assert!(steps.contains(&RegisterStep::Write {
        address: RCC_PLLCFGR,
        value: RCC_PLLCFGR_170MHZ_HSI
    }));
    match steps[16] {
        RegisterStep::WaitFor { address, mask, expected, error } => {
            assert_eq!(address, RCC_CFGR);
            assert_eq!(mask, 0xC);
            assert_eq!(expected, 0xC);
            assert_eq!(error, ClockError::PllSwitchFailed);
        }
        other => panic!("unexpected last step {other:?}"),
    }
}

#[test]
fn usb_clock_programme_waits_for_hsi48() {
    let steps = configure_usb_hsi48_crs();
    assert!(steps.iter().any(|s| matches!(
        s,
        RegisterStep::WaitFor { error: ClockError::Hsi48NotReady, .. }
    )));
}

#[test]
fn register_modify_clears_then_sets() {
    assert_eq!(modified(0xFF, 0x0F, 0x100), 0x1F0);
    assert_eq!(modified(0, 0, 0), 0);
}

#[test]
fn opamp_and_adc_register_values() {
    assert_eq!(opamp_csr(1), 0x1E5);
    assert_eq!(opamp_csr(2), 0x1E9);
    assert_eq!(opamp_csr(0), 0x1E1);
    assert_eq!(injected_sequence(13), 0x1AEC);
    assert_eq!(sample_time(13), 0x400);
    assert_eq!(sample_time(5), 0x1_0000);
    assert_eq!(adc_register(ADC3_BASE, ADC_CR), 0x5000_0408);
    assert_eq!(jdr_sample(0xABCD_1234), 0x1234);
}

#[test]
fn current_adc_programme_ends_by_starting_conversions() {
    let steps = CurrentAdc::init_motor_hall();
    let n = steps.len();
    assert_eq!(
        steps[n - 1],
        RegisterStep::Modify { address: ADC3_BASE + ADC_CR, clear: 0, set: ADC_CR_JADSTART }
    );
    assert_eq!(
        steps[n - 2],
        RegisterStep::Modify { address: ADC4_BASE + ADC_CR, clear: 0, set: ADC_CR_JADSTART }
    );
    assert_eq!(
        steps[n - 3],
        RegisterStep::Modify { address: ADC5_BASE + ADC_CR, clear: 0, set: ADC_CR_JADSTART }
    );
    assert!(steps.iter().any(|s| matches!(
        s,
        RegisterStep::WaitFor { error: CurrentAdcError::CalibrationTimeout { adc_base: ADC4_BASE }, .. }
    )));
}

#[test]
fn current_adc_reads_low_halfwords() {
    let adc = CurrentAdc;
    assert_eq!(
        adc.read_samples(0x1_0800, 0x7FF, 0xFFFF_0001),
        CurrentSamples { phase_a: 0x800, phase_b: 0x7FF, phase_c: 1 }
    );
}

#[test]
fn hex_input_character_split_is_detected() {
    assert!(hex_input_splits_char("a\u{e9}0"));
    assert!(!hex_input_splits_char("\u{e9}"));
    assert!(!hex_input_splits_char("01 02"));
    assert_eq!(parse_hex_bytes("\u{e9}"), Err("invalid hex byte `\u{e9}`".to_string()));
}
