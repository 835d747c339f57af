use obot::benchmark::{BenchmarkReport, CycleStatsSnapshot, LoopBenchmarkSnapshot};
use obot::drv8323s::{Drv8323sConfigReport, Drv8323sStatus};
use obot::output::OutputSafetyStatus;
use obot::usb_control::BULK_MAX_PACKET_SIZE;
use obot::usb_device::RealtimePacketKind;
use obot::usb_text::{write_bool, write_u32_decimal, UsbTelemetry};

#[test]
fn immediate_text_api_exposes_run_stats_fields() {
    let mut telemetry = UsbTelemetry::new();
    telemetry.publish_text_api_benchmark(BenchmarkReport {
        fast: LoopBenchmarkSnapshot {
            period: CycleStatsSnapshot {
                last_cycles: 3399,
                ..CycleStatsSnapshot::default()
            },
            execution: CycleStatsSnapshot {
                last_cycles: 305,
                ..CycleStatsSnapshot::default()
            },
        },
        main: LoopBenchmarkSnapshot {
            period: CycleStatsSnapshot {
                last_cycles: 16995,
                ..CycleStatsSnapshot::default()
            },
            execution: CycleStatsSnapshot {
                last_cycles: 1116,
                ..CycleStatsSnapshot::default()
            },
        },
    });

    let mut output = [0; BULK_MAX_PACKET_SIZE as usize];
    let len = telemetry.format_text_api_response(b"api_length", &mut output).unwrap();
    assert_eq!(&output[..len], b"21");

    let len = telemetry.format_text_api_response(b"api_name=4", &mut output).unwrap();
    assert_eq!(&output[..len], b"t_exec_fastloop");

    let len = telemetry.format_text_api_response(b"t_exec_fastloop", &mut output).unwrap();
    assert_eq!(&output[..len], b"305");
    let len = telemetry.format_text_api_response(b"t_period_fastloop", &mut output).unwrap();
    assert_eq!(&output[..len], b"3399");
    let len = telemetry.format_text_api_response(b"t_exec_mainloop", &mut output).unwrap();
    assert_eq!(&output[..len], b"1116");
    let len = telemetry.format_text_api_response(b"t_period_mainloop", &mut output).unwrap();
    assert_eq!(&output[..len], b"16995");

    assert_eq!(telemetry.format_text_api_response(b"unknown", &mut output), None);
    assert_eq!(telemetry.format_text_api_response(b"api_name=999", &mut output), None);
}

#[test]
fn immediate_text_api_exposes_safety_and_driver_state() {
    let mut telemetry = UsbTelemetry::new();
    telemetry.publish_output_safety_status(OutputSafetyStatus {
        output_allowed: false,
        command_blocked: true,
        bus_blocked: true,
        driver_not_enabled: true,
        driver_fault_latched: false,
        controller_faulted: false,
        host_timed_out: true,
    });
    telemetry.publish_bus_voltage_raw(1963);
    telemetry.publish_driver_report(Drv8323sConfigReport {
        status_before: Some(Drv8323sStatus {
            fault_status_1: 0x1234,
            vgs_status_2: 0x5678,
        }),
        status_after: Some(Drv8323sStatus {
            fault_status_1: 0x00AA,
            vgs_status_2: 0x00BB,
        }),
        verify_error_mask: 0x12,
        transfer_error_mask: 0x40,
    });

    let mut output = [0; BULK_MAX_PACKET_SIZE as usize];

    let len = telemetry.format_text_api_response(b"output_allowed", &mut output).unwrap();
    assert_eq!(&output[..len], b"false");
    let len = telemetry.format_text_api_response(b"command_blocked", &mut output).unwrap();
    assert_eq!(&output[..len], b"true");
    let len = telemetry.format_text_api_response(b"bus_blocked", &mut output).unwrap();
    assert_eq!(&output[..len], b"true");
    let len = telemetry.format_text_api_response(b"driver_not_enabled", &mut output).unwrap();
    assert_eq!(&output[..len], b"true");
    let len = telemetry.format_text_api_response(b"driver_fault_latched", &mut output).unwrap();
    assert_eq!(&output[..len], b"false");
    let len = telemetry.format_text_api_response(b"controller_faulted", &mut output).unwrap();
    assert_eq!(&output[..len], b"false");
    let len = telemetry.format_text_api_response(b"host_timed_out", &mut output).unwrap();
    assert_eq!(&output[..len], b"true");
    let len = telemetry.format_text_api_response(b"bus_voltage_raw", &mut output).unwrap();
    assert_eq!(&output[..len], b"1963");
    let len = telemetry.format_text_api_response(b"driver_configured", &mut output).unwrap();
    assert_eq!(&output[..len], b"false");
    let len = telemetry.format_text_api_response(b"verify_error_mask", &mut output).unwrap();
    assert_eq!(&output[..len], b"18");
    let len = telemetry.format_text_api_response(b"transfer_error_mask", &mut output).unwrap();
    assert_eq!(&output[..len], b"64");
    let len = telemetry.format_text_api_response(b"status_before", &mut output).unwrap();
    assert_eq!(&output[..len], b"1450709556");
    let len = telemetry.format_text_api_response(b"status_after", &mut output).unwrap();
    assert_eq!(&output[..len], b"12255402");
}

#[test]
fn immediate_text_api_reports_bridge_and_fixed_fields() {
    let mut telemetry = UsbTelemetry::new();
    let mut output = [0; BULK_MAX_PACKET_SIZE as usize];
    let len = telemetry.format_text_api_response(b"bridge_outputs_disabled", &mut output).unwrap();
    assert_eq!(&output[..len], b"true");
    let len = telemetry.format_text_api_response(b"bridge_prearm_ready", &mut output).unwrap();
    assert_eq!(&output[..len], b"false");
    let len = telemetry.format_text_api_response(b"cpu_frequency", &mut output).unwrap();
    assert_eq!(&output[..len], b"170000000");
    let len = telemetry.format_text_api_response(b"messages_version", &mut output).unwrap();
    assert_eq!(&output[..len], b"3.3");

    telemetry.publish_hrtim_output_status(0x0FC0, false, true);
    telemetry.publish_bridge_prearm_status(0);
    let len = telemetry.format_text_api_response(b"bridge_output_disable_status", &mut output).unwrap();
    assert_eq!(&output[..len], b"4032");
    let len = telemetry.format_text_api_response(b"bridge_outputs_enabled", &mut output).unwrap();
    assert_eq!(&output[..len], b"true");
    let len = telemetry.format_text_api_response(b"bridge_prearm_ready", &mut output).unwrap();
    assert_eq!(&output[..len], b"true");

    assert_eq!(telemetry.format_text_api_response(b"api_name", &mut output), None);
    assert_eq!(telemetry.format_text_api_response(b"api_name=", &mut output), None);
    assert_eq!(telemetry.format_text_api_response(b"api_name=21", &mut output), None);
    let len = telemetry.format_text_api_response(b"api_name=20", &mut output).unwrap();
    assert_eq!(&output[..len], b"bridge_prearm_blockers");

    let mut tiny = [0u8; 2];
    assert_eq!(telemetry.format_text_api_response(b"cpu_frequency", &mut tiny), None);
    assert_eq!(tiny, [0, 0]);
}

#[test]
fn realtime_reception_is_counted_by_kind() {
    let mut telemetry = UsbTelemetry::new();
    assert_eq!(telemetry.record_realtime_rx(14), RealtimePacketKind::Command);
    assert_eq!(telemetry.record_realtime_rx(2), RealtimePacketKind::DriverCommand);
    assert_eq!(telemetry.record_realtime_rx(5), RealtimePacketKind::Unsupported);
    assert_eq!(telemetry.realtime_rx_total, 3);
    assert_eq!(telemetry.realtime_rx_accepted, 2);
    assert_eq!(telemetry.realtime_rx_unsupported, 1);
    assert_eq!(telemetry.realtime_rx_last_len, 5);
    let mut output = [0u8; 64];
    let len = telemetry.format_text_api_response(b"realtime_rx_total", &mut output).unwrap();
    assert_eq!(&output[..len], b"3");
}

#[test]
fn text_writers_fill_the_front_or_refuse() {
    let mut out = [b'x'; 6];
    assert_eq!(write_bool(true, &mut out), Some(4));
    assert_eq!(&out, b"truexx");
    assert_eq!(write_bool(false, &mut out), Some(5));
    assert_eq!(&out, b"falsex");
    let mut short = [0u8; 4];
    assert_eq!(write_bool(false, &mut short), None);
    assert_eq!(write_u32_decimal(4_294_967_295, &mut [0u8; 9]), None);
    let mut ten = [0u8; 10];
    assert_eq!(write_u32_decimal(4_294_967_295, &mut ten), Some(10));
    assert_eq!(&ten, b"4294967295");
}
