use obot::benchmark::{BenchmarkReport, CycleStatsSnapshot, LoopBenchmarkSnapshot};
use obot::output::OutputSafetyStatus;
use obot::protocol::{
    BenchmarkPacket, BusVoltagePacket, CommandPacket, DecodeError, DriverCommand,
    DriverCommandPacket, DriverReportPacket, OutputSafetyPacket, StatusPacket,
    TextApiRequestPacket, TextApiResponsePacket, TextApiResponseStatus, COMMAND_PACKET_LEN,
    TEXT_API_PAYLOAD_LEN, TEXT_API_RESPONSE_PACKET_LEN,
};
use obot::{ControlMode, Fault};

#[test]
fn command_packet_round_trips() {
    let packet = CommandPacket {
        sequence: 7,
        mode: ControlMode::Position,
        torque_bits: 1.0f32.to_bits(),
        velocity_bits: 2.0f32.to_bits(),
        position_bits: 3.0f32.to_bits(),
    };

    assert_eq!(CommandPacket::decode(&packet.encode()).unwrap(), packet);
}

#[test]
fn clear_faults_mode_matches_cpp_value() {
    let packet = CommandPacket {
        sequence: 1,
        mode: ControlMode::ClearFaults,
        torque_bits: 0.0f32.to_bits(),
        velocity_bits: 0.0f32.to_bits(),
        position_bits: 0.0f32.to_bits(),
    };
    let encoded = packet.encode();

    assert_eq!(encoded[1], 250);
    assert_eq!(CommandPacket::decode(&encoded).unwrap(), packet);
}

#[test]
fn driver_command_packet_round_trips() {
    let packet = DriverCommandPacket {
        sequence: 11,
        command: DriverCommand::ConfigureEnable,
    };

    assert_eq!(
        DriverCommandPacket::decode(&packet.encode()).unwrap(),
        packet
    );
}

#[test]
fn status_packet_round_trips() {
    let packet = StatusPacket {
        sequence: 8,
        fault: Some(Fault::VelocityLimit),
        torque_bits: 1.0f32.to_bits(),
        velocity_bits: 2.0f32.to_bits(),
        position_bits: 3.0f32.to_bits(),
    };

    assert_eq!(StatusPacket::decode(&packet.encode()).unwrap(), packet);
}

#[test]
fn driver_report_packet_round_trips() {
    let packet = DriverReportPacket {
        sequence: 3,
        configured: true,
        verify_error_mask: 0x0012,
        transfer_error_mask: 0x0040,
        status_before: 0xAABB_CCDD,
        status_after: 0x1122_3344,
    };

    assert_eq!(
        DriverReportPacket::decode(&packet.encode()).unwrap(),
        packet
    );
}

#[test]
fn output_safety_packet_round_trips() {
    let packet = OutputSafetyPacket {
        sequence: 12,
        status: OutputSafetyStatus {
            output_allowed: true,
            command_blocked: false,
            bus_blocked: true,
            driver_not_enabled: true,
            driver_fault_latched: false,
            controller_faulted: true,
            host_timed_out: true,
        },
    };
    let encoded = packet.encode();

    assert_eq!(encoded, [12, 0b0110_1101]);
    assert_eq!(OutputSafetyPacket::decode(&encoded).unwrap(), packet);
}

#[test]
fn bus_voltage_packet_round_trips() {
    let packet = BusVoltagePacket {
        sequence: 4,
        raw: 1_963,
    };

    assert_eq!(packet.encode(), [4, 0xAB, 0x07]);
    assert_eq!(BusVoltagePacket::decode(&packet.encode()).unwrap(), packet);
}

#[test]
fn text_api_request_packet_round_trips() {
    let packet = TextApiRequestPacket::new(7, "mean_fast_loop_cycles").unwrap();
    let encoded = packet.encode();

    assert_eq!(encoded[0], 7);
    assert_eq!(encoded[1], 21);
    assert_eq!(&encoded[2..23], b"mean_fast_loop_cycles");
    assert_eq!(TextApiRequestPacket::decode(&encoded).unwrap(), packet);
    assert_eq!(packet.payload(), b"mean_fast_loop_cycles");
}

#[test]
fn text_api_response_packet_round_trips() {
    let packet =
        TextApiResponsePacket::new(8, TextApiResponseStatus::Success, b"435.633").unwrap();
    let encoded = packet.encode();

    assert_eq!(encoded[0], 8);
    assert_eq!(encoded[1], 0);
    assert_eq!(encoded[2], 7);
    assert_eq!(&encoded[3..10], b"435.633");
    assert_eq!(TextApiResponsePacket::decode(&encoded).unwrap(), packet);
    assert_eq!(packet.payload(), b"435.633");
}

#[test]
fn rejects_oversized_text_api_payloads() {
    let oversized = [b'x'; TEXT_API_PAYLOAD_LEN + 1];

    assert_eq!(
        TextApiRequestPacket::new(1, core::str::from_utf8(&oversized).unwrap()).unwrap_err(),
        DecodeError::InvalidTextApiLength
    );
    assert_eq!(
        TextApiResponsePacket::new(1, TextApiResponseStatus::Success, &oversized).unwrap_err(),
        DecodeError::InvalidTextApiLength
    );
}

#[test]
fn rejects_unknown_text_api_response_status() {
    let mut bytes = [0; TEXT_API_RESPONSE_PACKET_LEN];
    bytes[1] = 99;

    assert_eq!(
        TextApiResponsePacket::decode(&bytes).unwrap_err(),
        DecodeError::InvalidTextApiStatus
    );
}

#[test]
fn rejects_unknown_output_safety_flags() {
    assert_eq!(
        OutputSafetyPacket::decode(&[0, 0x80]).unwrap_err(),
        DecodeError::InvalidOutputSafetyFlags
    );
}

#[test]
fn rejects_unknown_mode() {
    let mut bytes = [0; COMMAND_PACKET_LEN];
    bytes[1] = 99;

    assert_eq!(
        CommandPacket::decode(&bytes).unwrap_err(),
        DecodeError::InvalidMode
    );
}

#[test]
fn rejects_unknown_driver_command() {
    let bytes = [0, 99];

    assert_eq!(
        DriverCommandPacket::decode(&bytes).unwrap_err(),
        DecodeError::InvalidDriverCommand
    );
}

#[test]
fn benchmark_packet_round_trips() {
    let packet = sample_benchmark_packet();

    assert_eq!(BenchmarkPacket::decode(&packet.encode()).unwrap(), packet);
}

fn sample_benchmark_packet() -> BenchmarkPacket {
    BenchmarkPacket {
        sequence: 9,
        report: BenchmarkReport {
            fast: LoopBenchmarkSnapshot {
                period: CycleStatsSnapshot {
                    samples: 10,
                    last_cycles: 3_398,
                    max_cycles: 3_416,
                    mean_milli_cycles: 3_397_560,
                },
                execution: CycleStatsSnapshot {
                    samples: 11,
                    last_cycles: 709,
                    max_cycles: 710,
                    mean_milli_cycles: 708_965,
                },
            },
            main: LoopBenchmarkSnapshot {
                period: CycleStatsSnapshot {
                    samples: 12,
                    last_cycles: 17_000,
                    max_cycles: 17_045,
                    mean_milli_cycles: 16_999_800,
                },
                execution: CycleStatsSnapshot {
                    samples: 13,
                    last_cycles: 3_555,
                    max_cycles: 6_445,
                    mean_milli_cycles: 3_555_490,
                },
            },
        },
    }
}

#[test]
fn every_packet_refuses_a_wrong_length() {
    assert_eq!(CommandPacket::decode(&[0; 13]).unwrap_err(), DecodeError::InvalidLength);
    assert_eq!(StatusPacket::decode(&[0; 15]).unwrap_err(), DecodeError::InvalidLength);
    assert_eq!(DriverCommandPacket::decode(&[0]).unwrap_err(), DecodeError::InvalidLength);
    assert_eq!(DriverReportPacket::decode(&[]).unwrap_err(), DecodeError::InvalidLength);
    assert_eq!(OutputSafetyPacket::decode(&[0; 3]).unwrap_err(), DecodeError::InvalidLength);
    assert_eq!(BusVoltagePacket::decode(&[0; 2]).unwrap_err(), DecodeError::InvalidLength);
    assert_eq!(BenchmarkPacket::decode(&[0; 80]).unwrap_err(), DecodeError::InvalidLength);
    assert_eq!(TextApiRequestPacket::decode(&[0; 65]).unwrap_err(), DecodeError::InvalidLength);
    assert_eq!(TextApiResponsePacket::decode(&[0; 66]).unwrap_err(), DecodeError::InvalidLength);
}

#[test]
fn status_packet_rejects_unknown_fault_and_encodes_no_fault_as_zero() {
    let mut bytes = [0u8; 14];
    bytes[1] = 99;
    assert_eq!(StatusPacket::decode(&bytes).unwrap_err(), DecodeError::InvalidFault);
    let packet = StatusPacket {
        sequence: 1,
        fault: None,
        torque_bits: 0x0403_0201,
        velocity_bits: 0,
        position_bits: 0,
    };
    let encoded = packet.encode();
    assert_eq!(encoded[1], 0);
    assert_eq!(&encoded[2..6], &[1, 2, 3, 4]);
}

#[test]
fn text_api_request_rejects_an_overlong_length_byte() {
    let mut bytes = [0u8; 66];
    bytes[1] = 65;
    assert_eq!(
        TextApiRequestPacket::decode(&bytes).unwrap_err(),
        DecodeError::InvalidTextApiLength
    );
    let mut bytes = [0u8; 67];
    bytes[2] = 65;
    assert_eq!(
        TextApiResponsePacket::decode(&bytes).unwrap_err(),
        DecodeError::InvalidTextApiLength
    );
}
