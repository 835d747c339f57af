use obot::debug_report::{
    bus_voltage_packet_len, command_packet_len, driver_command_packet_len,
    driver_report_packet_len, output_safety_packet_len, packet_len, poll_pending,
    status_packet_len, take_command, take_driver_command, take_text_api_request,
    text_api_request_packet_len, text_api_response_packet_len,
};
use obot::protocol::{CommandPacket, DriverCommand, DriverCommandPacket, TextApiRequestPacket};
use obot::ControlMode;

#[test]
fn exported_packet_lengths_match_the_protocol() {
    assert_eq!(packet_len(), 81);
    assert_eq!(status_packet_len(), 14);
    assert_eq!(command_packet_len(), 14);
    assert_eq!(driver_command_packet_len(), 2);
    assert_eq!(driver_report_packet_len(), 14);
    assert_eq!(output_safety_packet_len(), 2);
    assert_eq!(bus_voltage_packet_len(), 3);
    assert_eq!(text_api_request_packet_len(), 66);
    assert_eq!(text_api_response_packet_len(), 67);
}

#[test]
fn polled_commands_need_a_matching_sequence() {
    assert!(!poll_pending(3, 3));
    assert!(poll_pending(4, 3));
    let packet = CommandPacket {
        sequence: 4,
        mode: ControlMode::Torque,
        torque_bits: 0,
        velocity_bits: 0,
        position_bits: 0,
    };
    let mut last = 3;
    assert_eq!(take_command(4, &packet.encode(), &mut last), Some(packet));
    assert_eq!(last, 0);
    let mut last = 3;
    assert_eq!(take_command(5, &packet.encode(), &mut last), None);
    assert_eq!(last, 0);
    let mut last = 1;
    assert_eq!(take_command(5, &[0; 3], &mut last), None);

    let driver = DriverCommandPacket { sequence: 2, command: DriverCommand::Disable };
    let mut last = 0;
    assert_eq!(take_driver_command(2, &driver.encode(), &mut last), Some(driver));

    let request = TextApiRequestPacket::new(6, "api_length").unwrap();
    let mut last = 0;
    assert_eq!(take_text_api_request(6, &request.encode(), &mut last), Some(request));
    let mut last = 9;
    assert_eq!(take_text_api_request(7, &request.encode(), &mut last), None);
    assert_eq!(last, 0);
}
