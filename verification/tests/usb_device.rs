use obot::usb_control::{ControlRequest, SetupPacket};
use obot::usb_device::{
    append_hex_u16, append_hex_u32, btable_offset, clear_ctr_rx_value, clear_ctr_tx_value,
    control_reply, endpoint_register, ep0_setup_action, hex_digit, pack_pma_words,
    pending_address_value, poll_check, publish_begin_version, publish_end_version,
    realtime_packet_kind, rx_length, serial_string, set_toggle_value, tx_active, tx_length,
    unpack_pma_words, version_fresh, Ep0Action, MailboxRead, MailboxStep, PollCheck,
    RealtimePacketKind,
    USB_EPRX_STAT, USB_EPTX_STAT, USB_EP_RX_VALID, USB_EP_TX_NAK,
};

#[test]
fn endpoint_registers_and_buffer_table_entries_are_laid_out_by_index() {
    assert_eq!(endpoint_register(0), 0x4000_5C00);
    assert_eq!(endpoint_register(2), 0x4000_5C08);
    assert_eq!(btable_offset(1, 6), 14);
}

#[test]
fn transfer_flags_are_cleared_without_touching_toggles() {
    assert_eq!(clear_ctr_rx_value(0xFFFF), 0x0F8F);
    assert_eq!(clear_ctr_tx_value(0xFFFF), 0x8F0F);
    assert_eq!(clear_ctr_rx_value(0x0000), 0x0080);
}

#[test]
fn toggle_writes_move_the_state_to_the_requested_value() {
    let value: u16 = 0x3210 | 0x0200;
    let written = set_toggle_value(value, USB_EP_TX_NAK, USB_EPTX_STAT);
    assert_eq!((value & USB_EPTX_STAT) ^ (written & USB_EPTX_STAT), USB_EP_TX_NAK);
    assert_eq!(written & 0x8080, 0x8080);
    let written = set_toggle_value(0x0000, USB_EP_RX_VALID, USB_EPRX_STAT);
    assert_eq!(written & USB_EPRX_STAT, USB_EP_RX_VALID);
    assert!(tx_active(0x0030));
    assert!(!tx_active(0x0020));
}

#[test]
fn lengths_are_capped_at_one_packet() {
    assert_eq!(rx_length(0x8800 | 14), 14);
    assert_eq!(rx_length(0x03FF), 64);
    assert_eq!(tx_length(100), 64);
    assert_eq!(tx_length(3), 3);
    assert_eq!(realtime_packet_kind(14), RealtimePacketKind::Command);
    assert_eq!(realtime_packet_kind(2), RealtimePacketKind::DriverCommand);
    assert_eq!(realtime_packet_kind(0), RealtimePacketKind::Unsupported);
}

#[test]
fn packet_memory_holds_two_bytes_per_word() {
    let words = pack_pma_words(&[1, 2, 3]);
    assert_eq!(words, vec![0x0201, 0x0003]);
    let mut out = [9u8; 4];
    unpack_pma_words(&words, &mut out, 3);
    assert_eq!(out, [1, 2, 3, 9]);
    let mut short = [0u8; 2];
    unpack_pma_words(&words, &mut short, 3);
    assert_eq!(short, [1, 2]);
}

#[test]
fn serial_number_is_the_hex_of_the_unique_id() {
    let mut buffer = [0u8; 16];
    let len = serial_string(0x1234_0000, 0xABCD_0000, 0x0000_5678, &mut buffer);
    assert_eq!(&buffer[..len], b"12345678ABCD");
    let len = serial_string(0, 0, 0, &mut buffer);
    assert_eq!(&buffer[..len], b"00");
    let mut buffer = [b'x'; 8];
    assert_eq!(append_hex_u32(&mut buffer, 1, 0xBEEF), 5);
    assert_eq!(&buffer, b"xBEEFxxx");
    assert_eq!(append_hex_u16(&mut buffer, 0, 0x0A), 1);
    assert_eq!(buffer[0], b'A');
    assert_eq!(hex_digit(9), b'9');
    assert_eq!(hex_digit(15), b'F');
}

#[test]
fn versions_are_odd_while_writing_and_even_after() {
    assert_eq!(publish_begin_version(0), 1);
    assert_eq!(publish_end_version(0), 2);
    assert_eq!(publish_begin_version(u32::MAX - 1), u32::MAX);
    assert_eq!(publish_end_version(u32::MAX - 1), 0);
    assert_eq!(publish_begin_version(3), 5);
    assert_eq!(publish_end_version(3), 4);
    assert!(version_fresh(0, 2));
    assert!(!version_fresh(2, 2));
    assert!(!version_fresh(0, 3));
    assert_eq!(poll_check(0, 2, 2), PollCheck::Accept);
    assert_eq!(poll_check(0, 2, 4), PollCheck::Retry);
    assert_eq!(poll_check(0, 2, 5), PollCheck::Stop);
    assert_eq!(pending_address_value(0xFF), None);
    assert_eq!(pending_address_value(0x85), Some(0x85));
    assert_eq!(pending_address_value(0x05), Some(0x85));
}

#[test]
fn setup_packets_select_the_control_endpoint_action() {
    assert_eq!(ep0_setup_action(&[0x00, 0x05, 0x85, 0, 0, 0, 0, 0]), Ep0Action::SetAddress(5));
    assert_eq!(
        ep0_setup_action(&[0x00, 0x09, 1, 0, 0, 0, 0, 0]),
        Ep0Action::ConfigureBulkEndpoints
    );
    assert_eq!(ep0_setup_action(&[0x01, 0x0B, 0, 0, 1, 0, 0, 0]), Ep0Action::Ack);
    assert_eq!(ep0_setup_action(&[0x21, 0x00, 0, 0, 1, 0, 0, 0]), Ep0Action::Ack);
    assert_eq!(ep0_setup_action(&[0x40, 0x01, 0, 0, 0, 0, 0, 0]), Ep0Action::Stall);
    assert_eq!(ep0_setup_action(&[0x80]), Ep0Action::Stall);
    let setup = SetupPacket::decode(&[0x80, 0x00, 0, 0, 0, 0, 2, 0]).unwrap();
    assert_eq!(
        ep0_setup_action(&[0x80, 0x00, 0, 0, 0, 0, 2, 0]),
        Ep0Action::Respond(setup, ControlRequest::GetStatus)
    );
}

#[test]
fn control_replies_are_cut_to_the_requested_length() {
    let setup = SetupPacket::decode(&[0x80, 0x06, 0, 1, 0, 0, 8, 0]).unwrap();
    let reply = control_reply(setup, setup.control_request().unwrap(), "12AB").unwrap();
    assert_eq!(reply.len(), 8);
    assert_eq!(reply[1], 1);
    let setup = SetupPacket::decode(&[0x80, 0x06, 3, 3, 0, 0, 64, 0]).unwrap();
    let reply = control_reply(setup, setup.control_request().unwrap(), "12AB").unwrap();
    assert_eq!(reply, vec![10, 3, b'1', 0, b'2', 0, b'A', 0, b'B', 0]);
    let long = "0123456789012345678901234567890123";
    assert_eq!(control_reply(setup, setup.control_request().unwrap(), long), None);
    let ack = SetupPacket::decode(&[0x00, 0x05, 1, 0, 0, 0, 0, 0]).unwrap();
    assert_eq!(control_reply(ack, ControlRequest::SetAddress(1), "s"), Some(Vec::new()));
}

#[test]
fn mailbox_read_takes_whole_packets_once_and_gives_up_after_three_copies() {
    assert_eq!(MailboxRead::begin(2, 2), None);
    assert_eq!(MailboxRead::begin(0, 3), None);
    let mut read = MailboxRead::begin(0, 2).unwrap();
    assert_eq!(read.after_copy(2), MailboxStep::Take { consumed: 2 });
    assert_eq!(MailboxRead::begin(2, 2), None);

    let mut read = MailboxRead::begin(0, 2).unwrap();
    assert_eq!(read.after_copy(4), MailboxStep::CopyAgain);
    assert_eq!(read.version, 4);
    assert_eq!(read.after_copy(6), MailboxStep::CopyAgain);
    assert_eq!(read.after_copy(8), MailboxStep::GiveUp);

    let mut read = MailboxRead::begin(0, 2).unwrap();
    assert_eq!(read.after_copy(5), MailboxStep::GiveUp);
    let mut read = MailboxRead::begin(4, 6).unwrap();
    assert_eq!(read.after_copy(8), MailboxStep::CopyAgain);
    assert_eq!(read.after_copy(8), MailboxStep::Take { consumed: 8 });
}
