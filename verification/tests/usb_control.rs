use obot::usb_control::{
    control_response, limit_to_setup_length, write_ascii_string_descriptor, ControlRequest,
    ControlResponse, SetupPacket, UsbControlError, CONFIGURATION_DESCRIPTOR,
    DESCRIPTOR_TYPE_CONFIGURATION, DESCRIPTOR_TYPE_DEVICE, DEVICE_DESCRIPTOR,
    DFU_GET_STATUS_RESPONSE, PRODUCT_ID, STRING_MANUFACTURER, STRING_PRODUCT, STRING_SERIAL,
    VENDOR_ID,
};

#[test]
fn decodes_setup_packets() {
    let setup = SetupPacket::decode(&[0x80, 0x06, 0, 1, 0, 0, 18, 0]).unwrap();

    assert_eq!(setup.request_type, 0x80);
    assert_eq!(setup.request, 0x06);
    assert_eq!(setup.value, 0x0100);
    assert_eq!(setup.length, 18);
    assert_eq!(
        setup.control_request(),
        Ok(ControlRequest::GetDescriptor {
            descriptor_type: DESCRIPTOR_TYPE_DEVICE,
            index: 0,
        })
    );
}

#[test]
fn exposes_cpp_compatible_device_descriptor() {
    assert_eq!(DEVICE_DESCRIPTOR.len(), 18);
    assert_eq!(DEVICE_DESCRIPTOR[1], DESCRIPTOR_TYPE_DEVICE);
    assert_eq!(
        u16::from_le_bytes([DEVICE_DESCRIPTOR[8], DEVICE_DESCRIPTOR[9]]),
        VENDOR_ID
    );
    assert_eq!(
        u16::from_le_bytes([DEVICE_DESCRIPTOR[10], DEVICE_DESCRIPTOR[11]]),
        PRODUCT_ID
    );
    assert_eq!(DEVICE_DESCRIPTOR[14], STRING_MANUFACTURER);
    assert_eq!(DEVICE_DESCRIPTOR[15], STRING_PRODUCT);
    assert_eq!(DEVICE_DESCRIPTOR[16], STRING_SERIAL);
}

#[test]
fn exposes_cpp_compatible_configuration_descriptor() {
    assert_eq!(CONFIGURATION_DESCRIPTOR.len(), 64);
    assert_eq!(CONFIGURATION_DESCRIPTOR[0], 9);
    assert_eq!(CONFIGURATION_DESCRIPTOR[1], DESCRIPTOR_TYPE_CONFIGURATION);
    assert_eq!(CONFIGURATION_DESCRIPTOR[2], 64);
    assert_eq!(CONFIGURATION_DESCRIPTOR[4], 2);
    assert_eq!(CONFIGURATION_DESCRIPTOR[7], 0xC0);
    assert_eq!(CONFIGURATION_DESCRIPTOR[8], 0x32);
    assert_eq!(
        &CONFIGURATION_DESCRIPTOR[18..25],
        &[7, 5, 0x82, 2, 64, 0, 0]
    );
    assert_eq!(
        &CONFIGURATION_DESCRIPTOR[25..32],
        &[7, 5, 0x02, 2, 64, 0, 0]
    );
    assert_eq!(
        &CONFIGURATION_DESCRIPTOR[32..39],
        &[7, 5, 0x81, 2, 64, 0, 0x10]
    );
    assert_eq!(
        &CONFIGURATION_DESCRIPTOR[39..46],
        &[7, 5, 0x01, 2, 64, 0, 0x10]
    );
}

#[test]
fn maps_control_requests_to_responses() {
    let setup = SetupPacket::decode(&[0x80, 0x06, 0, 2, 0, 0, 64, 0]).unwrap();
    let request = setup.control_request().unwrap();

    assert_eq!(
        control_response(request, "1234", "version", "Jeff"),
        Ok(ControlResponse::Bytes(&CONFIGURATION_DESCRIPTOR))
    );

    let setup = SetupPacket::decode(&[0x80, 0x06, 3, 3, 0, 0, 64, 0]).unwrap();
    let request = setup.control_request().unwrap();
    assert_eq!(
        control_response(request, "1234", "version", "Jeff"),
        Ok(ControlResponse::StringAscii("1234"))
    );
}

#[test]
fn writes_ascii_string_descriptor_as_utf16le() {
    let mut output = [0; 16];
    let descriptor = write_ascii_string_descriptor("J1", &mut output).unwrap();

    assert_eq!(descriptor, &[6, 3, b'J', 0, b'1', 0]);
}

#[test]
fn limits_data_to_setup_length() {
    let setup = SetupPacket::decode(&[0x80, 0x06, 0, 1, 0, 0, 8, 0]).unwrap();

    assert_eq!(limit_to_setup_length(&DEVICE_DESCRIPTOR, setup).len(), 8);
}

#[test]
fn refuses_bad_setup_requests_and_descriptors() {
    assert_eq!(
        SetupPacket::decode(&[0x80, 0x06, 0, 1]),
        Err(UsbControlError::InvalidSetupLength)
    );
    let setup = SetupPacket::decode(&[0x40, 0x01, 0, 0, 0, 0, 0, 0]).unwrap();
    assert_eq!(setup.control_request(), Err(UsbControlError::UnsupportedRequest));
    assert_eq!(
        control_response(
            ControlRequest::GetDescriptor { descriptor_type: 9, index: 0 },
            "s",
            "c",
            "i"
        ),
        Err(UsbControlError::UnsupportedDescriptor)
    );
    assert_eq!(
        control_response(ControlRequest::DfuGetStatus { interface: 0 }, "s", "c", "i"),
        Err(UsbControlError::UnsupportedRequest)
    );
    assert_eq!(
        control_response(ControlRequest::DfuGetStatus { interface: 1 }, "s", "c", "i"),
        Ok(ControlResponse::Bytes(&DFU_GET_STATUS_RESPONSE))
    );
    assert_eq!(
        control_response(ControlRequest::SetAddress(5), "s", "c", "i"),
        Ok(ControlResponse::StatusAck)
    );
}

#[test]
fn string_descriptors_refuse_long_text_and_small_buffers() {
    let mut small = [0u8; 5];
    assert_eq!(
        write_ascii_string_descriptor("J1", &mut small),
        Err(UsbControlError::OutputBufferTooSmall)
    );
    let long = "x".repeat(127);
    let mut big = [0u8; 512];
    assert_eq!(
        write_ascii_string_descriptor(&long, &mut big),
        Err(UsbControlError::StringDescriptorTooLong)
    );
}
