use vstd::prelude::*;
use vstd::string::StringSliceAdditionalSpecFns;

verus! {

pub const SETUP_PACKET_LEN: usize = 8;
pub const BULK_MAX_PACKET_SIZE: u8 = 64;
pub const VENDOR_ID: u16 = 0x3293;
pub const PRODUCT_ID: u16 = 0x0100;

pub const DESCRIPTOR_TYPE_DEVICE: u8 = 1;
pub const DESCRIPTOR_TYPE_CONFIGURATION: u8 = 2;
pub const DESCRIPTOR_TYPE_STRING: u8 = 3;
pub const DESCRIPTOR_TYPE_INTERFACE: u8 = 4;
pub const DESCRIPTOR_TYPE_ENDPOINT: u8 = 5;

pub const STRING_LANGID: u8 = 0;
pub const STRING_MANUFACTURER: u8 = 1;
pub const STRING_PRODUCT: u8 = 2;
pub const STRING_SERIAL: u8 = 3;
pub const STRING_CONFIGURATION: u8 = 4;
pub const STRING_INTERFACE: u8 = 5;
pub const STRING_DFU: u8 = 6;

pub const MANUFACTURER_STRING: &'static str = "Unhuman Inc.";
pub const PRODUCT_STRING: &'static str = "OBOT motor controller";
pub const DFU_INTERFACE_STRING: &'static str = "ST DFU mode";

/// Vendor-specific USB 2.0 device, 64-byte control endpoint, vendor 0x3293,
/// product 0x0100, one configuration.
pub const DEVICE_DESCRIPTOR: [u8; 18] = [
    18,
    1,
    0x00,
    0x02,
    0xFF,
    0x00,
    0x00,
    64,
    0x93,
    0x32,
    0x00,
    0x01,
    0x00,
    0x02,
    1,
    2,
    3,
    1,
];

/// One configuration: a vendor interface with four bulk endpoints (0x82,
/// 0x02, 0x81, 0x01) and a DFU interface.
pub const CONFIGURATION_DESCRIPTOR: [u8; 64] = [
    9,
    2,
    64,
    0,
    2,
    1,
    4,
    0xC0,
    0x32,
    9,
    4,
    0,
    0,
    4,
    0,
    0,
    0,
    5,
    7,
    5,
    0x82,
    0x02,
    64,
    0,
    0,
    7,
    5,
    0x02,
    0x02,
    64,
    0,
    0,
    7,
    5,
    0x81,
    0x02,
    64,
    0,
    0x10,
    7,
    5,
    0x01,
    0x02,
    64,
    0,
    0x10,
    9,
    4,
    1,
    0,
    0,
    0xFE,
    0x01,
    0x01,
    6,
    9,
    0x21,
    0x0B,
    0xFF,
    0,
    0,
    0x08,
    0x1A,
    0x01,
];

pub const LANGID_STRING_DESCRIPTOR: [u8; 4] = [4, 3, 0x09, 0x04];
pub const GET_STATUS_RESPONSE: [u8; 2] = [0, 0];
pub const DFU_GET_STATUS_RESPONSE: [u8; 6] = [0, 0, 0, 0, 0, 0];

/// The device descriptor is 18 bytes long and says so, is of the device
/// type, reports USB 2.0, a 64-byte control endpoint, the vendor and
/// product ids little-endian, and one configuration; the configuration
/// descriptor's total length field is its own length and it declares two
/// interfaces; the language table is US English.
pub proof fn lemma_descriptor_fields()
    ensures
        DEVICE_DESCRIPTOR@.len() == 18,
        DEVICE_DESCRIPTOR@[0] == 18,
        DEVICE_DESCRIPTOR@[1] == DESCRIPTOR_TYPE_DEVICE,
        DEVICE_DESCRIPTOR@[2] + 256 * DEVICE_DESCRIPTOR@[3] == 0x0200,
        DEVICE_DESCRIPTOR@[7] == BULK_MAX_PACKET_SIZE,
        DEVICE_DESCRIPTOR@[8] + 256 * DEVICE_DESCRIPTOR@[9] == VENDOR_ID,
        DEVICE_DESCRIPTOR@[10] + 256 * DEVICE_DESCRIPTOR@[11] == PRODUCT_ID,
        DEVICE_DESCRIPTOR@[17] == 1,
        CONFIGURATION_DESCRIPTOR@.len() == 64,
        CONFIGURATION_DESCRIPTOR@[1] == DESCRIPTOR_TYPE_CONFIGURATION,
        CONFIGURATION_DESCRIPTOR@[2] + 256 * CONFIGURATION_DESCRIPTOR@[3]
            == CONFIGURATION_DESCRIPTOR@.len(),
        CONFIGURATION_DESCRIPTOR@[4] == 2,
        LANGID_STRING_DESCRIPTOR@ == seq![4u8, DESCRIPTOR_TYPE_STRING, 0x09u8, 0x04u8],
{
    assert(LANGID_STRING_DESCRIPTOR@ =~= seq![4u8, DESCRIPTOR_TYPE_STRING, 0x09u8, 0x04u8]);
}

/// The eight bytes of a control transfer's setup stage.
#[derive(Clone, Copy, Debug, PartialEq, Eq, Structural)]
pub struct SetupPacket {
    pub request_type: u8,
    pub request: u8,
    pub value: u16,
    pub index: u16,
    pub length: u16,
}

/// The standard, class and DFU requests the device answers.
#[derive(Clone, Copy, Debug, PartialEq, Eq, Structural)]
pub enum ControlRequest {
    GetStatus,
    GetDescriptor { descriptor_type: u8, index: u8 },
    SetAddress(u8),
    SetConfiguration(u8),
    SetInterface { interface: u16 },
    DfuGetStatus { interface: u16 },
    DfuDetach { interface: u16 },
}

/// What the data stage of a control transfer sends back.
#[derive(Clone, Copy, Debug, PartialEq, Eq)]
pub enum ControlResponse<'a> {
    Bytes(&'a [u8]),
    StringAscii(&'a str),
    StatusAck,
}

#[derive(Clone, Copy, Debug, PartialEq, Eq, Structural)]
pub enum UsbControlError {
    InvalidSetupLength,
    UnsupportedRequest,
    UnsupportedDescriptor,
    StringDescriptorTooLong,
    OutputBufferTooSmall,
}

impl SetupPacket {
    /// The setup fields, 16-bit ones little-endian.
    pub open spec fn spec_from_bytes(s: Seq<u8>) -> SetupPacket {
        SetupPacket {
            request_type: s[0],
            request: s[1],
            value: (s[2] + 256 * s[3]) as u16,
            index: (s[4] + 256 * s[5]) as u16,
            length: (s[6] + 256 * s[7]) as u16,
        }
    }

    pub fn decode(input: &[u8]) -> (r: Result<Self, UsbControlError>)
        ensures
            r is Err <==> input@.len() != SETUP_PACKET_LEN,
            r matches Err(e) ==> e == UsbControlError::InvalidSetupLength,
            r matches Ok(p) ==> p == Self::spec_from_bytes(input@),
    {
        if input.len() != SETUP_PACKET_LEN {
            return Err(UsbControlError::InvalidSetupLength);
        }
        Ok(
            Self {
                request_type: input[0],
                request: input[1],
                value: crate::le_bytes::le_to_u16(input[2], input[3]),
                index: crate::le_bytes::le_to_u16(input[4], input[5]),
                length: crate::le_bytes::le_to_u16(input[6], input[7]),
            },
        )
    }

    /// The request that the type and request bytes select.
    pub open spec fn spec_control_request(self) -> Result<ControlRequest, UsbControlError> {
        if self.request_type == 0x80 && self.request == 0x00 {
            Ok(ControlRequest::GetStatus)
        } else if self.request_type == 0x80 && self.request == 0x06 {
            Ok(
                ControlRequest::GetDescriptor {
                    descriptor_type: (self.value / 256) as u8,
                    index: (self.value % 256) as u8,
                },
            )
        } else if self.request_type == 0x00 && self.request == 0x05 {
            Ok(ControlRequest::SetAddress((self.value % 256) as u8))
        } else if self.request_type == 0x00 && self.request == 0x09 {
            Ok(ControlRequest::SetConfiguration((self.value % 256) as u8))
        } else if self.request_type == 0x01 && self.request == 0x0B {
            Ok(ControlRequest::SetInterface { interface: self.index })
        } else if self.request_type == 0xA1 && self.request == 0x03 {
            Ok(ControlRequest::DfuGetStatus { interface: self.index })
        } else if self.request_type == 0x21 && self.request == 0x00 {
            Ok(ControlRequest::DfuDetach { interface: self.index })
        } else {
            Err(UsbControlError::UnsupportedRequest)
        }
    }

    pub fn control_request(self) -> (r: Result<ControlRequest, UsbControlError>)
        ensures
            r == self.spec_control_request(),
    {
        let high = (self.value >> 8) as u8;
        let low = (self.value & 0xff) as u8;
        let v = self.value;
        assert(high == v / 256 && low == v % 256) by (bit_vector)
            requires
                high == (v >> 8) as u8,
                low == (v & 0xff) as u8,
        ;
        match (self.request_type, self.request) {
            (0x80, 0x00) => Ok(ControlRequest::GetStatus),
            (0x80, 0x06) => Ok(ControlRequest::GetDescriptor { descriptor_type: high, index: low }),
            (0x00, 0x05) => Ok(ControlRequest::SetAddress(low)),
            (0x00, 0x09) => Ok(ControlRequest::SetConfiguration(low)),
            (0x01, 0x0B) => Ok(ControlRequest::SetInterface { interface: self.index }),
            (0xA1, 0x03) => Ok(ControlRequest::DfuGetStatus { interface: self.index }),
            (0x21, 0x00) => Ok(ControlRequest::DfuDetach { interface: self.index }),
            _ => Err(UsbControlError::UnsupportedRequest),
        }
    }
}

/// The requests by type and request byte: (0x80, 0x00) get status, (0x80,
/// 0x06) get descriptor, with the descriptor type in the high byte of the
/// value and the index in the low byte, (0x00, 0x05) set address and (0x00,
/// 0x09) set configuration from the low byte of the value, (0x01, 0x0B) set
/// interface, (0xA1, 0x03) DFU get status and (0x21, 0x00) DFU detach for
/// the interface in the index field; every other pair is unsupported.
pub proof fn lemma_control_request_codes(p: SetupPacket)
    ensures
        ({
            let r = p.spec_control_request();
            let (t, q) = (p.request_type, p.request);
            &&& (t == 0x80 && q == 0x00) ==> r == Ok::<ControlRequest, UsbControlError>(
                ControlRequest::GetStatus,
            )
            &&& (t == 0x80 && q == 0x06) ==> (r matches Ok(
                ControlRequest::GetDescriptor { descriptor_type, index },
            ) && descriptor_type * 256 + index == p.value)
            &&& (t == 0x00 && q == 0x05) ==> (r matches Ok(ControlRequest::SetAddress(a)) && p.value
                % 256 == a)
            &&& (t == 0x00 && q == 0x09) ==> (r matches Ok(ControlRequest::SetConfiguration(c))
                && p.value % 256 == c)
            &&& (t == 0x01 && q == 0x0B) ==> r == Ok::<ControlRequest, UsbControlError>(
                ControlRequest::SetInterface { interface: p.index },
            )
            &&& (t == 0xA1 && q == 0x03) ==> r == Ok::<ControlRequest, UsbControlError>(
                ControlRequest::DfuGetStatus { interface: p.index },
            )
            &&& (t == 0x21 && q == 0x00) ==> r == Ok::<ControlRequest, UsbControlError>(
                ControlRequest::DfuDetach { interface: p.index },
            )
            &&& r is Err <==> !((t == 0x80 && (q == 0x00 || q == 0x06)) || (t == 0x00 && (q == 0x05
                || q == 0x09)) || (t == 0x01 && q == 0x0B) || (t == 0xA1 && q == 0x03) || (t == 0x21
                && q == 0x00))
            &&& r matches Err(e) ==> e == UsbControlError::UnsupportedRequest
        }),
{
}

/// The response to a request: status bytes, a descriptor, a string, or a bare
/// acknowledgement. Only the DFU interface (1) answers DFU status requests.
pub open spec fn spec_control_response<'a>(
    request: ControlRequest,
    serial: &'a str,
    configuration: &'a str,
    interface: &'a str,
) -> Result<ControlResponse<'a>, UsbControlError> {
    match request {
        ControlRequest::GetStatus => Ok(ControlResponse::Bytes(&GET_STATUS_RESPONSE)),
        ControlRequest::GetDescriptor { descriptor_type, index } => spec_descriptor_response(
            descriptor_type,
            index,
            serial,
            configuration,
            interface,
        ),
        ControlRequest::SetAddress(_) => Ok(ControlResponse::StatusAck),
        ControlRequest::SetConfiguration(_) => Ok(ControlResponse::StatusAck),
        ControlRequest::SetInterface { .. } => Ok(ControlResponse::StatusAck),
        ControlRequest::DfuDetach { .. } => Ok(ControlResponse::StatusAck),
        ControlRequest::DfuGetStatus { interface } => if interface == 1 {
            Ok(ControlResponse::Bytes(&DFU_GET_STATUS_RESPONSE))
        } else {
            Err(UsbControlError::UnsupportedRequest)
        },
    }
}

/// The device, configuration and string descriptors.
pub open spec fn spec_descriptor_response<'a>(
    descriptor_type: u8,
    index: u8,
    serial: &'a str,
    configuration: &'a str,
    interface: &'a str,
) -> Result<ControlResponse<'a>, UsbControlError> {
    if descriptor_type == DESCRIPTOR_TYPE_DEVICE {
        Ok(ControlResponse::Bytes(&DEVICE_DESCRIPTOR))
    } else if descriptor_type == DESCRIPTOR_TYPE_CONFIGURATION {
        Ok(ControlResponse::Bytes(&CONFIGURATION_DESCRIPTOR))
    } else if descriptor_type == DESCRIPTOR_TYPE_STRING {
        spec_string_descriptor_response(index, serial, configuration, interface)
    } else {
        Err(UsbControlError::UnsupportedDescriptor)
    }
}

/// The language table and the seven strings, by string index.
pub open spec fn spec_string_descriptor_response<'a>(
    index: u8,
    serial: &'a str,
    configuration: &'a str,
    interface: &'a str,
) -> Result<ControlResponse<'a>, UsbControlError> {
    if index == STRING_LANGID {
        Ok(ControlResponse::Bytes(&LANGID_STRING_DESCRIPTOR))
    } else if index == STRING_MANUFACTURER {
        Ok(ControlResponse::StringAscii(MANUFACTURER_STRING))
    } else if index == STRING_PRODUCT {
        Ok(ControlResponse::StringAscii(PRODUCT_STRING))
    } else if index == STRING_SERIAL {
        Ok(ControlResponse::StringAscii(serial))
    } else if index == STRING_CONFIGURATION {
        Ok(ControlResponse::StringAscii(configuration))
    } else if index == STRING_INTERFACE {
        Ok(ControlResponse::StringAscii(interface))
    } else if index == STRING_DFU {
        Ok(ControlResponse::StringAscii(DFU_INTERFACE_STRING))
    } else {
        Err(UsbControlError::UnsupportedDescriptor)
    }
}

pub fn control_response<'a>(
    request: ControlRequest,
    serial: &'a str,
    configuration: &'a str,
    interface: &'a str,
) -> (r: Result<ControlResponse<'a>, UsbControlError>)
    ensures
        r == spec_control_response(request, serial, configuration, interface),
{
    match request {
        ControlRequest::GetStatus => Ok(ControlResponse::Bytes(&GET_STATUS_RESPONSE)),
        ControlRequest::GetDescriptor { descriptor_type, index } => descriptor_response(
            descriptor_type,
            index,
            serial,
            configuration,
            interface,
        ),
        ControlRequest::SetAddress(_) => Ok(ControlResponse::StatusAck),
        ControlRequest::SetConfiguration(_) => Ok(ControlResponse::StatusAck),
        ControlRequest::SetInterface { .. } => Ok(ControlResponse::StatusAck),
        ControlRequest::DfuDetach { .. } => Ok(ControlResponse::StatusAck),
        ControlRequest::DfuGetStatus { interface: iface } => {
            if iface == 1 {
                Ok(ControlResponse::Bytes(&DFU_GET_STATUS_RESPONSE))
            } else {
                Err(UsbControlError::UnsupportedRequest)
            }
        },
    }
}

pub fn descriptor_response<'a>(
    descriptor_type: u8,
    index: u8,
    serial: &'a str,
    configuration: &'a str,
    interface: &'a str,
) -> (r: Result<ControlResponse<'a>, UsbControlError>)
    ensures
        r == spec_descriptor_response(descriptor_type, index, serial, configuration, interface),
{
    if descriptor_type == DESCRIPTOR_TYPE_DEVICE {
        Ok(ControlResponse::Bytes(&DEVICE_DESCRIPTOR))
    } else if descriptor_type == DESCRIPTOR_TYPE_CONFIGURATION {
        Ok(ControlResponse::Bytes(&CONFIGURATION_DESCRIPTOR))
    } else if descriptor_type == DESCRIPTOR_TYPE_STRING {
        string_descriptor_response(index, serial, configuration, interface)
    } else {
        Err(UsbControlError::UnsupportedDescriptor)
    }
}

fn string_descriptor_response<'a>(
    index: u8,
    serial: &'a str,
    configuration: &'a str,
    interface: &'a str,
) -> (r: Result<ControlResponse<'a>, UsbControlError>)
    ensures
        r == spec_string_descriptor_response(index, serial, configuration, interface),
{
    match index {
        STRING_LANGID => Ok(ControlResponse::Bytes(&LANGID_STRING_DESCRIPTOR)),
        STRING_MANUFACTURER => Ok(ControlResponse::StringAscii(MANUFACTURER_STRING)),
        STRING_PRODUCT => Ok(ControlResponse::StringAscii(PRODUCT_STRING)),
        STRING_SERIAL => Ok(ControlResponse::StringAscii(serial)),
        STRING_CONFIGURATION => Ok(ControlResponse::StringAscii(configuration)),
        STRING_INTERFACE => Ok(ControlResponse::StringAscii(interface)),
        STRING_DFU => Ok(ControlResponse::StringAscii(DFU_INTERFACE_STRING)),
        _ => Err(UsbControlError::UnsupportedDescriptor),
    }
}

/// The string descriptors by index: 0 the language table (US English), 1
/// the manufacturer "Unhuman Inc.", 2 the product "OBOT motor controller",
/// 3 the serial number, 4 the configuration, 5 the interface, 6 the DFU
/// interface "ST DFU mode"; each index gives its own string, and any higher
/// index is an unsupported descriptor.
pub proof fn lemma_string_descriptors_by_index(
    index: u8,
    serial: &str,
    configuration: &str,
    interface: &str,
)
    ensures
        ({
            let r = spec_control_response(
                ControlRequest::GetDescriptor { descriptor_type: 3, index },
                serial,
                configuration,
                interface,
            );
            &&& index == 0 ==> (r matches Ok(ControlResponse::Bytes(b)) && b@ == seq![
                4u8,
                3u8,
                0x09u8,
                0x04u8,
            ])
            &&& index == 1 ==> (r matches Ok(ControlResponse::StringAscii(t)) && t@
                == "Unhuman Inc."@)
            &&& index == 2 ==> (r matches Ok(ControlResponse::StringAscii(t)) && t@
                == "OBOT motor controller"@)
            &&& index == 3 ==> (r matches Ok(ControlResponse::StringAscii(t)) && t@ == serial@)
            &&& index == 4 ==> (r matches Ok(ControlResponse::StringAscii(t)) && t@
                == configuration@)
            &&& index == 5 ==> (r matches Ok(ControlResponse::StringAscii(t)) && t@
                == interface@)
            &&& index == 6 ==> (r matches Ok(ControlResponse::StringAscii(t)) && t@
                == "ST DFU mode"@)
            &&& index > 6 ==> r == Err::<ControlResponse, UsbControlError>(
                UsbControlError::UnsupportedDescriptor,
            )
        }),
{
    assert(LANGID_STRING_DESCRIPTOR@ =~= seq![4u8, 3u8, 0x09u8, 0x04u8]);
}

/// A string descriptor: total length, type 3, then each byte of the text
/// followed by a zero byte (UTF-16LE for ASCII text).
pub open spec fn spec_string_descriptor(text: Seq<u8>) -> Seq<u8> {
    seq![(2 * text.len() + 2) as u8, DESCRIPTOR_TYPE_STRING] + Seq::new(
        2 * text.len(),
        |i: int|
            if i % 2 == 0 {
                text[i / 2]
            } else {
                0u8
            },
    )
}

/// Writes the string descriptor of `value` at the front of `output` and
/// returns it. A descriptor longer than 255 bytes, or than `output`, is
/// refused, in that order.
pub fn write_ascii_string_descriptor<'out>(value: &str, output: &'out mut [u8]) -> (r: Result<
    &'out [u8],
    UsbControlError,
>)
    ensures
        r is Err <==> 2 * value.spec_bytes().len() + 2 > 255 || old(output)@.len() < 2
            * value.spec_bytes().len() + 2,
        r matches Err(e) ==> e == (if 2 * value.spec_bytes().len() + 2 > 255 {
            UsbControlError::StringDescriptorTooLong
        } else {
            UsbControlError::OutputBufferTooSmall
        }),
        r is Err ==> final(output)@ == old(output)@,
        r matches Ok(d) ==> {
            &&& d@ == spec_string_descriptor(value.spec_bytes())
            &&& final(output)@ == d@ + old(output)@.subrange(d@.len() as int, old(output)@.len() as int)
        },
{
    let bytes = value.as_bytes();
    let n = bytes.len();
    if n > 126 {
        return Err(UsbControlError::StringDescriptorTooLong);
    }
    let len = n * 2 + 2;
    if output.len() < len {
        return Err(UsbControlError::OutputBufferTooSmall);
    }
    let ghost before = output@;
    output[0] = len as u8;
    output[1] = DESCRIPTOR_TYPE_STRING;
    let mut i: usize = 0;
    while i < n
        invariant
            n == bytes@.len() <= 126,
            len == 2 * n + 2,
            output@.len() == before.len() >= len,
            output@[0] == len as u8,
            output@[1] == DESCRIPTOR_TYPE_STRING,
            i <= n,
            forall|k: int|
                2 <= k < 2 + 2 * i ==> #[trigger] output@[k] == (if (k - 2) % 2 == 0 {
                    bytes@[(k - 2) / 2]
                } else {
                    0u8
                }),
            forall|k: int| len <= k < before.len() ==> output@[k] == before[k],
        decreases n - i,
    {
        let ghost prev = output@;
        let b = bytes[i];
        output[2 + i * 2] = b;
        output[3 + i * 2] = 0;
        assert forall|k: int| 2 <= k < 2 + 2 * (i + 1) implies #[trigger] output@[k] == (if (k - 2)
            % 2 == 0 {
            bytes@[(k - 2) / 2]
        } else {
            0u8
        }) by {
            if k < 2 + 2 * i {
                assert(output@[k] == prev[k]);
            } else if k == 2 + 2 * i {
                assert((k - 2) % 2 == 0 && (k - 2) / 2 == i);
            } else {
                assert((k - 2) % 2 == 1);
            }
        }
        i = i + 1;
    }
    let ghost d = spec_string_descriptor(bytes@);
    assert forall|k: int| 0 <= k < len implies output@[k] == d[k] by {
        if k >= 2 {
            assert(output@[k] == (if (k - 2) % 2 == 0 {
                bytes@[(k - 2) / 2]
            } else {
                0u8
            }));
        }
    }
    let out: &[u8] = output;
    let r = &out[0..len];
    assert(r@ =~= d);
    assert(output@ =~= r@ + before.subrange(len as int, before.len() as int));
    Ok(r)
}

/// The front of `data` that fits the length the host asked for.
pub fn limit_to_setup_length(data: &[u8], setup: SetupPacket) -> (r: &[u8])
    ensures
        r@ == data@.subrange(
            0,
            if data@.len() < setup.length {
                data@.len() as int
            } else {
                setup.length as int
            },
        ),
{
    let len = if data.len() < setup.length as usize {
        data.len()
    } else {
        setup.length as usize
    };
    &data[0..len]
}

} // verus!
