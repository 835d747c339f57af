use vstd::prelude::*;

use crate::protocol::{
    CommandPacket, DriverCommandPacket, TextApiRequestPacket, BENCHMARK_PACKET_LEN,
    BUS_VOLTAGE_PACKET_LEN, COMMAND_PACKET_LEN, DRIVER_COMMAND_PACKET_LEN,
    DRIVER_REPORT_PACKET_LEN, OUTPUT_SAFETY_PACKET_LEN, STATUS_PACKET_LEN,
    TEXT_API_REQUEST_PACKET_LEN, TEXT_API_RESPONSE_PACKET_LEN,
};

verus! {

/// The length of the exported benchmark packet.
pub fn packet_len() -> (n: usize)
    ensures
        n == BENCHMARK_PACKET_LEN,
{
    BENCHMARK_PACKET_LEN
}

pub fn status_packet_len() -> (n: usize)
    ensures
        n == STATUS_PACKET_LEN,
{
    STATUS_PACKET_LEN
}

pub fn command_packet_len() -> (n: usize)
    ensures
        n == COMMAND_PACKET_LEN,
{
    COMMAND_PACKET_LEN
}

pub fn driver_command_packet_len() -> (n: usize)
    ensures
        n == DRIVER_COMMAND_PACKET_LEN,
{
    DRIVER_COMMAND_PACKET_LEN
}

pub fn driver_report_packet_len() -> (n: usize)
    ensures
        n == DRIVER_REPORT_PACKET_LEN,
{
    DRIVER_REPORT_PACKET_LEN
}

pub fn output_safety_packet_len() -> (n: usize)
    ensures
        n == OUTPUT_SAFETY_PACKET_LEN,
{
    OUTPUT_SAFETY_PACKET_LEN
}

pub fn bus_voltage_packet_len() -> (n: usize)
    ensures
        n == BUS_VOLTAGE_PACKET_LEN,
{
    BUS_VOLTAGE_PACKET_LEN
}

pub fn text_api_request_packet_len() -> (n: usize)
    ensures
        n == TEXT_API_REQUEST_PACKET_LEN,
{
    TEXT_API_REQUEST_PACKET_LEN
}

pub fn text_api_response_packet_len() -> (n: usize)
    ensures
        n == TEXT_API_RESPONSE_PACKET_LEN,
{
    TEXT_API_RESPONSE_PACKET_LEN
}

/// The debugger wrote something new: the exported sequence byte moved from
/// the one last seen.
pub fn poll_pending(sequence: u8, last_sequence: u8) -> (b: bool)
    ensures
        b == (sequence != last_sequence),
{
    sequence != last_sequence
}

/// Takes a command the debugger wrote with sequence byte `sequence`: it is
/// used only when it decodes and carries that same sequence. Either way the
/// exchange restarts from sequence 0.
pub fn take_command(sequence: u8, bytes: &[u8], last_sequence: &mut u8) -> (r: Option<
    CommandPacket,
>)
    requires
        sequence != *old(last_sequence),
    ensures
        *final(last_sequence) == 0,
        r == (match CommandPacket::spec_decode(bytes@) {
            Ok(p) => if p.sequence == sequence {
                Some(p)
            } else {
                None
            },
            Err(_) => None,
        }),
{
    *last_sequence = 0;
    match CommandPacket::decode(bytes) {
        Ok(p) => if p.sequence == sequence {
            Some(p)
        } else {
            None
        },
        Err(_) => None,
    }
}

/// Takes a driver command the debugger wrote, as `take_command` does.
pub fn take_driver_command(sequence: u8, bytes: &[u8], last_sequence: &mut u8) -> (r: Option<
    DriverCommandPacket,
>)
    requires
        sequence != *old(last_sequence),
    ensures
        *final(last_sequence) == 0,
        r == (match DriverCommandPacket::spec_decode(bytes@) {
            Ok(p) => if p.sequence == sequence {
                Some(p)
            } else {
                None
            },
            Err(_) => None,
        }),
{
    *last_sequence = 0;
    match DriverCommandPacket::decode(bytes) {
        Ok(p) => if p.sequence == sequence {
            Some(p)
        } else {
            None
        },
        Err(_) => None,
    }
}

/// Takes a text request the debugger wrote, as `take_command` does.
pub fn take_text_api_request(sequence: u8, bytes: &[u8], last_sequence: &mut u8) -> (r: Option<
    TextApiRequestPacket,
>)
    requires
        sequence != *old(last_sequence),
    ensures
        *final(last_sequence) == 0,
        r is Some <==> TextApiRequestPacket::spec_decode_error(bytes@) is None && bytes@[0]
            == sequence,
        r matches Some(p) ==> TextApiRequestPacket::spec_decodes_to(bytes@, p),
{
    *last_sequence = 0;
    match TextApiRequestPacket::decode(bytes) {
        Ok(p) => if p.sequence == sequence {
            Some(p)
        } else {
            None
        },
        Err(_) => None,
    }
}

} // verus!
